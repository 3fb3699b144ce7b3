//! The readiness report, in Markdown.

use crate::migration::{
    feature_views, holds_text, AmplifyGeneration, AnalysisView, CompatView, CompatibilityStatus,
    DetectedFeature, FeatureView, MigrationAnalysis, MigrationSummary,
};
use crate::text::{
    bullet_lines, bullets, decimal, decimal_of, same_text, string_views, uppercase, uppercase_of,
};
use vstd::prelude::*;
use vstd::string::StringExecFns;

verus! {

pub const TITLE: &'static str =
    "# Amplify Gen1 \u{201a}\u{dc}\u{ed} Gen2 Migration Analysis\n\n";

pub const PROJECT_LABEL: &'static str = "**Project:** ";

pub const GENERATION_LABEL: &'static str = "**Detected Generation:** ";

pub const ALREADY_GEN2: &'static str =
    "\u{201a}\u{fa}\u{d6} This project is already using Amplify Gen2!\n";

pub const NOT_DETECTED: &'static str =
    "\u{201a}\u{f6}\u{2020}\u{d4}\u{220f}\u{e8} Could not detect an Amplify project in this directory.\n";

pub const SUMMARY_HEAD: &'static str =
    "## Summary\n\n| Metric | Count |\n|--------|-------|\n";

pub const TOTAL_ROW: &'static str = "| Total Features | ";

pub const SUPPORTED_ROW: &'static str = "| \u{201a}\u{fa}\u{d6} Fully Supported | ";

pub const CDK_ROW: &'static str = "| \u{f8ff}\u{fc}\u{ee}\u{df} Supported with CDK | ";

pub const UNSUPPORTED_ROW: &'static str = "| \u{201a}\u{f9}\u{e5} Not Supported | ";

pub const MANUAL_ROW: &'static str =
    "| \u{201a}\u{f6}\u{2020}\u{d4}\u{220f}\u{e8} Manual Migration | ";

pub const ROW_END: &'static str = " |\n";

pub const READY: &'static str =
    "### \u{201a}\u{fa}\u{d6} Ready for Migration\n\nYour project can be migrated to Gen2. Some features may require CDK customization.\n\n";

pub const BLOCKING_HEAD: &'static str =
    "### \u{201a}\u{f9}\u{e5} Blocking Issues\n\nThe following issues must be resolved before migration:\n\n";

pub const WARNINGS_HEAD: &'static str =
    "### \u{201a}\u{f6}\u{2020}\u{d4}\u{220f}\u{e8} Warnings\n\n";

pub const CATEGORIES_HEAD: &'static str = "## Detected Categories\n\n";

pub const FEATURES_HEAD: &'static str = "## Feature Analysis\n\n";

pub const CATEGORY_MARK: &'static str = "### ";

pub const FEATURE_MARK: &'static str = "#### ";

pub const ICON_SUPPORTED: &'static str = "\u{201a}\u{fa}\u{d6}";

pub const ICON_CDK: &'static str = "\u{f8ff}\u{fc}\u{ee}\u{df}";

pub const ICON_UNSUPPORTED: &'static str = "\u{201a}\u{f9}\u{e5}";

pub const ICON_MANUAL: &'static str = "\u{201a}\u{f6}\u{2020}\u{d4}\u{220f}\u{e8}";

pub const LOCATION_LABEL: &'static str = "**Location:** ";

pub const STATUS_SUPPORTED: &'static str = "**Status:** Fully supported in Gen2\n\n";

pub const STATUS_CDK: &'static str = "**Status:** Supported with CDK customization\n\n";

pub const STATUS_UNSUPPORTED: &'static str = "**Status:** Not supported\n\n**Alternative:** ";

pub const STATUS_MANUAL: &'static str = "**Status:** Requires manual migration\n\n**Reason:** ";

pub const HINT_LABEL: &'static str = "**Migration Hint:** ";

pub const RULE: &'static str = "---\n\n";

pub const BLANK_LINE: &'static str = "\n\n";

pub const NEXT_STEPS: &'static str =
    "## Next Steps\n\n1. Review the blocking issues above (if any)\n2. For features requiring CDK, prepare your CDK customization strategy\n3. Create a new Gen2 project: `npm create amplify@latest`\n4. Migrate features one category at a time\n5. Test thoroughly in sandbox environment before deploying\n\n**Documentation:** https://docs.amplify.aws/react/start/migrate-to-gen2/\n";

/// The name of a generation.
pub open spec fn generation_name(generation: AmplifyGeneration) -> Seq<char> {
    match generation {
        AmplifyGeneration::Gen1 => "Gen1"@,
        AmplifyGeneration::Gen2 => "Gen2"@,
        AmplifyGeneration::Unknown => "Unknown"@,
    }
}

/// The title, the project and its generation.
pub open spec fn header_of(a: AnalysisView) -> Seq<char> {
    TITLE@ + PROJECT_LABEL@ + a.project_path + "\n"@ + GENERATION_LABEL@ + generation_name(
        a.generation,
    ) + BLANK_LINE@
}

/// Writes the title, the project and its generation.
pub fn header(analysis: &MigrationAnalysis) -> (text: String)
    ensures
        text@ == header_of(analysis@),
{
    let mut text = TITLE.to_string();
    text.append(PROJECT_LABEL);
    text.append(analysis.project_path.as_str());
    text.append("\n");
    text.append(GENERATION_LABEL);
    text.append(
        match analysis.generation {
            AmplifyGeneration::Gen1 => "Gen1",
            AmplifyGeneration::Gen2 => "Gen2",
            AmplifyGeneration::Unknown => "Unknown",
        },
    );
    text.append(BLANK_LINE);
    text
}

/// The table of counts.
pub open spec fn summary_table_of(summary: MigrationSummary) -> Seq<char> {
    SUMMARY_HEAD@ + TOTAL_ROW@ + decimal_of(summary.total_features as nat) + ROW_END@
        + SUPPORTED_ROW@ + decimal_of(summary.fully_supported as nat) + ROW_END@ + CDK_ROW@
        + decimal_of(summary.supported_with_cdk as nat) + ROW_END@ + UNSUPPORTED_ROW@ + decimal_of(
        summary.not_supported as nat,
    ) + ROW_END@ + MANUAL_ROW@ + decimal_of(summary.manual_migration as nat) + ROW_END@ + "\n"@
}

/// Writes the table of counts.
pub fn summary_table(summary: &MigrationSummary) -> (text: String)
    ensures
        text@ == summary_table_of(*summary),
{
    let mut text = SUMMARY_HEAD.to_string();
    text.append(TOTAL_ROW);
    text.append(decimal(summary.total_features).as_str());
    text.append(ROW_END);
    text.append(SUPPORTED_ROW);
    text.append(decimal(summary.fully_supported).as_str());
    text.append(ROW_END);
    text.append(CDK_ROW);
    text.append(decimal(summary.supported_with_cdk).as_str());
    text.append(ROW_END);
    text.append(UNSUPPORTED_ROW);
    text.append(decimal(summary.not_supported).as_str());
    text.append(ROW_END);
    text.append(MANUAL_ROW);
    text.append(decimal(summary.manual_migration).as_str());
    text.append(ROW_END);
    text.append("\n");
    text
}

/// A heading, the items as a list, and an empty line.
pub open spec fn listing_of(heading: Seq<char>, items: Seq<Seq<char>>) -> Seq<char> {
    heading + bullet_lines(items, items.len() as int) + "\n"@
}

/// Writes a heading, the items as a list, and an empty line.
pub fn listing(heading: &str, items: &Vec<String>) -> (text: String)
    ensures
        text@ == listing_of(heading@, string_views(items@)),
{
    let mut text = heading.to_string();
    text.append(bullets(items).as_str());
    text.append("\n");
    text
}

/// Whether the project is ready, or what blocks it.
pub open spec fn readiness_of(a: AnalysisView) -> Seq<char> {
    if a.ready_for_migration {
        READY@
    } else {
        listing_of(BLOCKING_HEAD@, a.blocking_issues)
    }
}

/// The warnings, where there are any.
pub open spec fn warnings_of(a: AnalysisView) -> Seq<char> {
    if a.warnings.len() == 0 {
        Seq::empty()
    } else {
        listing_of(WARNINGS_HEAD@, a.warnings)
    }
}

/// The icon of a compatibility.
pub open spec fn icon_of(compatibility: CompatView) -> Seq<char> {
    match compatibility {
        CompatView::Supported => ICON_SUPPORTED@,
        CompatView::SupportedWithCdk => ICON_CDK@,
        CompatView::NotSupported { .. } => ICON_UNSUPPORTED@,
        CompatView::ManualMigration { .. } => ICON_MANUAL@,
    }
}

/// The lines on the status of a feature.
pub open spec fn status_of_feature(compatibility: CompatView) -> Seq<char> {
    match compatibility {
        CompatView::Supported => STATUS_SUPPORTED@,
        CompatView::SupportedWithCdk => STATUS_CDK@,
        CompatView::NotSupported { alternative } => STATUS_UNSUPPORTED@ + alternative + BLANK_LINE@,
        CompatView::ManualMigration { reason } => STATUS_MANUAL@ + reason + BLANK_LINE@,
    }
}

/// Writes the lines on the status of a feature.
pub fn status_lines(compatibility: &CompatibilityStatus) -> (text: String)
    ensures
        text@ == status_of_feature(compatibility@),
{
    match compatibility {
        CompatibilityStatus::Supported => STATUS_SUPPORTED.to_string(),
        CompatibilityStatus::SupportedWithCdk => STATUS_CDK.to_string(),
        CompatibilityStatus::NotSupported { alternative } => {
            let mut text = STATUS_UNSUPPORTED.to_string();
            text.append(alternative.as_str());
            text.append(BLANK_LINE);
            text
        },
        CompatibilityStatus::ManualMigration { reason } => {
            let mut text = STATUS_MANUAL.to_string();
            text.append(reason.as_str());
            text.append(BLANK_LINE);
            text
        },
    }
}

/// The line on where a feature was found: the file, and the line in it
/// where that is known; nothing for a feature without a file.
pub open spec fn location_of(feature: FeatureView) -> Seq<char> {
    match feature.file_path {
        Some(file) => match feature.line_number {
            Some(line) => LOCATION_LABEL@ + file + ":"@ + decimal_of(line) + BLANK_LINE@,
            None => LOCATION_LABEL@ + file + BLANK_LINE@,
        },
        None => Seq::empty(),
    }
}

/// Writes the line on where a feature was found.
pub fn location_line(feature: &DetectedFeature) -> (text: String)
    ensures
        text@ == location_of(feature@),
{
    match &feature.file_path {
        Some(file) => {
            let mut text = LOCATION_LABEL.to_string();
            text.append(file.as_str());
            match feature.line_number {
                Some(line) => {
                    text.append(":");
                    text.append(decimal(line).as_str());
                },
                None => {},
            }
            text.append(BLANK_LINE);
            text
        },
        None => String::new(),
    }
}

/// What the report says of one feature.
pub open spec fn feature_block_of(feature: FeatureView) -> Seq<char> {
    FEATURE_MARK@ + icon_of(feature.compatibility) + " "@ + feature.feature + BLANK_LINE@
        + location_of(feature) + status_of_feature(feature.compatibility) + HINT_LABEL@
        + feature.migration_hint + BLANK_LINE@ + RULE@
}

/// Writes what the report says of one feature.
pub fn feature_block(feature: &DetectedFeature) -> (text: String)
    ensures
        text@ == feature_block_of(feature@),
{
    let mut text = FEATURE_MARK.to_string();
    text.append(
        match &feature.compatibility {
            CompatibilityStatus::Supported => ICON_SUPPORTED,
            CompatibilityStatus::SupportedWithCdk => ICON_CDK,
            CompatibilityStatus::NotSupported { .. } => ICON_UNSUPPORTED,
            CompatibilityStatus::ManualMigration { .. } => ICON_MANUAL,
        },
    );
    text.append(" ");
    text.append(feature.feature.as_str());
    text.append(BLANK_LINE);
    text.append(location_line(feature).as_str());
    text.append(status_lines(&feature.compatibility).as_str());
    text.append(HINT_LABEL);
    text.append(feature.migration_hint.as_str());
    text.append(BLANK_LINE);
    text.append(RULE);
    text
}

/// What the report says of those of the first `n` features that are of a
/// category, in the order of the features.
pub open spec fn blocks_of(features: Seq<FeatureView>, category: Seq<char>, n: int) -> Seq<char>
    decreases n,
{
    if n <= 0 {
        Seq::empty()
    } else if features[n - 1].category == category {
        blocks_of(features, category, n - 1) + feature_block_of(features[n - 1])
    } else {
        blocks_of(features, category, n - 1)
    }
}

/// The section of a category, under the given heading: the features of
/// the category.
pub open spec fn category_section_of(
    features: Seq<FeatureView>,
    category: Seq<char>,
    heading: Seq<char>,
) -> Seq<char> {
    CATEGORY_MARK@ + heading + BLANK_LINE@ + blocks_of(features, category, features.len() as int)
}

/// Writes the section of a category, under the given heading.
pub fn category_section(features: &Vec<DetectedFeature>, category: &str, heading: &str) -> (text:
    String)
    ensures
        text@ == category_section_of(feature_views(features@), category@, heading@),
{
    let ghost views = feature_views(features@);
    let mut blocks = String::new();
    let mut k: usize = 0;
    while k < features.len()
        invariant
            k <= features@.len(),
            views == feature_views(features@),
            blocks@ == blocks_of(views, category@, k as int),
        decreases features@.len() - k,
    {
        assert(views[k as int] == features@[k as int]@);
        if same_text(features[k].category.as_str(), category) {
            blocks.append(feature_block(&features[k]).as_str());
        }
        k += 1;
    }
    let mut text = CATEGORY_MARK.to_string();
    text.append(heading);
    text.append(BLANK_LINE);
    text.append(blocks.as_str());
    text
}

/// The categories of the first `n` features, each once, in the order in
/// which they first appear.
pub open spec fn categories_of(features: Seq<FeatureView>, n: int) -> Seq<Seq<char>>
    decreases n,
{
    if n <= 0 {
        Seq::empty()
    } else {
        let before = categories_of(features, n - 1);
        if before.contains(features[n - 1].category) {
            before
        } else {
            before.push(features[n - 1].category)
        }
    }
}

/// Lists the categories of the features, each once, in the order in which
/// they first appear.
pub fn feature_categories(features: &Vec<DetectedFeature>) -> (categories: Vec<String>)
    ensures
        string_views(categories@) == categories_of(
            feature_views(features@),
            features@.len() as int,
        ),
{
    let ghost views = feature_views(features@);
    let mut categories: Vec<String> = Vec::new();
    let mut k: usize = 0;
    assert(string_views(categories@) =~= categories_of(views, 0));
    while k < features.len()
        invariant
            k <= features@.len(),
            views == feature_views(features@),
            string_views(categories@) == categories_of(views, k as int),
        decreases features@.len() - k,
    {
        assert(views[k as int] == features@[k as int]@);
        if !holds_text(&categories, features[k].category.as_str()) {
            let ghost before = string_views(categories@);
            let category = features[k].category.clone();
            categories.push(category);
            assert(string_views(categories@) =~= before.push(features@[k as int].category@));
        }
        k += 1;
    }
    categories
}

/// The sections of the first `n` categories, each under its name in upper
/// case.
pub open spec fn sections_of(features: Seq<FeatureView>, categories: Seq<Seq<char>>, n: int)
    -> Seq<char>
    decreases n,
{
    if n <= 0 {
        Seq::empty()
    } else {
        sections_of(features, categories, n - 1) + category_section_of(
            features,
            categories[n - 1],
            uppercase_of(categories[n - 1]),
        )
    }
}

/// The features, by category: the categories in the order in which they
/// first appear among the features, the features of each in their order.
pub open spec fn feature_analysis_of(features: Seq<FeatureView>) -> Seq<char> {
    let categories = categories_of(features, features.len() as int);
    FEATURES_HEAD@ + sections_of(features, categories, categories.len() as int)
}

/// Writes the features, by category.
pub fn feature_analysis(features: &Vec<DetectedFeature>) -> (text: String)
    ensures
        text@ == feature_analysis_of(feature_views(features@)),
{
    let categories = feature_categories(features);
    let ghost names = string_views(categories@);
    let mut sections = String::new();
    let mut k: usize = 0;
    while k < categories.len()
        invariant
            k <= categories@.len(),
            names == string_views(categories@),
            sections@ == sections_of(feature_views(features@), names, k as int),
        decreases categories@.len() - k,
    {
        assert(names[k as int] == categories@[k as int]@);
        let heading = uppercase(categories[k].as_str());
        sections.append(
            category_section(features, categories[k].as_str(), heading.as_str()).as_str(),
        );
        k += 1;
    }
    let mut text = FEATURES_HEAD.to_string();
    text.append(sections.as_str());
    text
}

/// The report on an analysis. For a project that is not of the first
/// generation it says so and no more.
pub open spec fn report_of(a: AnalysisView) -> Seq<char> {
    match a.generation {
        AmplifyGeneration::Gen2 => header_of(a) + ALREADY_GEN2@,
        AmplifyGeneration::Unknown => header_of(a) + NOT_DETECTED@,
        AmplifyGeneration::Gen1 => header_of(a) + summary_table_of(a.summary) + readiness_of(a)
            + warnings_of(a) + listing_of(CATEGORIES_HEAD@, a.categories_detected)
            + feature_analysis_of(a.features) + NEXT_STEPS@,
    }
}

/// Writes the report on an analysis.
pub fn generate_report(analysis: &MigrationAnalysis) -> (report: String)
    ensures
        report@ == report_of(analysis@),
{
    let mut report = header(analysis);
    match analysis.generation {
        AmplifyGeneration::Gen2 => {
            report.append(ALREADY_GEN2);
        },
        AmplifyGeneration::Unknown => {
            report.append(NOT_DETECTED);
        },
        AmplifyGeneration::Gen1 => {
            report.append(summary_table(&analysis.summary).as_str());
            if analysis.ready_for_migration {
                report.append(READY);
            } else {
                report.append(listing(BLOCKING_HEAD, &analysis.blocking_issues).as_str());
            }
            if analysis.warnings.len() > 0 {
                report.append(listing(WARNINGS_HEAD, &analysis.warnings).as_str());
            } else {
                assert(report@ + Seq::<char>::empty() =~= report@);
            }
            report.append(listing(CATEGORIES_HEAD, &analysis.categories_detected).as_str());
            report.append(feature_analysis(&analysis.features).as_str());
            report.append(NEXT_STEPS);
        },
    }
    report
}

/// The categories of the first `n` features are listed once each, and no
/// other category is.
proof fn lemma_categories_of_prefix(features: Seq<FeatureView>, n: int)
    requires
        0 <= n <= features.len(),
    ensures
        categories_of(features, n).no_duplicates(),
        forall|i: int|
            0 <= i < n ==> categories_of(features, n).contains(#[trigger] features[i].category),
        forall|c: Seq<char>|
            categories_of(features, n).contains(c) ==> exists|i: int|
                0 <= i < n && #[trigger] features[i].category == c,
    decreases n,
{
    if n > 0 {
        lemma_categories_of_prefix(features, n - 1);
        let before = categories_of(features, n - 1);
        let now = categories_of(features, n);
        let last = features[n - 1].category;
        if before.contains(last) {
            assert(now == before);
        } else {
            assert(now == before.push(last));
            assert(now[before.len() as int] == last);
            assert forall|i: int| 0 <= i < n implies now.contains(
                #[trigger] features[i].category,
            ) by {
                if i < n - 1 {
                    let at = before.index_of(features[i].category);
                    assert(now[at] == features[i].category);
                }
            }
            assert forall|c: Seq<char>| now.contains(c) implies exists|i: int|
                0 <= i < n && #[trigger] features[i].category == c by {
                let at = now.index_of(c);
                if at < before.len() {
                    assert(before[at] == c);
                    assert(before.contains(c));
                } else {
                    assert(features[n - 1].category == c);
                }
            }
        }
    }
}

/// The categories under which the report lists the features are those of
/// the features, each once: every feature has its section, and no section
/// is without a feature.
pub proof fn lemma_sections_are_the_categories_of_the_features(features: Seq<FeatureView>)
    ensures
        categories_of(features, features.len() as int).no_duplicates(),
        forall|i: int|
            0 <= i < features.len() ==> categories_of(features, features.len() as int).contains(
                #[trigger] features[i].category,
            ),
        forall|c: Seq<char>|
            categories_of(features, features.len() as int).contains(c) ==> exists|i: int|
                0 <= i < features.len() && #[trigger] features[i].category == c,
{
    lemma_categories_of_prefix(features, features.len() as int);
}

} // verus!
