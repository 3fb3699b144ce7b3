//! Readiness of a project for the move from the first to the second
//! generation of the hosting framework.

use crate::markers;
pub use crate::migration_report::generate_report;
use crate::search::{find_line_number, first_line_with, lemma_first_line_exists_iff_found};
use crate::text::{
    any_occurs, contains_any, lemma_occurs_by_bytes, occurs_in, same_text, string_views, texts,
};
use vstd::prelude::*;
use vstd::string::StringExecFns;
use vstd::utf8::encode_utf8;

verus! {

/// The generation of a project.
#[derive(Clone, Copy, Debug, PartialEq, Eq)]
pub enum AmplifyGeneration {
    Gen1,
    Gen2,
    Unknown,
}

/// How a detected feature fares in the second generation.
#[derive(Clone, Debug, PartialEq, Eq)]
pub enum CompatibilityStatus {
    /// Fully supported.
    Supported,
    /// Supported with CDK customization.
    SupportedWithCdk,
    /// Not supported; an alternative is available.
    NotSupported { alternative: String },
    /// Requires manual migration.
    ManualMigration { reason: String },
}

/// A feature of the first generation that the project uses.
#[derive(Clone, Debug, PartialEq, Eq)]
pub struct DetectedFeature {
    pub category: String,
    pub feature: String,
    pub file_path: Option<String>,
    pub line_number: Option<usize>,
    pub compatibility: CompatibilityStatus,
    pub migration_hint: String,
}

/// How many features fare how.
#[derive(Clone, Copy, Debug, PartialEq, Eq)]
pub struct MigrationSummary {
    pub total_features: usize,
    pub fully_supported: usize,
    pub supported_with_cdk: usize,
    pub not_supported: usize,
    pub manual_migration: usize,
}

/// The result of analysing a project.
#[derive(Clone, Debug, PartialEq, Eq)]
pub struct MigrationAnalysis {
    pub generation: AmplifyGeneration,
    pub project_path: String,
    pub categories_detected: Vec<String>,
    pub features: Vec<DetectedFeature>,
    pub ready_for_migration: bool,
    pub blocking_issues: Vec<String>,
    pub warnings: Vec<String>,
    pub summary: MigrationSummary,
}

/// The kinds of compatibility, without their texts.
#[derive(Clone, Copy, Debug, PartialEq, Eq)]
pub enum Support {
    Full,
    WithCdk,
    Absent,
    Manual,
}

/// What a `CompatibilityStatus` says.
pub ghost enum CompatView {
    Supported,
    SupportedWithCdk,
    NotSupported { alternative: Seq<char> },
    ManualMigration { reason: Seq<char> },
}

impl View for CompatibilityStatus {
    type V = CompatView;

    open spec fn view(&self) -> CompatView {
        match *self {
            CompatibilityStatus::Supported => CompatView::Supported,
            CompatibilityStatus::SupportedWithCdk => CompatView::SupportedWithCdk,
            CompatibilityStatus::NotSupported { alternative } => CompatView::NotSupported {
                alternative: alternative@,
            },
            CompatibilityStatus::ManualMigration { reason } => CompatView::ManualMigration {
                reason: reason@,
            },
        }
    }
}

/// What a `DetectedFeature` says.
pub ghost struct FeatureView {
    pub category: Seq<char>,
    pub feature: Seq<char>,
    pub file_path: Option<Seq<char>>,
    pub line_number: Option<nat>,
    pub compatibility: CompatView,
    pub migration_hint: Seq<char>,
}

/// The view of an optional text.
pub open spec fn option_view(text: Option<String>) -> Option<Seq<char>> {
    match text {
        Some(text) => Some(text@),
        None => None,
    }
}

/// The view of an optional line number.
pub open spec fn line_view(line: Option<usize>) -> Option<nat> {
    match line {
        Some(number) => Some(number as nat),
        None => None,
    }
}

impl View for DetectedFeature {
    type V = FeatureView;

    open spec fn view(&self) -> FeatureView {
        FeatureView {
            category: self.category@,
            feature: self.feature@,
            file_path: option_view(self.file_path),
            line_number: line_view(self.line_number),
            compatibility: self.compatibility@,
            migration_hint: self.migration_hint@,
        }
    }
}

/// The views of a list of features.
pub open spec fn feature_views(features: Seq<DetectedFeature>) -> Seq<FeatureView> {
    features.map_values(|f: DetectedFeature| f@)
}

/// What a `MigrationAnalysis` says.
pub ghost struct AnalysisView {
    pub generation: AmplifyGeneration,
    pub project_path: Seq<char>,
    pub categories_detected: Seq<Seq<char>>,
    pub features: Seq<FeatureView>,
    pub ready_for_migration: bool,
    pub blocking_issues: Seq<Seq<char>>,
    pub warnings: Seq<Seq<char>>,
    pub summary: MigrationSummary,
}

impl View for MigrationAnalysis {
    type V = AnalysisView;

    open spec fn view(&self) -> AnalysisView {
        AnalysisView {
            generation: self.generation,
            project_path: self.project_path@,
            categories_detected: string_views(self.categories_detected@),
            features: feature_views(self.features@),
            ready_for_migration: self.ready_for_migration,
            blocking_issues: string_views(self.blocking_issues@),
            warnings: string_views(self.warnings@),
            summary: self.summary,
        }
    }
}

/// The analysis with one more feature.
pub open spec fn with_feature(a: AnalysisView, feature: FeatureView) -> AnalysisView {
    AnalysisView { features: a.features.push(feature), ..a }
}

/// The analysis with one more blocking issue.
pub open spec fn with_blocking(a: AnalysisView, issue: Seq<char>) -> AnalysisView {
    AnalysisView { blocking_issues: a.blocking_issues.push(issue), ..a }
}

/// The analysis with one more warning.
pub open spec fn with_warning(a: AnalysisView, warning: Seq<char>) -> AnalysisView {
    AnalysisView { warnings: a.warnings.push(warning), ..a }
}

/// The analysis with one more category.
pub open spec fn with_category(a: AnalysisView, category: Seq<char>) -> AnalysisView {
    AnalysisView { categories_detected: a.categories_detected.push(category), ..a }
}

/// The compatibility of the given kind; `detail` is the alternative or the
/// reason where the kind has one.
pub open spec fn compat_view(support: Support, detail: Seq<char>) -> CompatView {
    match support {
        Support::Full => CompatView::Supported,
        Support::WithCdk => CompatView::SupportedWithCdk,
        Support::Absent => CompatView::NotSupported { alternative: detail },
        Support::Manual => CompatView::ManualMigration { reason: detail },
    }
}

/// Builds the compatibility of the given kind.
pub fn status_of(support: Support, detail: &str) -> (status: CompatibilityStatus)
    ensures
        status@ == compat_view(support, detail@),
{
    match support {
        Support::Full => CompatibilityStatus::Supported,
        Support::WithCdk => CompatibilityStatus::SupportedWithCdk,
        Support::Absent => CompatibilityStatus::NotSupported { alternative: detail.to_string() },
        Support::Manual => CompatibilityStatus::ManualMigration { reason: detail.to_string() },
    }
}

impl CompatView {
    /// The kind of compatibility.
    pub open spec fn support(self) -> Support {
        match self {
            CompatView::Supported => Support::Full,
            CompatView::SupportedWithCdk => Support::WithCdk,
            CompatView::NotSupported { .. } => Support::Absent,
            CompatView::ManualMigration { .. } => Support::Manual,
        }
    }
}

/// The predicate "has this kind of compatibility".
pub open spec fn having(support: Support) -> spec_fn(FeatureView) -> bool {
    |f: FeatureView| f.compatibility.support() == support
}

/// How many of the features have the given kind of compatibility.
pub open spec fn count_with(features: Seq<FeatureView>, support: Support) -> nat {
    features.filter(having(support)).len()
}

/// The summary of a list of features.
pub open spec fn summary_of(features: Seq<FeatureView>) -> MigrationSummary {
    MigrationSummary {
        total_features: features.len() as usize,
        fully_supported: count_with(features, Support::Full) as usize,
        supported_with_cdk: count_with(features, Support::WithCdk) as usize,
        not_supported: count_with(features, Support::Absent) as usize,
        manual_migration: count_with(features, Support::Manual) as usize,
    }
}

/// The analysis with its summary brought up to date: the counts of its
/// features, and ready when nothing blocks and no feature is unsupported.
pub open spec fn summarized(a: AnalysisView) -> AnalysisView {
    AnalysisView {
        summary: summary_of(a.features),
        ready_for_migration: a.blocking_issues.len() == 0 && count_with(
            a.features,
            Support::Absent,
        ) == 0,
        ..a
    }
}

/// The analysis of a project of which nothing is known yet.
pub open spec fn fresh_analysis(project_path: Seq<char>) -> AnalysisView {
    AnalysisView {
        generation: AmplifyGeneration::Unknown,
        project_path,
        categories_detected: Seq::empty(),
        features: Seq::empty(),
        ready_for_migration: true,
        blocking_issues: Seq::empty(),
        warnings: Seq::empty(),
        summary: MigrationSummary {
            total_features: 0,
            fully_supported: 0,
            supported_with_cdk: 0,
            not_supported: 0,
            manual_migration: 0,
        },
    }
}

/// Counts the features that have the given kind of compatibility.
pub fn count_features(features: &Vec<DetectedFeature>, support: Support) -> (count: usize)
    ensures
        count == count_with(feature_views(features@), support),
{
    let ghost views = feature_views(features@);
    let ghost wanted = having(support);
    let mut count: usize = 0;
    let mut k: usize = 0;
    assert(views.take(0).filter(wanted).len() == 0) by {
        assert(views.take(0) =~= Seq::<FeatureView>::empty());
        reveal(Seq::filter);
    }
    while k < features.len()
        invariant
            k <= features@.len(),
            views == feature_views(features@),
            wanted == having(support),
            count == views.take(k as int).filter(wanted).len(),
            count <= k,
        decreases features@.len() - k,
    {
        proof {
            assert(views.take(k + 1) =~= views.take(k as int).push(features@[k as int]@));
            views.take(k as int).lemma_filter_push(features@[k as int]@, wanted);
        }
        let same = match (&features[k].compatibility, support) {
            (CompatibilityStatus::Supported, Support::Full) => true,
            (CompatibilityStatus::SupportedWithCdk, Support::WithCdk) => true,
            (CompatibilityStatus::NotSupported { .. }, Support::Absent) => true,
            (CompatibilityStatus::ManualMigration { .. }, Support::Manual) => true,
            _ => false,
        };
        if same {
            count += 1;
        }
        k += 1;
    }
    assert(views.take(views.len() as int) =~= views);
    count
}

impl MigrationAnalysis {
    /// The analysis of a project of which nothing is known yet.
    pub fn new(project_path: &str) -> (analysis: MigrationAnalysis)
        ensures
            analysis@ == fresh_analysis(project_path@),
    {
        let analysis = MigrationAnalysis {
            generation: AmplifyGeneration::Unknown,
            project_path: project_path.to_string(),
            categories_detected: Vec::new(),
            features: Vec::new(),
            ready_for_migration: true,
            blocking_issues: Vec::new(),
            warnings: Vec::new(),
            summary: MigrationSummary {
                total_features: 0,
                fully_supported: 0,
                supported_with_cdk: 0,
                not_supported: 0,
                manual_migration: 0,
            },
        };
        assert(analysis@.categories_detected =~= Seq::<Seq<char>>::empty());
        assert(analysis@.features =~= Seq::<FeatureView>::empty());
        assert(analysis@.blocking_issues =~= Seq::<Seq<char>>::empty());
        assert(analysis@.warnings =~= Seq::<Seq<char>>::empty());
        analysis
    }

    /// Counts the features by kind of compatibility, and decides whether
    /// the project is ready: it is when nothing blocks and no feature is
    /// unsupported.
    pub fn compute_summary(&mut self)
        ensures
            final(self)@ == summarized(old(self)@),
    {
        self.summary.total_features = self.features.len();
        self.summary.fully_supported = count_features(&self.features, Support::Full);
        self.summary.supported_with_cdk = count_features(&self.features, Support::WithCdk);
        self.summary.not_supported = count_features(&self.features, Support::Absent);
        self.summary.manual_migration = count_features(&self.features, Support::Manual);
        self.ready_for_migration = self.blocking_issues.len() == 0 && self.summary.not_supported
            == 0;
    }

    /// Adds a feature.
    pub fn record(&mut self, feature: DetectedFeature)
        ensures
            final(self)@ == with_feature(old(self)@, feature@),
    {
        self.features.push(feature);
        assert(feature_views(self.features@) =~= feature_views(old(self).features@).push(feature@));
    }

    /// Adds a blocking issue.
    pub fn block(&mut self, issue: &str)
        ensures
            final(self)@ == with_blocking(old(self)@, issue@),
    {
        self.blocking_issues.push(issue.to_string());
        assert(string_views(self.blocking_issues@) =~= string_views(
            old(self).blocking_issues@,
        ).push(issue@));
    }

    /// Adds a warning.
    pub fn warn(&mut self, warning: &str)
        ensures
            final(self)@ == with_warning(old(self)@, warning@),
    {
        self.warnings.push(warning.to_string());
        assert(string_views(self.warnings@) =~= string_views(old(self).warnings@).push(warning@));
    }

    /// Adds a category.
    pub fn add_category(&mut self, category: &str)
        ensures
            final(self)@ == with_category(old(self)@, category@),
    {
        self.categories_detected.push(category.to_string());
        assert(string_views(self.categories_detected@) =~= string_views(
            old(self).categories_detected@,
        ).push(category@));
    }
}

/// A table of markers, by columns. Row `k` says: where one of the two
/// needles `needles[k]` occurs in a file, the project has the feature
/// `features[k]`, with the compatibility `support[k]` and `details[k]`
/// and the hint `hints[k]`; the feature is reported on the line where
/// `located[k]` first occurs, unless that is empty; `blocking[k]` and
/// `warnings[k]`, unless empty, are added to the blocking issues and to
/// the warnings.
#[derive(Clone, Copy, Debug)]
pub struct MarkerTable {
    pub category: &'static str,
    pub needles: &'static [[&'static str; 2]],
    pub features: &'static [&'static str],
    pub located: &'static [&'static str],
    pub support: &'static [Support],
    pub details: &'static [&'static str],
    pub hints: &'static [&'static str],
    pub blocking: &'static [&'static str],
    pub warnings: &'static [&'static str],
}

impl MarkerTable {
    /// The number of rows.
    pub open spec fn rows(self) -> int {
        self.needles@.len() as int
    }

    /// The columns have the same length.
    pub open spec fn well_formed(self) -> bool {
        &&& self.features@.len() == self.rows()
        &&& self.located@.len() == self.rows()
        &&& self.support@.len() == self.rows()
        &&& self.details@.len() == self.rows()
        &&& self.hints@.len() == self.rows()
        &&& self.blocking@.len() == self.rows()
        &&& self.warnings@.len() == self.rows()
    }
}

/// The tables of markers.
#[derive(Clone, Copy, Debug, PartialEq, Eq)]
pub enum MarkerSet {
    /// Directives of a GraphQL schema.
    Schema,
    /// Settings of the auth category.
    Auth,
    /// Settings of a storage bucket.
    StorageTrigger,
    /// Settings of the GraphQL transformer.
    Transformers,
    /// Settings of an API.
    RestApi,
}

impl MarkerSet {
    /// The table.
    pub open spec fn spec_table(self) -> MarkerTable {
        match self {
            MarkerSet::Schema => MarkerTable {
                category: markers::API,
                needles: &markers::SCHEMA_NEEDLES,
                features: &markers::SCHEMA_FEATURES,
                located: &markers::SCHEMA_LOCATED,
                support: &markers::SCHEMA_SUPPORT,
                details: &markers::SCHEMA_DETAILS,
                hints: &markers::SCHEMA_HINTS,
                blocking: &markers::SCHEMA_BLOCKING,
                warnings: &markers::SCHEMA_WARNINGS,
            },
            MarkerSet::Auth => MarkerTable {
                category: markers::AUTH,
                needles: &markers::AUTH_NEEDLES,
                features: &markers::AUTH_FEATURES,
                located: &markers::FOUR_EMPTY,
                support: &markers::AUTH_SUPPORT,
                details: &markers::FOUR_EMPTY,
                hints: &markers::AUTH_HINTS,
                blocking: &markers::FOUR_EMPTY,
                warnings: &markers::FOUR_EMPTY,
            },
            MarkerSet::StorageTrigger => MarkerTable {
                category: markers::STORAGE,
                needles: &markers::STORAGE_NEEDLES,
                features: &markers::STORAGE_FEATURES,
                located: &markers::ONE_EMPTY,
                support: &markers::STORAGE_SUPPORT,
                details: &markers::ONE_EMPTY,
                hints: &markers::STORAGE_HINTS,
                blocking: &markers::ONE_EMPTY,
                warnings: &markers::ONE_EMPTY,
            },
            MarkerSet::Transformers => MarkerTable {
                category: markers::API,
                needles: &markers::TRANSFORM_NEEDLES,
                features: &markers::TRANSFORM_FEATURES,
                located: &markers::ONE_EMPTY,
                support: &markers::TRANSFORM_SUPPORT,
                details: &markers::TRANSFORM_DETAILS,
                hints: &markers::TRANSFORM_HINTS,
                blocking: &markers::TRANSFORM_BLOCKING,
                warnings: &markers::ONE_EMPTY,
            },
            MarkerSet::RestApi => MarkerTable {
                category: markers::API,
                needles: &markers::REST_NEEDLES,
                features: &markers::REST_FEATURES,
                located: &markers::ONE_EMPTY,
                support: &markers::REST_SUPPORT,
                details: &markers::ONE_EMPTY,
                hints: &markers::REST_HINTS,
                blocking: &markers::ONE_EMPTY,
                warnings: &markers::ONE_EMPTY,
            },
        }
    }

    /// The table.
    #[verifier::when_used_as_spec(spec_table)]
    pub fn table(self) -> (table: MarkerTable)
        ensures
            table == self.spec_table(),
            table.well_formed(),
    {
        match self {
            MarkerSet::Schema => MarkerTable {
                category: markers::API,
                needles: &markers::SCHEMA_NEEDLES,
                features: &markers::SCHEMA_FEATURES,
                located: &markers::SCHEMA_LOCATED,
                support: &markers::SCHEMA_SUPPORT,
                details: &markers::SCHEMA_DETAILS,
                hints: &markers::SCHEMA_HINTS,
                blocking: &markers::SCHEMA_BLOCKING,
                warnings: &markers::SCHEMA_WARNINGS,
            },
            MarkerSet::Auth => MarkerTable {
                category: markers::AUTH,
                needles: &markers::AUTH_NEEDLES,
                features: &markers::AUTH_FEATURES,
                located: &markers::FOUR_EMPTY,
                support: &markers::AUTH_SUPPORT,
                details: &markers::FOUR_EMPTY,
                hints: &markers::AUTH_HINTS,
                blocking: &markers::FOUR_EMPTY,
                warnings: &markers::FOUR_EMPTY,
            },
            MarkerSet::StorageTrigger => MarkerTable {
                category: markers::STORAGE,
                needles: &markers::STORAGE_NEEDLES,
                features: &markers::STORAGE_FEATURES,
                located: &markers::ONE_EMPTY,
                support: &markers::STORAGE_SUPPORT,
                details: &markers::ONE_EMPTY,
                hints: &markers::STORAGE_HINTS,
                blocking: &markers::ONE_EMPTY,
                warnings: &markers::ONE_EMPTY,
            },
            MarkerSet::Transformers => MarkerTable {
                category: markers::API,
                needles: &markers::TRANSFORM_NEEDLES,
                features: &markers::TRANSFORM_FEATURES,
                located: &markers::ONE_EMPTY,
                support: &markers::TRANSFORM_SUPPORT,
                details: &markers::TRANSFORM_DETAILS,
                hints: &markers::TRANSFORM_HINTS,
                blocking: &markers::TRANSFORM_BLOCKING,
                warnings: &markers::ONE_EMPTY,
            },
            MarkerSet::RestApi => MarkerTable {
                category: markers::API,
                needles: &markers::REST_NEEDLES,
                features: &markers::REST_FEATURES,
                located: &markers::ONE_EMPTY,
                support: &markers::REST_SUPPORT,
                details: &markers::ONE_EMPTY,
                hints: &markers::REST_HINTS,
                blocking: &markers::ONE_EMPTY,
                warnings: &markers::ONE_EMPTY,
            },
        }
    }
}

/// Whether a row applies to a file: one of its needles occurs in the
/// content.
pub open spec fn row_applies(table: MarkerTable, row: int, content: Seq<char>) -> bool {
    any_occurs(texts(table.needles@[row]@), content)
}

/// The line that a row reports for a file.
pub open spec fn row_line(table: MarkerTable, row: int, content: Seq<char>) -> Option<nat> {
    if table.located@[row]@.len() == 0 {
        None
    } else {
        first_line_with(encode_utf8(table.located@[row]@), encode_utf8(content))
    }
}

/// A row reports a line exactly when it names a text to locate and that
/// text occurs in the file.
pub proof fn lemma_row_line_exists_iff_located(table: MarkerTable, row: int, content: Seq<char>)
    ensures
        row_line(table, row, content) is Some <==> table.located@[row]@.len() > 0 && occurs_in(
            table.located@[row]@,
            content,
        ),
{
    lemma_occurs_by_bytes(table.located@[row]@, content);
    lemma_first_line_exists_iff_found(
        encode_utf8(table.located@[row]@),
        encode_utf8(content),
    );
}

/// The feature that a row reports for a file.
pub open spec fn row_feature(table: MarkerTable, row: int, path: Seq<char>, content: Seq<char>)
    -> FeatureView {
    FeatureView {
        category: table.category@,
        feature: table.features@[row]@,
        file_path: Some(path),
        line_number: row_line(table, row, content),
        compatibility: compat_view(table.support@[row], table.details@[row]@),
        migration_hint: table.hints@[row]@,
    }
}

/// The analysis with what a row reports for a file: the feature, then the
/// blocking issue and the warning where the row has them.
pub open spec fn with_row(
    a: AnalysisView,
    table: MarkerTable,
    row: int,
    path: Seq<char>,
    content: Seq<char>,
) -> AnalysisView {
    let featured = with_feature(a, row_feature(table, row, path, content));
    let blocked = if table.blocking@[row]@.len() == 0 {
        featured
    } else {
        with_blocking(featured, table.blocking@[row]@)
    };
    if table.warnings@[row]@.len() == 0 {
        blocked
    } else {
        with_warning(blocked, table.warnings@[row]@)
    }
}

/// The analysis with what the first `n` rows of a table report for a file,
/// in the order of the rows.
pub open spec fn with_rows(
    a: AnalysisView,
    table: MarkerTable,
    path: Seq<char>,
    content: Seq<char>,
    n: int,
) -> AnalysisView
    decreases n,
{
    if n <= 0 {
        a
    } else {
        let before = with_rows(a, table, path, content, n - 1);
        if row_applies(table, n - 1, content) {
            with_row(before, table, n - 1, path, content)
        } else {
            before
        }
    }
}

/// The analysis with what a table reports for a file.
pub open spec fn with_markers(
    a: AnalysisView,
    table: MarkerTable,
    path: Seq<char>,
    content: Seq<char>,
) -> AnalysisView {
    with_rows(a, table, path, content, table.rows())
}

/// Looks in a file for the markers of a table, and adds to the analysis
/// what the rows that apply report, in the order of the rows.
pub fn apply_markers(
    analysis: &mut MigrationAnalysis,
    table: &MarkerTable,
    file_path: &str,
    content: &str,
)
    requires
        table.well_formed(),
    ensures
        final(analysis)@ == with_markers(old(analysis)@, *table, file_path@, content@),
{
    let rows: usize = table.needles.len();
    let mut row: usize = 0;
    while row < rows
        invariant
            row <= rows == table.rows(),
            table.well_formed(),
            analysis@ == with_rows(old(analysis)@, *table, file_path@, content@, row as int),
        decreases rows - row,
    {
        if contains_any(content, &table.needles[row]) {
            let line = if table.located[row].is_empty() {
                None
            } else {
                find_line_number(content, table.located[row])
            };
            analysis.record(
                DetectedFeature {
                    category: table.category.to_string(),
                    feature: table.features[row].to_string(),
                    file_path: Some(file_path.to_string()),
                    line_number: line,
                    compatibility: status_of(table.support[row], table.details[row]),
                    migration_hint: table.hints[row].to_string(),
                },
            );
            if !table.blocking[row].is_empty() {
                analysis.block(table.blocking[row]);
            }
            if !table.warnings[row].is_empty() {
                analysis.warn(table.warnings[row]);
            }
        }
        row += 1;
    }
}

/// A file of the project: where it is and what it holds.
#[derive(Clone, Debug, PartialEq, Eq)]
pub struct SourceFile {
    pub path: String,
    pub content: String,
}

/// The directory of one function, with its parameter file where it has
/// one.
#[derive(Clone, Debug, PartialEq, Eq)]
pub struct FunctionDir {
    pub name: String,
    pub path: String,
    pub parameters: Option<SourceFile>,
}

/// The directory of the api category: the schemas and the settings of its
/// APIs, and the transformer settings where there are any.
#[derive(Clone, Debug, PartialEq, Eq)]
pub struct ApiDir {
    pub schemas: Vec<SourceFile>,
    pub cli_inputs: Vec<SourceFile>,
    pub transform_conf: Option<SourceFile>,
}

/// The directory of the storage category, with the settings of its
/// buckets.
#[derive(Clone, Debug, PartialEq, Eq)]
pub struct StorageDir {
    pub path: String,
    pub cli_inputs: Vec<SourceFile>,
}

/// What the analysis reads of a project directory. A part that the
/// directory lacks is absent; the paths of the geo, analytics and
/// interactions categories stand for their directories.
#[derive(Clone, Debug, PartialEq, Eq)]
pub struct ProjectFiles {
    pub has_gen2_backend: bool,
    pub has_amplify_dir: bool,
    pub backend_config: Option<String>,
    pub api: Option<ApiDir>,
    pub auth: Option<Vec<SourceFile>>,
    pub storage: Option<StorageDir>,
    pub functions: Option<Vec<FunctionDir>>,
    pub geo: Option<String>,
    pub analytics: Option<String>,
    pub interactions: Option<String>,
}

/// Why a project cannot be analysed.
#[derive(Clone, Copy, Debug, PartialEq, Eq)]
pub enum MigrationError {
    /// The backend configuration is not JSON.
    InvalidBackendConfig,
}

pub const INVALID_BACKEND_CONFIG_MESSAGE: &'static str =
    "amplify/backend/backend-config.json is not valid JSON";

impl MigrationError {
    /// What to tell the user.
    pub fn message(&self) -> (text: &'static str)
        ensures
            text@ == INVALID_BACKEND_CONFIG_MESSAGE@,
    {
        INVALID_BACKEND_CONFIG_MESSAGE
    }
}

/// `serde_json::Error`, the JSON parser's error; it is only passed on.
#[verifier::external_type_specification]
#[verifier::external_body]
pub struct ExJsonError(serde_json::Error);

/// What the JSON parser makes of a text: nothing where the text is not
/// JSON; else the keys of the top-level object, in the order in which the
/// parser's map gives them, or nothing where the top level is no object.
pub uninterp spec fn json_object_keys(content: Seq<char>) -> Option<Option<Seq<Seq<char>>>>;

/// The views of an optional list of strings.
pub open spec fn option_views(list: Option<Vec<String>>) -> Option<Seq<Seq<char>>> {
    match list {
        Some(list) => Some(string_views(list@)),
        None => None,
    }
}

/// `serde_json::from_str` to a `serde_json::Value`, and `Map::keys` where
/// the value is an object: the keys of the top-level object. The contract
/// only names the result. Trusted, not proved.
#[verifier::external_body]
fn parse_object_keys(content: &str) -> (parsed: Result<Option<Vec<String>>, serde_json::Error>)
    ensures
        match parsed {
            Ok(keys) => json_object_keys(content@) == Some(option_views(keys)),
            Err(_) => json_object_keys(content@) is None,
        },
{
    match serde_json::from_str::<serde_json::Value>(content)? {
        serde_json::Value::Object(object) => Ok(Some(object.keys().cloned().collect())),
        _ => Ok(None),
    }
}

/// The analysis with the first `n` of the given categories, each unless
/// the analysis has it already.
pub open spec fn with_new_categories(a: AnalysisView, categories: Seq<Seq<char>>, n: int)
    -> AnalysisView
    decreases n,
{
    if n <= 0 {
        a
    } else {
        let before = with_new_categories(a, categories, n - 1);
        if before.categories_detected.contains(categories[n - 1]) {
            before
        } else {
            with_category(before, categories[n - 1])
        }
    }
}

/// Tells whether a list of strings holds a text.
pub fn holds_text(list: &Vec<String>, text: &str) -> (found: bool)
    ensures
        found == string_views(list@).contains(text@),
{
    let mut k: usize = 0;
    while k < list.len()
        invariant
            k <= list@.len(),
            forall|j: int| 0 <= j < k ==> string_views(list@)[j] != text@,
        decreases list@.len() - k,
    {
        if same_text(list[k].as_str(), text) {
            assert(string_views(list@)[k as int] == text@);
            return true;
        }
        k += 1;
    }
    false
}

/// Adds the categories that the analysis does not have yet, in the given
/// order.
pub fn add_new_categories(analysis: &mut MigrationAnalysis, categories: &Vec<String>)
    ensures
        final(analysis)@ == with_new_categories(
            old(analysis)@,
            string_views(categories@),
            categories@.len() as int,
        ),
{
    let mut k: usize = 0;
    while k < categories.len()
        invariant
            k <= categories@.len(),
            analysis@ == with_new_categories(old(analysis)@, string_views(categories@), k as int),
        decreases categories@.len() - k,
    {
        assert(string_views(categories@)[k as int] == categories@[k as int]@);
        if !holds_text(&analysis.categories_detected, categories[k].as_str()) {
            analysis.add_category(categories[k].as_str());
        }
        k += 1;
    }
}

/// The analysis after the backend configuration, given what the JSON
/// parser makes of it: the top-level keys are categories.
pub open spec fn with_backend_config(a: AnalysisView, parsed: Option<Option<Seq<Seq<char>>>>)
    -> Result<AnalysisView, MigrationError> {
    match parsed {
        None => Err(MigrationError::InvalidBackendConfig),
        Some(None) => Ok(a),
        Some(Some(keys)) => Ok(with_new_categories(a, keys, keys.len() as int)),
    }
}

/// Reads the categories of the project off its backend configuration.
/// Leaves the analysis as it is where the configuration is not JSON.
pub fn analyze_backend_config(analysis: &mut MigrationAnalysis, content: &str) -> (result: Result<
    (),
    MigrationError,
>)
    ensures
        match result {
            Ok(()) => with_backend_config(old(analysis)@, json_object_keys(content@)) == Ok::<
                AnalysisView,
                MigrationError,
            >(final(analysis)@),
            Err(error) => with_backend_config(old(analysis)@, json_object_keys(content@)) == Err::<
                AnalysisView,
                MigrationError,
            >(error) && final(analysis)@ == old(analysis)@,
        },
{
    match parse_object_keys(content) {
        Ok(Some(keys)) => {
            add_new_categories(analysis, &keys);
            Ok(())
        },
        Ok(None) => Ok(()),
        Err(_) => Err(MigrationError::InvalidBackendConfig),
    }
}

/// The analysis with what a table reports for the first `n` of the files,
/// in the order of the files.
pub open spec fn with_files(a: AnalysisView, table: MarkerTable, files: Seq<SourceFile>, n: int)
    -> AnalysisView
    decreases n,
{
    if n <= 0 {
        a
    } else {
        with_markers(
            with_files(a, table, files, n - 1),
            table,
            files[n - 1].path@,
            files[n - 1].content@,
        )
    }
}

/// Looks in each of the files for the markers of a table.
pub fn apply_to_files(
    analysis: &mut MigrationAnalysis,
    table: &MarkerTable,
    files: &Vec<SourceFile>,
)
    requires
        table.well_formed(),
    ensures
        final(analysis)@ == with_files(old(analysis)@, *table, files@, files@.len() as int),
{
    let mut k: usize = 0;
    while k < files.len()
        invariant
            k <= files@.len(),
            table.well_formed(),
            analysis@ == with_files(old(analysis)@, *table, files@, k as int),
        decreases files@.len() - k,
    {
        apply_markers(analysis, table, files[k].path.as_str(), files[k].content.as_str());
        k += 1;
    }
}

/// The analysis after a GraphQL schema.
pub fn analyze_graphql_schema(analysis: &mut MigrationAnalysis, schema: &SourceFile)
    ensures
        final(analysis)@ == with_markers(
            old(analysis)@,
            MarkerSet::Schema.spec_table(),
            schema.path@,
            schema.content@,
        ),
{
    let table = MarkerSet::Schema.table();
    apply_markers(analysis, &table, schema.path.as_str(), schema.content.as_str());
}

/// The analysis after the api category: the category, then what its
/// schemas show.
pub open spec fn with_graphql_api(a: AnalysisView, api: ApiDir) -> AnalysisView {
    with_files(
        with_category(a, markers::API@),
        MarkerSet::Schema.spec_table(),
        api.schemas@,
        api.schemas@.len() as int,
    )
}

/// Records the api category and what the schemas of its APIs show.
pub fn analyze_graphql_api(analysis: &mut MigrationAnalysis, api: &ApiDir)
    ensures
        final(analysis)@ == with_graphql_api(old(analysis)@, *api),
{
    analysis.add_category(markers::API);
    let table = MarkerSet::Schema.table();
    apply_to_files(analysis, &table, &api.schemas);
}

/// Records what the settings of the auth category show.
pub fn analyze_auth(analysis: &mut MigrationAnalysis, cli_inputs: &Vec<SourceFile>)
    ensures
        final(analysis)@ == with_files(
            old(analysis)@,
            MarkerSet::Auth.spec_table(),
            cli_inputs@,
            cli_inputs@.len() as int,
        ),
{
    let table = MarkerSet::Auth.table();
    apply_to_files(analysis, &table, cli_inputs);
}

/// A feature that a project has by having a directory.
pub open spec fn presence_feature(
    category: Seq<char>,
    feature: Seq<char>,
    path: Seq<char>,
    support: Support,
    hint: Seq<char>,
) -> FeatureView {
    FeatureView {
        category,
        feature,
        file_path: Some(path),
        line_number: None,
        compatibility: compat_view(support, Seq::empty()),
        migration_hint: hint,
    }
}

/// Builds a feature that a project has by having a directory.
fn present(category: &str, feature: &str, path: &str, support: Support, hint: &str) -> (found:
    DetectedFeature)
    requires
        support == Support::Full || support == Support::WithCdk,
    ensures
        found@ == presence_feature(category@, feature@, path@, support, hint@),
{
    DetectedFeature {
        category: category.to_string(),
        feature: feature.to_string(),
        file_path: Some(path.to_string()),
        line_number: None,
        compatibility: status_of(support, ""),
        migration_hint: hint.to_string(),
    }
}

/// The analysis after the storage category: the bucket, then what the
/// settings show.
pub open spec fn with_storage(a: AnalysisView, storage: StorageDir) -> AnalysisView {
    with_files(
        with_feature(
            a,
            presence_feature(
                markers::STORAGE@,
                markers::S3_STORAGE_FEATURE@,
                storage.path@,
                Support::Full,
                markers::S3_STORAGE_HINT@,
            ),
        ),
        MarkerSet::StorageTrigger.spec_table(),
        storage.cli_inputs@,
        storage.cli_inputs@.len() as int,
    )
}

/// Records the storage bucket and what the settings of the storage
/// category show.
pub fn analyze_storage(analysis: &mut MigrationAnalysis, storage: &StorageDir)
    ensures
        final(analysis)@ == with_storage(old(analysis)@, *storage),
{
    analysis.record(
        present(
            markers::STORAGE,
            markers::S3_STORAGE_FEATURE,
            storage.path.as_str(),
            Support::Full,
            markers::S3_STORAGE_HINT,
        ),
    );
    let table = MarkerSet::StorageTrigger.table();
    apply_to_files(analysis, &table, &storage.cli_inputs);
}

/// A feature of a function: its name stands in brackets behind the kind
/// of feature.
pub open spec fn function_feature(
    kind: Seq<char>,
    name: Seq<char>,
    path: Seq<char>,
    support: Support,
    detail: Seq<char>,
    hint: Seq<char>,
) -> FeatureView {
    FeatureView {
        category: markers::FUNCTION@,
        feature: kind + name + markers::CLOSING@,
        file_path: Some(path),
        line_number: None,
        compatibility: compat_view(support, detail),
        migration_hint: hint,
    }
}

/// Builds a feature of a function.
fn function_finding(
    kind: &str,
    name: &str,
    path: &str,
    support: Support,
    detail: &str,
    hint: &str,
) -> (found: DetectedFeature)
    ensures
        found@ == function_feature(kind@, name@, path@, support, detail@, hint@),
{
    let mut feature = kind.to_string();
    feature.append(name);
    feature.append(markers::CLOSING);
    DetectedFeature {
        category: markers::FUNCTION.to_string(),
        feature,
        file_path: Some(path.to_string()),
        line_number: None,
        compatibility: status_of(support, detail),
        migration_hint: hint.to_string(),
    }
}

/// The analysis with what the layers of a function show.
pub open spec fn with_layers(a: AnalysisView, name: Seq<char>, parameters: SourceFile)
    -> AnalysisView {
    if any_occurs(texts(markers::LAYERS_NEEDLES@), parameters.content@) {
        with_warning(
            with_feature(
                a,
                function_feature(
                    markers::LAYERS_FEATURE@,
                    name,
                    parameters.path@,
                    Support::Absent,
                    markers::LAYERS_ALTERNATIVE@,
                    markers::LAYERS_HINT@,
                ),
            ),
            markers::LAYERS_WARNING_START@ + name + markers::LAYERS_WARNING_END@,
        )
    } else {
        a
    }
}

/// The feature that the runtime of a function makes: Python, another
/// runtime that is not Node.js, or Node.js.
pub open spec fn runtime_feature(dir: FunctionDir, parameters: SourceFile) -> FeatureView {
    if any_occurs(texts(markers::PYTHON_NEEDLES@), parameters.content@) {
        function_feature(
            markers::PYTHON_FEATURE@,
            dir.name@,
            parameters.path@,
            Support::WithCdk,
            Seq::empty(),
            markers::PYTHON_HINT@,
        )
    } else if any_occurs(texts(markers::OTHER_RUNTIME_NEEDLES@), parameters.content@) {
        function_feature(
            markers::OTHER_RUNTIME_FEATURE@,
            dir.name@,
            parameters.path@,
            Support::WithCdk,
            Seq::empty(),
            markers::OTHER_RUNTIME_HINT@,
        )
    } else {
        function_feature(
            markers::NODE_FEATURE@,
            dir.name@,
            dir.path@,
            Support::Full,
            Seq::empty(),
            markers::NODE_HINT@,
        )
    }
}

/// The analysis with what one function shows: nothing without a parameter
/// file; else its layers, then its runtime.
pub open spec fn with_function(a: AnalysisView, dir: FunctionDir) -> AnalysisView {
    match dir.parameters {
        None => a,
        Some(parameters) => with_feature(
            with_layers(a, dir.name@, parameters),
            runtime_feature(dir, parameters),
        ),
    }
}

/// The analysis with what the first `n` functions show.
pub open spec fn with_functions(a: AnalysisView, dirs: Seq<FunctionDir>, n: int) -> AnalysisView
    decreases n,
{
    if n <= 0 {
        a
    } else {
        with_function(with_functions(a, dirs, n - 1), dirs[n - 1])
    }
}

/// Records what one function shows.
pub fn analyze_function(analysis: &mut MigrationAnalysis, dir: &FunctionDir)
    ensures
        final(analysis)@ == with_function(old(analysis)@, *dir),
{
    match &dir.parameters {
        None => {},
        Some(parameters) => {
            let name = dir.name.as_str();
            let content = parameters.content.as_str();
            let path = parameters.path.as_str();
            if contains_any(content, &markers::LAYERS_NEEDLES) {
                analysis.record(
                    function_finding(
                        markers::LAYERS_FEATURE,
                        name,
                        path,
                        Support::Absent,
                        markers::LAYERS_ALTERNATIVE,
                        markers::LAYERS_HINT,
                    ),
                );
                let mut warning = markers::LAYERS_WARNING_START.to_string();
                warning.append(name);
                warning.append(markers::LAYERS_WARNING_END);
                analysis.warn(warning.as_str());
            }
            let runtime = if contains_any(content, &markers::PYTHON_NEEDLES) {
                function_finding(
                    markers::PYTHON_FEATURE,
                    name,
                    path,
                    Support::WithCdk,
                    "",
                    markers::PYTHON_HINT,
                )
            } else if contains_any(content, &markers::OTHER_RUNTIME_NEEDLES) {
                function_finding(
                    markers::OTHER_RUNTIME_FEATURE,
                    name,
                    path,
                    Support::WithCdk,
                    "",
                    markers::OTHER_RUNTIME_HINT,
                )
            } else {
                function_finding(
                    markers::NODE_FEATURE,
                    name,
                    dir.path.as_str(),
                    Support::Full,
                    "",
                    markers::NODE_HINT,
                )
            };
            analysis.record(runtime);
        },
    }
}

/// Records what the functions show, in the given order.
pub fn analyze_functions(analysis: &mut MigrationAnalysis, dirs: &Vec<FunctionDir>)
    ensures
        final(analysis)@ == with_functions(old(analysis)@, dirs@, dirs@.len() as int),
{
    let mut k: usize = 0;
    while k < dirs.len()
        invariant
            k <= dirs@.len(),
            analysis@ == with_functions(old(analysis)@, dirs@, k as int),
        decreases dirs@.len() - k,
    {
        analyze_function(analysis, &dirs[k]);
        k += 1;
    }
}

/// The analysis with a category that a project has by having its
/// directory, where it has it: the category and its feature, which needs
/// CDK customization.
pub open spec fn with_presence(
    a: AnalysisView,
    directory: Option<String>,
    category: Seq<char>,
    feature: Seq<char>,
    hint: Seq<char>,
) -> AnalysisView {
    match directory {
        Some(path) => with_feature(
            with_category(a, category),
            presence_feature(category, feature, path@, Support::WithCdk, hint),
        ),
        None => a,
    }
}

/// Records a category that a project has by having its directory.
fn note_presence(
    analysis: &mut MigrationAnalysis,
    directory: &Option<String>,
    category: &str,
    feature: &str,
    hint: &str,
)
    ensures
        final(analysis)@ == with_presence(old(analysis)@, *directory, category@, feature@, hint@),
{
    match directory {
        Some(path) => {
            analysis.add_category(category);
            analysis.record(present(category, feature, path.as_str(), Support::WithCdk, hint));
        },
        None => {},
    }
}

/// The analysis with what the transformer settings show, where there are
/// any.
pub open spec fn with_transformers(a: AnalysisView, api: Option<ApiDir>) -> AnalysisView {
    match api {
        Some(ApiDir { transform_conf: Some(file), .. }) => with_markers(
            a,
            MarkerSet::Transformers.spec_table(),
            file.path@,
            file.content@,
        ),
        _ => a,
    }
}

/// The analysis with the REST APIs that the settings of the APIs show.
pub open spec fn with_rest_apis(a: AnalysisView, api: Option<ApiDir>) -> AnalysisView {
    match api {
        Some(api) => with_files(
            a,
            MarkerSet::RestApi.spec_table(),
            api.cli_inputs@,
            api.cli_inputs@.len() as int,
        ),
        None => a,
    }
}

/// The analysis after the look for what the second generation has no
/// like of: custom transformers, then the geo, analytics and interactions
/// categories, then REST APIs.
pub open spec fn with_deprecated_patterns(a: AnalysisView, files: ProjectFiles) -> AnalysisView {
    let transformed = with_transformers(a, files.api);
    let located = with_presence(
        transformed,
        files.geo,
        markers::GEO@,
        markers::GEO_FEATURE@,
        markers::GEO_HINT@,
    );
    let measured = with_presence(
        located,
        files.analytics,
        markers::ANALYTICS@,
        markers::ANALYTICS_FEATURE@,
        markers::ANALYTICS_HINT@,
    );
    let conversed = with_presence(
        measured,
        files.interactions,
        markers::INTERACTIONS@,
        markers::INTERACTIONS_FEATURE@,
        markers::INTERACTIONS_HINT@,
    );
    with_rest_apis(conversed, files.api)
}

/// Looks for what the second generation has no like of.
pub fn check_deprecated_patterns(analysis: &mut MigrationAnalysis, files: &ProjectFiles)
    ensures
        final(analysis)@ == with_deprecated_patterns(old(analysis)@, *files),
{
    match &files.api {
        Some(api) => match &api.transform_conf {
            Some(file) => {
                let table = MarkerSet::Transformers.table();
                apply_markers(analysis, &table, file.path.as_str(), file.content.as_str());
            },
            None => {},
        },
        None => {},
    }
    note_presence(analysis, &files.geo, markers::GEO, markers::GEO_FEATURE, markers::GEO_HINT);
    note_presence(
        analysis,
        &files.analytics,
        markers::ANALYTICS,
        markers::ANALYTICS_FEATURE,
        markers::ANALYTICS_HINT,
    );
    note_presence(
        analysis,
        &files.interactions,
        markers::INTERACTIONS,
        markers::INTERACTIONS_FEATURE,
        markers::INTERACTIONS_HINT,
    );
    match &files.api {
        Some(api) => {
            let table = MarkerSet::RestApi.table();
            apply_to_files(analysis, &table, &api.cli_inputs);
        },
        None => {},
    }
}

/// The analysis with the generation set.
pub open spec fn of_generation(a: AnalysisView, generation: AmplifyGeneration) -> AnalysisView {
    AnalysisView { generation, ..a }
}

/// The analysis after the categories of the first generation, in the
/// order api, auth, storage, function; each but api is recorded after
/// what it shows.
pub open spec fn with_categories_of(a: AnalysisView, files: ProjectFiles) -> AnalysisView {
    let api = match files.api {
        Some(api) => with_graphql_api(a, api),
        None => a,
    };
    let auth = match files.auth {
        Some(cli_inputs) => with_category(
            with_files(api, MarkerSet::Auth.spec_table(), cli_inputs@, cli_inputs@.len() as int),
            markers::AUTH@,
        ),
        None => api,
    };
    let storage = match files.storage {
        Some(storage) => with_category(with_storage(auth, storage), markers::STORAGE@),
        None => auth,
    };
    match files.functions {
        Some(dirs) => with_category(
            with_functions(storage, dirs@, dirs@.len() as int),
            markers::FUNCTION@,
        ),
        None => storage,
    }
}

/// The analysis of a project, given what the JSON parser makes of its
/// backend configuration. A project with a backend of the second
/// generation is of that generation and is not looked into. A directory
/// without an `amplify` folder is of unknown generation, with a warning.
/// Any other project is of the first generation: its categories, its
/// features and the summary follow.
pub open spec fn analysis_given(
    project_path: Seq<char>,
    files: ProjectFiles,
    parsed: Option<Option<Seq<Seq<char>>>>,
) -> Result<AnalysisView, MigrationError> {
    let fresh = fresh_analysis(project_path);
    if files.has_gen2_backend {
        Ok(of_generation(fresh, AmplifyGeneration::Gen2))
    } else if !files.has_amplify_dir {
        Ok(with_warning(fresh, markers::NO_AMPLIFY_FOLDER@))
    } else {
        let first = of_generation(fresh, AmplifyGeneration::Gen1);
        let configured = match files.backend_config {
            Some(_) => with_backend_config(first, parsed),
            None => Ok(first),
        };
        match configured {
            Ok(a) => Ok(summarized(with_deprecated_patterns(with_categories_of(a, files), files))),
            Err(error) => Err(error),
        }
    }
}

/// The analysis of a project.
pub open spec fn analysis_of(project_path: Seq<char>, files: ProjectFiles) -> Result<
    AnalysisView,
    MigrationError,
> {
    analysis_given(
        project_path,
        files,
        match files.backend_config {
            Some(content) => json_object_keys(content@),
            None => None,
        },
    )
}

/// Analyses a project for features of the first generation, from what was
/// read of its directory.
pub fn analyze_project(project_path: &str, files: &ProjectFiles) -> (result: Result<
    MigrationAnalysis,
    MigrationError,
>)
    ensures
        match result {
            Ok(analysis) => analysis_of(project_path@, *files) == Ok::<AnalysisView, MigrationError>(
                analysis@,
            ),
            Err(error) => analysis_of(project_path@, *files) == Err::<AnalysisView, MigrationError>(
                error,
            ),
        },
{
    let mut analysis = MigrationAnalysis::new(project_path);
    if files.has_gen2_backend {
        analysis.generation = AmplifyGeneration::Gen2;
        return Ok(analysis);
    }
    if !files.has_amplify_dir {
        analysis.warn(markers::NO_AMPLIFY_FOLDER);
        return Ok(analysis);
    }
    analysis.generation = AmplifyGeneration::Gen1;
    match &files.backend_config {
        Some(content) => {
            match analyze_backend_config(&mut analysis, content.as_str()) {
                Ok(()) => {},
                Err(error) => {
                    return Err(error);
                },
            }
        },
        None => {},
    }
    match &files.api {
        Some(api) => {
            analyze_graphql_api(&mut analysis, api);
        },
        None => {},
    }
    match &files.auth {
        Some(cli_inputs) => {
            analyze_auth(&mut analysis, cli_inputs);
            analysis.add_category(markers::AUTH);
        },
        None => {},
    }
    match &files.storage {
        Some(storage) => {
            analyze_storage(&mut analysis, storage);
            analysis.add_category(markers::STORAGE);
        },
        None => {},
    }
    match &files.functions {
        Some(dirs) => {
            analyze_functions(&mut analysis, dirs);
            analysis.add_category(markers::FUNCTION);
        },
        None => {},
    }
    check_deprecated_patterns(&mut analysis, files);
    analysis.compute_summary();
    Ok(analysis)
}

} // verus!
