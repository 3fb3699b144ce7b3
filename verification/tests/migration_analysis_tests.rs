use amplify_monitor::migration::{
    add_new_categories, analyze_backend_config, analyze_graphql_schema, analyze_project,
    apply_markers, count_features, holds_text, status_of, AmplifyGeneration, ApiDir,
    CompatibilityStatus, DetectedFeature, FunctionDir, MarkerSet, MigrationAnalysis,
    MigrationError, MigrationSummary, ProjectFiles, SourceFile, StorageDir, Support,
};
use amplify_monitor::migration_report::{
    category_section, feature_block, feature_categories, generate_report,
};

fn file(path: &str, content: &str) -> SourceFile {
    SourceFile { path: path.to_string(), content: content.to_string() }
}

fn bare() -> ProjectFiles {
    ProjectFiles {
        has_gen2_backend: false,
        has_amplify_dir: true,
        backend_config: None,
        api: None,
        auth: None,
        storage: None,
        functions: None,
        geo: None,
        analytics: None,
        interactions: None,
    }
}

fn feature(category: &str, name: &str, compatibility: CompatibilityStatus) -> DetectedFeature {
    DetectedFeature {
        category: category.to_string(),
        feature: name.to_string(),
        file_path: None,
        line_number: None,
        compatibility,
        migration_hint: "hint".to_string(),
    }
}

#[test]
fn new_analysis_is_empty_and_ready() {
    let analysis = MigrationAnalysis::new("/p");
    assert_eq!(analysis.generation, AmplifyGeneration::Unknown);
    assert_eq!(analysis.project_path, "/p");
    assert!(analysis.categories_detected.is_empty());
    assert!(analysis.features.is_empty());
    assert!(analysis.ready_for_migration);
    assert!(analysis.blocking_issues.is_empty());
    assert!(analysis.warnings.is_empty());
    assert_eq!(
        analysis.summary,
        MigrationSummary {
            total_features: 0,
            fully_supported: 0,
            supported_with_cdk: 0,
            not_supported: 0,
            manual_migration: 0
        }
    );
}

#[test]
fn summary_counts_by_kind() {
    let mut analysis = MigrationAnalysis::new("/p");
    analysis.features.push(feature("a", "1", CompatibilityStatus::Supported));
    analysis.features.push(feature("a", "2", CompatibilityStatus::SupportedWithCdk));
    analysis.features.push(feature("b", "3", CompatibilityStatus::Supported));
    analysis.features.push(feature(
        "b",
        "4",
        CompatibilityStatus::ManualMigration { reason: "r".to_string() },
    ));
    analysis.compute_summary();
    assert_eq!(
        analysis.summary,
        MigrationSummary {
            total_features: 4,
            fully_supported: 2,
            supported_with_cdk: 1,
            not_supported: 0,
            manual_migration: 1
        }
    );
    assert!(analysis.ready_for_migration);
    analysis.features.push(feature(
        "b",
        "5",
        CompatibilityStatus::NotSupported { alternative: "x".to_string() },
    ));
    analysis.compute_summary();
    assert_eq!(analysis.summary.not_supported, 1);
    assert_eq!(analysis.summary.total_features, 5);
    assert!(!analysis.ready_for_migration);
    assert_eq!(count_features(&analysis.features, Support::Full), 2);
    assert_eq!(count_features(&analysis.features, Support::Absent), 1);
}

#[test]
fn blocking_issue_keeps_a_project_from_being_ready() {
    let mut analysis = MigrationAnalysis::new("/p");
    analysis.block("stop");
    analysis.compute_summary();
    assert!(!analysis.ready_for_migration);
    assert_eq!(analysis.blocking_issues, vec!["stop"]);
}

#[test]
fn project_of_the_second_generation_is_not_looked_into() {
    let mut files = bare();
    files.has_gen2_backend = true;
    files.backend_config = Some("not json".to_string());
    files.geo = Some("/p/amplify/backend/geo".to_string());
    let analysis = analyze_project("/p", &files).unwrap();
    assert_eq!(analysis.generation, AmplifyGeneration::Gen2);
    assert!(analysis.features.is_empty());
    assert!(analysis.categories_detected.is_empty());
    assert!(analysis.warnings.is_empty());
    assert!(analysis.ready_for_migration);
}

#[test]
fn directory_without_amplify_folder_gets_a_warning() {
    let mut files = bare();
    files.has_amplify_dir = false;
    let analysis = analyze_project("/p", &files).unwrap();
    assert_eq!(analysis.generation, AmplifyGeneration::Unknown);
    assert_eq!(
        analysis.warnings,
        vec!["No amplify/ folder found. This may not be an Amplify project."]
    );
    assert!(analysis.features.is_empty());
}

#[test]
fn bare_project_of_the_first_generation() {
    let analysis = analyze_project("/p", &bare()).unwrap();
    assert_eq!(analysis.generation, AmplifyGeneration::Gen1);
    assert!(analysis.features.is_empty());
    assert!(analysis.ready_for_migration);
    assert_eq!(analysis.summary.total_features, 0);
}

#[test]
fn backend_config_gives_the_categories() {
    let mut files = bare();
    files.backend_config = Some("{\"auth\": {}, \"api\": {\"x\": 1}}".to_string());
    let analysis = analyze_project("/p", &files).unwrap();
    let mut categories = analysis.categories_detected.clone();
    categories.sort();
    assert_eq!(categories, vec!["api", "auth"]);
    files.backend_config = Some("[1, 2]".to_string());
    assert!(analyze_project("/p", &files).unwrap().categories_detected.is_empty());
    files.backend_config = Some("{ not json".to_string());
    assert_eq!(analyze_project("/p", &files).unwrap_err(), MigrationError::InvalidBackendConfig);
}

#[test]
fn backend_config_does_not_repeat_a_category() {
    let mut analysis = MigrationAnalysis::new("/p");
    analysis.add_category("auth");
    assert_eq!(analyze_backend_config(&mut analysis, "{\"auth\": 1, \"geo\": 2}"), Ok(()));
    assert_eq!(analysis.categories_detected, vec!["auth", "geo"]);
    assert_eq!(
        analyze_backend_config(&mut analysis, "nope"),
        Err(MigrationError::InvalidBackendConfig)
    );
    assert_eq!(analysis.categories_detected, vec!["auth", "geo"]);
    add_new_categories(&mut analysis, &vec!["geo".to_string(), "x".to_string(), "x".to_string()]);
    assert_eq!(analysis.categories_detected, vec!["auth", "geo", "x"]);
    assert!(holds_text(&analysis.categories_detected, "geo"));
    assert!(!holds_text(&analysis.categories_detected, "ge"));
}

#[test]
fn schema_directives_are_reported_with_their_lines() {
    let schema = file(
        "/p/amplify/backend/api/main/schema.graphql",
        "type Post\n  @model\n  @searchable\n  @auth(rules: [])\n{\n  tags: [Tag] @manyToMany(relationName: \"x\")\n  _version: Int\n}\n",
    );
    let mut analysis = MigrationAnalysis::new("/p");
    analyze_graphql_schema(&mut analysis, &schema);
    let names: Vec<&str> = analysis.features.iter().map(|f| f.feature.as_str()).collect();
    assert_eq!(
        names,
        vec![
            "@searchable directive",
            "@model directive",
            "@manyToMany directive",
            "DataStore / Conflict Resolution",
            "@auth directive",
        ]
    );
    let lines: Vec<Option<usize>> = analysis.features.iter().map(|f| f.line_number).collect();
    assert_eq!(lines, vec![Some(3), Some(2), Some(6), None, Some(4)]);
    assert_eq!(
        analysis.features[0].compatibility,
        CompatibilityStatus::NotSupported {
            alternative: "Use Zero-ETL DynamoDB-to-OpenSearch integration".to_string()
        }
    );
    assert_eq!(analysis.features[1].compatibility, CompatibilityStatus::Supported);
    assert_eq!(
        analysis.features[2].compatibility,
        CompatibilityStatus::ManualMigration {
            reason: "Implement with intermediate join table".to_string()
        }
    );
    assert_eq!(
        analysis.features[1].migration_hint,
        "Models are fully supported in Gen2. Use defineData() with a.model() in your schema."
    );
    for f in &analysis.features {
        assert_eq!(f.category, "api");
        assert_eq!(f.file_path.as_deref(), Some("/p/amplify/backend/api/main/schema.graphql"));
    }
    assert_eq!(
        analysis.blocking_issues,
        vec![
            "@searchable directive is not supported in Gen2",
            "DataStore is not supported in Gen2"
        ]
    );
    assert_eq!(analysis.warnings, vec!["@manyToMany requires manual migration with join table"]);
}

#[test]
fn markers_that_do_not_occur_report_nothing() {
    let mut analysis = MigrationAnalysis::new("/p");
    apply_markers(&mut analysis, &MarkerSet::Schema.table(), "f", "type A { id: ID }");
    apply_markers(&mut analysis, &MarkerSet::Auth.table(), "f", "{}");
    apply_markers(&mut analysis, &MarkerSet::RestApi.table(), "f", "\"GraphQL\"");
    assert!(analysis.features.is_empty());
    assert!(analysis.blocking_issues.is_empty());
    assert!(analysis.warnings.is_empty());
}

#[test]
fn marker_tables_have_columns_of_one_length() {
    for set in [
        MarkerSet::Schema,
        MarkerSet::Auth,
        MarkerSet::StorageTrigger,
        MarkerSet::Transformers,
        MarkerSet::RestApi,
    ] {
        let table = set.table();
        let rows = table.needles.len();
        assert!(rows > 0);
        assert_eq!(table.features.len(), rows);
        assert_eq!(table.located.len(), rows);
        assert_eq!(table.support.len(), rows);
        assert_eq!(table.details.len(), rows);
        assert_eq!(table.hints.len(), rows);
        assert_eq!(table.blocking.len(), rows);
        assert_eq!(table.warnings.len(), rows);
    }
}

#[test]
fn whole_project_is_analysed_in_order() {
    let files = ProjectFiles {
        has_gen2_backend: false,
        has_amplify_dir: true,
        backend_config: Some("{\"hosting\": {}}".to_string()),
        api: Some(ApiDir {
            schemas: vec![file("/p/api/a/schema.graphql", "type T @model { id: ID }")],
            cli_inputs: vec![file("/p/api/r/cli-inputs.json", "{\"apiType\": \"REST\"}")],
            transform_conf: Some(file("/p/api/transform.conf.json", "{\"transformers\": []}")),
        }),
        auth: Some(vec![file(
            "/p/auth/x/cli-inputs.json",
            "{\"mfaConfiguration\": \"OFF\", \"adminQueries\": true, \"triggers\": {}}",
        )]),
        storage: Some(StorageDir {
            path: "/p/storage".to_string(),
            cli_inputs: vec![file("/p/storage/s/cli-inputs.json", "{\"triggerFunction\": \"f\"}")],
        }),
        functions: Some(vec![
            FunctionDir {
                name: "resize".to_string(),
                path: "/p/function/resize".to_string(),
                parameters: Some(file(
                    "/p/function/resize/function-parameters.json",
                    "{\"lambdaLayers\": [], \"runtime\": \"python\"}",
                )),
            },
            FunctionDir {
                name: "plain".to_string(),
                path: "/p/function/plain".to_string(),
                parameters: Some(file("/p/function/plain/function-parameters.json", "{}")),
            },
            FunctionDir {
                name: "gopher".to_string(),
                path: "/p/function/gopher".to_string(),
                parameters: Some(file(
                    "/p/function/gopher/function-parameters.json",
                    "{\"runtime\": \"go\"}",
                )),
            },
            FunctionDir {
                name: "bare".to_string(),
                path: "/p/function/bare".to_string(),
                parameters: None,
            },
        ]),
        geo: Some("/p/geo".to_string()),
        analytics: None,
        interactions: Some("/p/interactions".to_string()),
    };
    let analysis = analyze_project("/p", &files).unwrap();
    assert_eq!(analysis.generation, AmplifyGeneration::Gen1);
    assert_eq!(
        analysis.categories_detected,
        vec!["hosting", "api", "auth", "storage", "function", "geo", "interactions"]
    );
    let found: Vec<(&str, &str, Option<&str>)> = analysis
        .features
        .iter()
        .map(|f| (f.category.as_str(), f.feature.as_str(), f.file_path.as_deref()))
        .collect();
    assert_eq!(
        found,
        vec![
            ("api", "@model directive", Some("/p/api/a/schema.graphql")),
            ("auth", "Admin Queries", Some("/p/auth/x/cli-inputs.json")),
            ("auth", "MFA Configuration", Some("/p/auth/x/cli-inputs.json")),
            ("auth", "Auth Triggers", Some("/p/auth/x/cli-inputs.json")),
            ("storage", "S3 Storage", Some("/p/storage")),
            ("storage", "S3 Lambda Trigger", Some("/p/storage/s/cli-inputs.json")),
            (
                "function",
                "Lambda Layers (resize)",
                Some("/p/function/resize/function-parameters.json")
            ),
            (
                "function",
                "Python Runtime (resize)",
                Some("/p/function/resize/function-parameters.json")
            ),
            ("function", "Node.js Function (plain)", Some("/p/function/plain")),
            (
                "function",
                "Non-Node Runtime (gopher)",
                Some("/p/function/gopher/function-parameters.json")
            ),
            ("api", "Custom GraphQL Transformers", Some("/p/api/transform.conf.json")),
            ("geo", "Location Services (Geo)", Some("/p/geo")),
            ("interactions", "Interactions (Lex Bots)", Some("/p/interactions")),
            ("api", "REST API", Some("/p/api/r/cli-inputs.json")),
        ]
    );
    assert_eq!(analysis.features[0].line_number, Some(1));
    assert_eq!(analysis.warnings, vec!["Lambda layers in function 'resize' need alternative approach"]);
    assert_eq!(analysis.blocking_issues, vec!["Custom GraphQL transformers not supported"]);
    assert_eq!(
        analysis.summary,
        MigrationSummary {
            total_features: 14,
            fully_supported: 6,
            supported_with_cdk: 6,
            not_supported: 2,
            manual_migration: 0
        }
    );
    assert!(!analysis.ready_for_migration);
}

#[test]
fn status_of_builds_each_kind() {
    assert_eq!(status_of(Support::Full, "x"), CompatibilityStatus::Supported);
    assert_eq!(status_of(Support::WithCdk, "x"), CompatibilityStatus::SupportedWithCdk);
    assert_eq!(
        status_of(Support::Absent, "x"),
        CompatibilityStatus::NotSupported { alternative: "x".to_string() }
    );
    assert_eq!(
        status_of(Support::Manual, "x"),
        CompatibilityStatus::ManualMigration { reason: "x".to_string() }
    );
}

#[test]
fn report_on_a_project_of_the_second_generation() {
    let mut analysis = MigrationAnalysis::new("/work/app");
    analysis.generation = AmplifyGeneration::Gen2;
    assert_eq!(
        generate_report(&analysis),
        "# Amplify Gen1 \u{201a}\u{dc}\u{ed} Gen2 Migration Analysis\n\n**Project:** /work/app\n**Detected Generation:** Gen2\n\n\u{201a}\u{fa}\u{d6} This project is already using Amplify Gen2!\n"
    );
}

#[test]
fn report_on_a_directory_of_unknown_generation() {
    let analysis = MigrationAnalysis::new(".");
    assert_eq!(
        generate_report(&analysis),
        "# Amplify Gen1 \u{201a}\u{dc}\u{ed} Gen2 Migration Analysis\n\n**Project:** .\n**Detected Generation:** Unknown\n\n\u{201a}\u{f6}\u{2020}\u{d4}\u{220f}\u{e8} Could not detect an Amplify project in this directory.\n"
    );
}

#[test]
fn report_on_a_project_of_the_first_generation() {
    let mut analysis = MigrationAnalysis::new("/p");
    analysis.generation = AmplifyGeneration::Gen1;
    analysis.add_category("api");
    analysis.add_category("auth");
    analysis.record(DetectedFeature {
        category: "api".to_string(),
        feature: "@searchable directive".to_string(),
        file_path: Some("s.graphql".to_string()),
        line_number: Some(12),
        compatibility: CompatibilityStatus::NotSupported { alternative: "other".to_string() },
        migration_hint: "h1".to_string(),
    });
    analysis.record(DetectedFeature {
        category: "auth".to_string(),
        feature: "MFA Configuration".to_string(),
        file_path: Some("c.json".to_string()),
        line_number: None,
        compatibility: CompatibilityStatus::Supported,
        migration_hint: "h2".to_string(),
    });
    analysis.record(DetectedFeature {
        category: "api".to_string(),
        feature: "REST API".to_string(),
        file_path: None,
        line_number: Some(3),
        compatibility: CompatibilityStatus::SupportedWithCdk,
        migration_hint: "h3".to_string(),
    });
    analysis.block("blocked here");
    analysis.warn("take care");
    analysis.compute_summary();
    let ok = "\u{201a}\u{fa}\u{d6}";
    let cdk = "\u{f8ff}\u{fc}\u{ee}\u{df}";
    let no = "\u{201a}\u{f9}\u{e5}";
    let manual = "\u{201a}\u{f6}\u{2020}\u{d4}\u{220f}\u{e8}";
    let expected = format!(
        "# Amplify Gen1 \u{201a}\u{dc}\u{ed} Gen2 Migration Analysis\n\n**Project:** /p\n**Detected Generation:** Gen1\n\n## Summary\n\n| Metric | Count |\n|--------|-------|\n| Total Features | 3 |\n| {ok} Fully Supported | 1 |\n| {cdk} Supported with CDK | 1 |\n| {no} Not Supported | 1 |\n| {manual} Manual Migration | 0 |\n\n### {no} Blocking Issues\n\nThe following issues must be resolved before migration:\n\n- blocked here\n\n### {manual} Warnings\n\n- take care\n\n## Detected Categories\n\n- api\n- auth\n\n## Feature Analysis\n\n### API\n\n#### {no} @searchable directive\n\n**Location:** s.graphql:12\n\n**Status:** Not supported\n\n**Alternative:** other\n\n**Migration Hint:** h1\n\n---\n\n#### {cdk} REST API\n\n**Status:** Supported with CDK customization\n\n**Migration Hint:** h3\n\n---\n\n### AUTH\n\n#### {ok} MFA Configuration\n\n**Location:** c.json\n\n**Status:** Fully supported in Gen2\n\n**Migration Hint:** h2\n\n---\n\n## Next Steps\n\n1. Review the blocking issues above (if any)\n2. For features requiring CDK, prepare your CDK customization strategy\n3. Create a new Gen2 project: `npm create amplify@latest`\n4. Migrate features one category at a time\n5. Test thoroughly in sandbox environment before deploying\n\n**Documentation:** https://docs.amplify.aws/react/start/migrate-to-gen2/\n"
    );
    assert_eq!(generate_report(&analysis), expected);
}

#[test]
fn report_says_when_a_project_is_ready() {
    let mut analysis = MigrationAnalysis::new("/p");
    analysis.generation = AmplifyGeneration::Gen1;
    analysis.compute_summary();
    let report = generate_report(&analysis);
    assert!(report.contains(
        "### \u{201a}\u{fa}\u{d6} Ready for Migration\n\nYour project can be migrated to Gen2. Some features may require CDK customization.\n\n## Detected Categories\n\n\n## Feature Analysis\n\n## Next Steps\n\n"
    ));
    assert!(!report.contains("Warnings"));
    assert!(!report.contains("Blocking"));
}

#[test]
fn report_groups_features_by_category_in_order_of_appearance() {
    let features = vec![
        feature("b", "1", CompatibilityStatus::Supported),
        feature("a", "2", CompatibilityStatus::Supported),
        feature("b", "3", CompatibilityStatus::Supported),
    ];
    assert_eq!(feature_categories(&features), vec!["b", "a"]);
    assert!(feature_categories(&Vec::new()).is_empty());
    let section = category_section(&features, "b", "Heading");
    assert!(section.starts_with("### Heading\n\n#### "));
    assert_eq!(section.matches("#### ").count(), 2);
    assert!(section.find(" 1\n").unwrap() < section.find(" 3\n").unwrap());
    assert_eq!(category_section(&features, "c", "C"), "### C\n\n");
}

#[test]
fn feature_block_for_manual_migration() {
    let block = feature_block(&feature(
        "api",
        "@manyToMany directive",
        CompatibilityStatus::ManualMigration { reason: "why".to_string() },
    ));
    assert_eq!(
        block,
        "#### \u{201a}\u{f6}\u{2020}\u{d4}\u{220f}\u{e8} @manyToMany directive\n\n**Status:** Requires manual migration\n\n**Reason:** why\n\n**Migration Hint:** hint\n\n---\n\n"
    );
}
