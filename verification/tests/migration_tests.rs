use amplify_monitor::migration::{CompatibilityStatus, DetectedFeature, MigrationAnalysis};

#[test]
fn test_migration_summary() {
    let mut analysis = MigrationAnalysis::new("/test/path");
    analysis.features.push(DetectedFeature {
        category: "auth".to_string(),
        feature: "Test".to_string(),
        file_path: None,
        line_number: None,
        compatibility: CompatibilityStatus::Supported,
        migration_hint: "Test hint".to_string(),
    });
    analysis.compute_summary();
    assert_eq!(analysis.summary.total_features, 1);
    assert_eq!(analysis.summary.fully_supported, 1);
}
