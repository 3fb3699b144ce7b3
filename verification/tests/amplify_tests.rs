use amplify_monitor::amplify::{first_failed_job, JobSummary};

#[test]
fn test_mock_job_list_with_failed() {
    let jobs = vec![
        JobSummary {
            job_id: "1".to_string(),
            status: "SUCCEED".to_string(),
            start_time: Some("2026-01-27T10:00:00Z".to_string()),
            end_time: Some("2026-01-27T10:05:00Z".to_string()),
        },
        JobSummary {
            job_id: "2".to_string(),
            status: "FAILED".to_string(),
            start_time: Some("2026-01-27T11:00:00Z".to_string()),
            end_time: Some("2026-01-27T11:03:00Z".to_string()),
        },
    ];

    let failed = first_failed_job(&jobs);
    assert!(failed.is_some());
    assert_eq!(failed.unwrap().job_id, "2");
}
