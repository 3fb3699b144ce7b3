use amplify_monitor::amplify::{
    artifact_refs, first_failed_job, log_refs, with_variable, without_variable, AppSummary,
    BranchSummary, EnvVariable, JobStep, JobSummary, LogArtifactRef, StartJobResult, StopJobResult,
};
use amplify_monitor::config::{
    resolve_app_id, resolve_branch, Config, MissingSetting, CONFIG_FILE_NAME, SAMPLE_CONFIG,
    SCAN_REGIONS,
};
use amplify_monitor::logs::LogContent;
use amplify_monitor::output::{
    apps_to_text, are_maskable, branches_to_text, diagnose, effective_format, is_maskable,
    job_to_text, jobs_to_text, mask_value, started_to_text, stopped_to_text, variables_to_text,
    DeleteEnvResult, DiagnosisResult, LogsResult, OutputFormat, SetEnvResult,
};
use amplify_monitor::parser::Rule;

fn job(id: &str, status: &str, start: Option<&str>, end: Option<&str>) -> JobSummary {
    JobSummary {
        job_id: id.to_string(),
        status: status.to_string(),
        start_time: start.map(str::to_string),
        end_time: end.map(str::to_string),
    }
}

fn variable(name: &str, value: &str) -> EnvVariable {
    EnvVariable { name: name.to_string(), value: value.to_string() }
}

#[test]
fn format_names_are_read_whatever_their_case() {
    assert_eq!(OutputFormat::from_str("json"), Some(OutputFormat::Json));
    assert_eq!(OutputFormat::from_str("JSON"), Some(OutputFormat::Json));
    assert_eq!(OutputFormat::from_str("json-pretty"), Some(OutputFormat::JsonPretty));
    assert_eq!(OutputFormat::from_str("JsonPretty"), Some(OutputFormat::JsonPretty));
    assert_eq!(OutputFormat::from_str("Text"), Some(OutputFormat::Text));
    assert_eq!(OutputFormat::from_str("yaml"), None);
    assert_eq!(OutputFormat::from_str(""), None);
    assert_eq!(OutputFormat::from_str("json "), None);
    assert_eq!(OutputFormat::from_folded("text"), Some(OutputFormat::Text));
    assert_eq!(OutputFormat::from_folded("TEXT"), None);
}

#[test]
fn format_is_taken_from_the_command_line_first() {
    let mut config = Config::default();
    assert_eq!(effective_format(None, &config), OutputFormat::Json);
    assert_eq!(effective_format(Some(OutputFormat::Text), &config), OutputFormat::Text);
    config.default_format = Some("TEXT".to_string());
    assert_eq!(effective_format(None, &config), OutputFormat::Text);
    assert_eq!(effective_format(Some(OutputFormat::JsonPretty), &config), OutputFormat::JsonPretty);
    config.default_format = Some("unknown".to_string());
    assert_eq!(effective_format(None, &config), OutputFormat::Json);
}

#[test]
fn settings_are_resolved_from_command_line_then_config() {
    let mut config = Config::default();
    assert_eq!(config.default_app_id, None);
    assert_eq!(config.default_branch, None);
    assert_eq!(config.default_format, None);
    assert_eq!(config.aws_region, None);
    assert_eq!(resolve_app_id(None, &config), Err(MissingSetting::AppId));
    assert_eq!(resolve_branch(None, &config), Err(MissingSetting::Branch));
    assert_eq!(resolve_app_id(Some("cli".to_string()), &config), Ok("cli".to_string()));
    config.default_app_id = Some("conf".to_string());
    config.default_branch = Some("main".to_string());
    assert_eq!(resolve_app_id(None, &config), Ok("conf".to_string()));
    assert_eq!(resolve_app_id(Some("cli".to_string()), &config), Ok("cli".to_string()));
    assert_eq!(resolve_branch(None, &config), Ok("main".to_string()));
    assert_eq!(resolve_branch(Some("dev".to_string()), &config), Ok("dev".to_string()));
    assert_eq!(
        MissingSetting::AppId.message(),
        "No app ID specified. Use --app-id or set default_app_id in ~/.amplify-monitor.toml"
    );
    assert_eq!(
        MissingSetting::Branch.message(),
        "No branch specified. Use --branch or set default_branch in ~/.amplify-monitor.toml"
    );
    assert_eq!(CONFIG_FILE_NAME, ".amplify-monitor.toml");
    assert!(SAMPLE_CONFIG.starts_with("# amplify-monitor configuration\n"));
    assert!(SAMPLE_CONFIG.ends_with("# aws_region = \"us-east-1\"\n"));
    assert_eq!(SAMPLE_CONFIG.lines().count(), 14);
    assert_eq!(SCAN_REGIONS.len(), 13);
    assert_eq!(SCAN_REGIONS[0], "us-east-1");
}

#[test]
fn values_are_masked_after_four_bytes() {
    assert_eq!(mask_value("abcdefgh"), "abcd****");
    assert_eq!(mask_value("abcde"), "abcd****");
    assert_eq!(mask_value("abcd"), "****");
    assert_eq!(mask_value("abc"), "****");
    assert_eq!(mask_value(""), "****");
    assert_eq!(mask_value("\u{e9}\u{e9}\u{e9}"), "\u{e9}\u{e9}****");
    assert!(is_maskable("abcdefgh"));
    assert!(is_maskable(""));
    assert!(is_maskable("\u{e9}\u{e9}\u{e9}"));
    assert!(!is_maskable("a\u{e9}\u{e9}z"));
    assert!(!is_maskable("a\u{e9}\u{e9}"));
    assert!(is_maskable("a\u{e9}"));
    assert!(are_maskable(&vec![variable("A", "abcdef"), variable("B", "")]));
    assert!(!are_maskable(&vec![variable("A", "abcdef"), variable("B", "a\u{e9}\u{e9}z")]));
    assert!(are_maskable(&Vec::new()));
}

#[test]
fn apps_as_text() {
    assert_eq!(apps_to_text(&Vec::new()), "No apps found.");
    let apps = vec![
        AppSummary {
            app_id: "d1".to_string(),
            name: "site".to_string(),
            repository: Some("https://example.com/r".to_string()),
            default_domain: "d1.example.com".to_string(),
        },
        AppSummary {
            app_id: "d2".to_string(),
            name: "other".to_string(),
            repository: None,
            default_domain: "d2.example.com".to_string(),
        },
    ];
    let bar = "\u{2500}".repeat(60);
    assert_eq!(
        apps_to_text(&apps),
        format!(
            "AMPLIFY APPS\n{bar}\n\u{2022} site (d1)\n  Repository: https://example.com/r\n  Domain: d1.example.com\n\u{2022} other (d2)\n  Domain: d2.example.com\n"
        )
    );
}

#[test]
fn branches_as_text() {
    assert_eq!(branches_to_text(&Vec::new()), "No branches found.");
    let branches = vec![BranchSummary {
        branch_name: "main".to_string(),
        display_name: "Main".to_string(),
        stage: "PRODUCTION".to_string(),
    }];
    let bar = "\u{2500}".repeat(40);
    assert_eq!(
        branches_to_text(&branches),
        format!("BRANCHES\n{bar}\n\u{2022} main [PRODUCTION]\n")
    );
}

#[test]
fn jobs_as_text() {
    assert_eq!(jobs_to_text(&Vec::new()), "No jobs found.");
    let jobs = vec![
        job("4", "SUCCEED", Some("t4"), Some("e4")),
        job("3", "FAILED", None, None),
        job("2", "RUNNING", Some("t2"), None),
        job("1", "PENDING", None, None),
    ];
    let bar = "\u{2500}".repeat(60);
    assert_eq!(
        jobs_to_text(&jobs),
        format!(
            "JOBS\n{bar}\n\u{2713} 4 - SUCCEED\n  Started: t4\n\u{2717} 3 - FAILED\n\u{27f3} 2 - RUNNING\n  Started: t2\n\u{2022} 1 - PENDING\n"
        )
    );
    let bar = "\u{2500}".repeat(40);
    assert_eq!(
        job_to_text(&jobs[0]),
        format!("JOB DETAILS\n{bar}\nJob ID: 4\nStatus: SUCCEED\nStarted: t4\nEnded: e4\n")
    );
    assert_eq!(job_to_text(&jobs[1]), format!("JOB DETAILS\n{bar}\nJob ID: 3\nStatus: FAILED\n"));
}

#[test]
fn diagnosis_as_text() {
    let heavy = "\u{2550}".repeat(60);
    let light = "\u{2500}".repeat(60);
    let clean = DiagnosisResult {
        app_id: "d1".to_string(),
        branch: "main".to_string(),
        job_id: "7".to_string(),
        status: "FAILED".to_string(),
        issues: Vec::new(),
    };
    assert_eq!(
        clean.to_text(),
        format!(
            "DIAGNOSIS REPORT\n{heavy}\nApp: d1\nBranch: main\nJob: 7\nStatus: FAILED\n\nNo known failure patterns detected.\n"
        )
    );
    let found = DiagnosisResult {
        app_id: "d1".to_string(),
        branch: "main".to_string(),
        job_id: "7".to_string(),
        status: "FAILED".to_string(),
        issues: vec![Rule::PnpmInstallFailure.issue(), Rule::OutOfMemory.issue()],
    };
    assert_eq!(
        found.to_text(),
        format!(
            "DIAGNOSIS REPORT\n{heavy}\nApp: d1\nBranch: main\nJob: 7\nStatus: FAILED\n\nISSUES FOUND: 2\n{light}\n\n1. [pnpm_install_failure]\n   Cause: pnpm installation failed\n   Fixes:\n   \u{2192} Install pnpm in preBuild: 'npm install -g pnpm'\n   \u{2192} Run 'pnpm install' locally to update lock file\n   \u{2192} Check pnpm version compatibility\n\n2. [out_of_memory]\n   Cause: Build process ran out of memory\n   Fixes:\n   \u{2192} Add NODE_OPTIONS=--max_old_space_size=4096 to environment variables\n   \u{2192} Optimize build by reducing bundle size\n   \u{2192} Consider using a larger Amplify build instance\n"
        )
    );
}

#[test]
fn diagnose_combines_issues_with_what_is_known_of_the_job() {
    let logs = LogContent {
        build_log: "ENOMEM".to_string(),
        deploy_log: String::new(),
        raw_content: "=== BUILD ===\nBuild timed out\n\n".to_string(),
    };
    let result = diagnose(
        "d1".to_string(),
        "main".to_string(),
        "9".to_string(),
        "FAILED".to_string(),
        &logs,
        false,
    );
    assert_eq!(result.app_id, "d1");
    assert_eq!(result.branch, "main");
    assert_eq!(result.job_id, "9");
    assert_eq!(result.status, "FAILED");
    assert_eq!(result.raw_logs, None);
    let tags: Vec<&str> = result.issues.iter().map(|i| i.pattern.as_str()).collect();
    assert_eq!(tags, vec!["timeout"]);
    let heavy = "\u{2550}".repeat(60);
    let light = "\u{2500}".repeat(60);
    let head = format!(
        "DIAGNOSIS REPORT\n{heavy}\nApp: d1\nBranch: main\nJob: 9\nStatus: FAILED\n\nISSUES FOUND: 1\n{light}\n\n1. [timeout]\n   Cause: Build exceeded time limit\n   Fixes:\n   \u{2192} Increase build timeout in Amplify console\n   \u{2192} Optimize build steps to run faster\n   \u{2192} Check for hanging processes or infinite loops\n   \u{2192} Consider caching node_modules\n"
    );
    assert_eq!(result.to_text(), head);
    let result = diagnose(
        "d1".to_string(),
        "main".to_string(),
        "9".to_string(),
        "FAILED".to_string(),
        &logs,
        true,
    );
    assert_eq!(result.raw_logs.as_deref(), Some("=== BUILD ===\nBuild timed out\n\n"));
    assert_eq!(
        result.to_text(),
        format!("{head}\n{light}\nRAW LOGS:\n{light}\n=== BUILD ===\nBuild timed out\n\n")
    );
}

#[test]
fn logs_as_text() {
    let result = LogsResult {
        app_id: "d1".to_string(),
        branch: "main".to_string(),
        job_id: "3".to_string(),
        logs: "line\n".to_string(),
    };
    let heavy = "\u{2550}".repeat(60);
    assert_eq!(
        result.to_text(),
        format!("BUILD LOGS - Job 3\nApp: d1 | Branch: main\n{heavy}\nline\n")
    );
}

#[test]
fn variables_as_text() {
    assert_eq!(variables_to_text(&Vec::new()), "No environment variables found.");
    let bar = "\u{2500}".repeat(60);
    assert_eq!(
        variables_to_text(&vec![variable("API_KEY", "secret-value"), variable("X", "1")]),
        format!("ENVIRONMENT VARIABLES\n{bar}\n\u{2022} API_KEY = secr****\n\u{2022} X = ****\n")
    );
}

#[test]
fn changes_as_text() {
    let set = SetEnvResult {
        app_id: "d1".to_string(),
        branch: "main".to_string(),
        name: "KEY".to_string(),
        success: true,
    };
    assert_eq!(set.to_text(), "\u{2713} Set KEY on d1/main\n");
    let deleted = DeleteEnvResult {
        app_id: "d1".to_string(),
        branch: "main".to_string(),
        name: "KEY".to_string(),
        success: true,
    };
    assert_eq!(deleted.to_text(), "\u{2713} Deleted KEY from d1/main\n");
    let started = StartJobResult { job_id: "12".to_string(), status: "PENDING".to_string() };
    assert_eq!(started_to_text(&started), "\u{2713} Started build job 12\n  Status: PENDING\n");
    let stopped = StopJobResult { job_id: "12".to_string(), status: "CANCELLED".to_string() };
    assert_eq!(stopped_to_text(&stopped), "\u{2713} Stopped build job 12\n  Status: CANCELLED\n");
}

#[test]
fn first_failed_job_is_the_first_in_the_list() {
    assert!(first_failed_job(&Vec::new()).is_none());
    let jobs = vec![job("3", "SUCCEED", None, None), job("2", "failed", None, None)];
    assert!(first_failed_job(&jobs).is_none());
    let jobs = vec![
        job("4", "RUNNING", None, None),
        job("3", "FAILED", None, None),
        job("2", "FAILED", None, None),
    ];
    assert_eq!(first_failed_job(&jobs).unwrap().job_id, "3");
}

#[test]
fn steps_without_a_log_are_left_out() {
    let steps = vec![
        JobStep { step_name: "BUILD".to_string(), log_url: Some("u1".to_string()), artifacts_url: None },
        JobStep { step_name: "DEPLOY".to_string(), log_url: None, artifacts_url: Some("a2".to_string()) },
        JobStep {
            step_name: "VERIFY".to_string(),
            log_url: Some("u3".to_string()),
            artifacts_url: Some("a3".to_string()),
        },
    ];
    assert_eq!(
        log_refs(&steps),
        vec![
            LogArtifactRef { step_name: "BUILD".to_string(), location: "u1".to_string() },
            LogArtifactRef { step_name: "VERIFY".to_string(), location: "u3".to_string() },
        ]
    );
    assert_eq!(
        artifact_refs(&steps),
        vec![
            LogArtifactRef { step_name: "DEPLOY".to_string(), location: "a2".to_string() },
            LogArtifactRef { step_name: "VERIFY".to_string(), location: "a3".to_string() },
        ]
    );
    assert!(log_refs(&Vec::new()).is_empty());
}

#[test]
fn variables_are_set_and_removed_by_name() {
    let existing = vec![variable("A", "1"), variable("B", "2"), variable("C", "3")];
    assert_eq!(without_variable(&existing, "B"), vec![variable("A", "1"), variable("C", "3")]);
    assert_eq!(without_variable(&existing, "b"), existing);
    assert_eq!(
        with_variable(&existing, "B", "9"),
        vec![variable("A", "1"), variable("C", "3"), variable("B", "9")]
    );
    assert_eq!(
        with_variable(&existing, "D", "4"),
        vec![variable("A", "1"), variable("B", "2"), variable("C", "3"), variable("D", "4")]
    );
    assert_eq!(with_variable(&Vec::new(), "A", ""), vec![variable("A", "")]);
}
