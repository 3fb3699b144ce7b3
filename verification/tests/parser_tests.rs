use amplify_monitor::logs::LogContent;
use amplify_monitor::parser::{analyze_logs, check_npm_ci_failure, check_out_of_memory};

fn make_logs(content: &str) -> LogContent {
    LogContent {
        build_log: content.to_string(),
        deploy_log: String::new(),
        raw_content: content.to_string(),
    }
}

#[test]
fn test_detect_npm_ci_failure() {
    let content = "npm ERR! `npm ci` can only install packages with an existing package-lock.json";
    let issue = check_npm_ci_failure(content);
    assert!(issue.is_some());
    assert_eq!(issue.unwrap().pattern, "npm_ci_failure");
}

#[test]
fn test_detect_out_of_memory() {
    let content = "FATAL ERROR: JavaScript heap out of memory";
    let issue = check_out_of_memory(content);
    assert!(issue.is_some());
    assert_eq!(issue.unwrap().pattern, "out_of_memory");
}

#[test]
fn test_no_false_positive() {
    let content = "Build completed successfully";
    let logs = LogContent {
        build_log: content.to_string(),
        deploy_log: String::new(),
        raw_content: content.to_string(),
    };
    let issues = analyze_logs(&logs);
    assert!(issues.is_empty());
}

#[test]
fn test_detects_npm_ci_failure() {
    let logs = make_logs(
        r#"
            Installing dependencies...
            npm ERR! `npm ci` can only install packages with an existing package-lock.json
            npm ERR! code EUSAGE
            Build failed
            "#,
    );

    let issues = analyze_logs(&logs);
    assert!(!issues.is_empty());
    assert!(issues.iter().any(|i| i.pattern == "npm_ci_failure"));
}

#[test]
fn test_detects_out_of_memory() {
    let logs = make_logs(
        r#"
            Building application...
            FATAL ERROR: JavaScript heap out of memory
            Build terminated
            "#,
    );

    let issues = analyze_logs(&logs);
    assert!(issues.iter().any(|i| i.pattern == "out_of_memory"));
}

#[test]
fn test_detects_node_version_mismatch() {
    let logs = make_logs(
        r#"
            Checking Node version...
            error The engine "node" is incompatible with this module.
            Expected version ">=18.0.0".
            "#,
    );

    let issues = analyze_logs(&logs);
    assert!(issues.iter().any(|i| i.pattern == "node_version_mismatch"));
}

#[test]
fn test_detects_typescript_error() {
    let logs = make_logs(
        r#"
            Compiling TypeScript...
            src/App.tsx(15,10): error TS2339: Property 'foo' does not exist on type 'Bar'.
            Build failed with 1 error
            "#,
    );

    let issues = analyze_logs(&logs);
    assert!(issues.iter().any(|i| i.pattern == "typescript_error"));
}

#[test]
fn test_detects_module_not_found() {
    let logs = make_logs(
        r#"
            Building...
            Module not found: Error: Can't resolve '@acme/shared' in '/app/src'
            webpack compilation failed
            "#,
    );

    let issues = analyze_logs(&logs);
    assert!(issues.iter().any(|i| i.pattern == "module_not_found"));
}

#[test]
fn test_detects_nextjs_error() {
    let logs = make_logs(
        r#"
            > next build
            Error occurred prerendering page "/dashboard".
            Error: Cannot read properties of undefined
            "#,
    );

    let issues = analyze_logs(&logs);
    assert!(issues.iter().any(|i| i.pattern == "nextjs_error"));
}

#[test]
fn test_detects_vite_error() {
    let logs = make_logs(
        r#"
            > vite build
            error during build:
            RollupError: Could not resolve "./missing-module"
            "#,
    );

    let issues = analyze_logs(&logs);
    assert!(issues.iter().any(|i| i.pattern == "vite_error"));
}

#[test]
fn test_detects_timeout() {
    let logs = make_logs(
        r#"
            Running build...
            Build timed out after 30 minutes
            "#,
    );

    let issues = analyze_logs(&logs);
    assert!(issues.iter().any(|i| i.pattern == "timeout"));
}

#[test]
fn test_detects_permission_denied() {
    let logs = make_logs(
        r#"
            Writing output...
            EACCES: permission denied, mkdir '/opt/build'
            "#,
    );

    let issues = analyze_logs(&logs);
    assert!(issues.iter().any(|i| i.pattern == "permission_denied"));
}

#[test]
fn test_detects_network_error() {
    let logs = make_logs(
        r#"
            Fetching packages...
            npm ERR! network request to https://registry.npmjs.org failed
            npm ERR! ENOTFOUND registry.npmjs.org
            "#,
    );

    let issues = analyze_logs(&logs);
    assert!(issues.iter().any(|i| i.pattern == "network_error"));
}

#[test]
fn test_detects_pnpm_failure() {
    let logs = make_logs(
        r#"
            Installing with pnpm...
            ERR_PNPM_LOCKFILE_BREAKING_CHANGE  Lockfile is not compatible
            "#,
    );

    let issues = analyze_logs(&logs);
    assert!(issues.iter().any(|i| i.pattern == "pnpm_install_failure"));
}

#[test]
fn test_detects_multiple_issues() {
    let logs = make_logs(
        r#"
            Starting build...
            npm ERR! `npm ci` can only install packages
            error TS2339: Property 'x' does not exist
            FATAL ERROR: JavaScript heap out of memory
            "#,
    );

    let issues = analyze_logs(&logs);
    assert!(issues.len() >= 3);
}

#[test]
fn test_no_false_positives_on_success() {
    let logs = make_logs(
        r#"
            Installing dependencies...
            npm install completed successfully
            Building application...
            Build completed successfully
            Deploying...
            Deployment completed successfully
            "#,
    );

    let issues = analyze_logs(&logs);
    let critical_patterns = ["npm_ci_failure", "out_of_memory", "typescript_error", "timeout"];
    for pattern in critical_patterns {
        assert!(
            !issues.iter().any(|i| i.pattern == pattern),
            "False positive detected: {}",
            pattern
        );
    }
}
