//! What is shown to the user: the output formats, the result records, and
//! their rendering as plain text.

use crate::amplify::{
    AppSummary, BranchSummary, EnvVariable, JobSummary, StartJobResult, StopJobResult, FAILED,
};
use crate::config::Config;
use crate::logs::LogContent;
use crate::parser::{analyze_logs, diagnosis, issue_views, Issue};
use crate::text::{decimal, decimal_of, lowercase, lowercase_of, repeat, repeated, same_text};
use vstd::prelude::*;
use vstd::string::{StringExecFns, StringSliceAdditionalSpecFns};
use vstd::utf8::{decode_utf8, encode_utf8, encode_utf8_decode_utf8, is_char_boundary};

verus! {

/// How results are written out.
#[derive(Clone, Copy, Debug, PartialEq, Eq)]
pub enum OutputFormat {
    /// JSON on one line.
    Json,
    /// JSON with indentation.
    JsonPretty,
    /// Plain text.
    Text,
}

/// The format that a name in lower case stands for.
pub open spec fn format_named(folded: Seq<char>) -> Option<OutputFormat> {
    if folded == "json"@ {
        Some(OutputFormat::Json)
    } else if folded == "json-pretty"@ || folded == "jsonpretty"@ {
        Some(OutputFormat::JsonPretty)
    } else if folded == "text"@ {
        Some(OutputFormat::Text)
    } else {
        None
    }
}

impl OutputFormat {
    /// The format that a name in lower case stands for.
    pub fn from_folded(folded: &str) -> (format: Option<OutputFormat>)
        ensures
            format == format_named(folded@),
    {
        if same_text(folded, "json") {
            Some(OutputFormat::Json)
        } else if same_text(folded, "json-pretty") || same_text(folded, "jsonpretty") {
            Some(OutputFormat::JsonPretty)
        } else if same_text(folded, "text") {
            Some(OutputFormat::Text)
        } else {
            None
        }
    }

    /// The format that a name stands for, whatever its case.
    pub fn from_str(name: &str) -> (format: Option<OutputFormat>)
        ensures
            format == format_named(lowercase_of(name@)),
    {
        let folded = lowercase(name);
        OutputFormat::from_folded(folded.as_str())
    }
}

/// The format to use: the one given on the command line, else the
/// configured one where its name is known, else JSON.
pub open spec fn format_chosen(cli: Option<OutputFormat>, configured: Option<String>)
    -> OutputFormat {
    match cli {
        Some(format) => format,
        None => match configured {
            Some(name) => match format_named(lowercase_of(name@)) {
                Some(format) => format,
                None => OutputFormat::Json,
            },
            None => OutputFormat::Json,
        },
    }
}

/// Chooses the format to use.
pub fn effective_format(cli: Option<OutputFormat>, config: &Config) -> (format: OutputFormat)
    ensures
        format == format_chosen(cli, config.default_format),
{
    match cli {
        Some(format) => format,
        None => match &config.default_format {
            Some(name) => match OutputFormat::from_str(name.as_str()) {
                Some(format) => format,
                None => OutputFormat::Json,
            },
            None => OutputFormat::Json,
        },
    }
}

/// What stands for the hidden part of a value.
pub const MASK: &'static str = "****";

/// A value can be masked when it is short, or when its first four bytes
/// are whole characters.
pub open spec fn maskable(value: Seq<char>) -> bool {
    encode_utf8(value).len() <= 4 || is_char_boundary(encode_utf8(value), 4)
}

/// A value with all but its first four bytes hidden; a value of four
/// bytes or fewer is hidden altogether.
pub open spec fn masked(value: Seq<char>) -> Seq<char> {
    if encode_utf8(value).len() <= 4 {
        MASK@
    } else {
        decode_utf8(encode_utf8(value).subrange(0, 4)) + MASK@
    }
}

/// Tells whether a value can be masked.
pub fn is_maskable(value: &str) -> (possible: bool)
    ensures
        possible == maskable(value@),
{
    value.as_bytes().len() <= 4 || value.is_char_boundary(4)
}

/// Hides a value but for its first four bytes.
pub fn mask_value(value: &str) -> (shown: String)
    requires
        maskable(value@),
    ensures
        shown@ == masked(value@),
{
    if value.as_bytes().len() <= 4 {
        MASK.to_string()
    } else {
        let (start, _) = value.split_at(4);
        proof {
            encode_utf8_decode_utf8(start@);
        }
        let mut shown = start.to_string();
        shown.append(MASK);
        shown
    }
}

/// The diagnosis of a job.
#[derive(Clone, Debug, PartialEq, Eq)]
pub struct DiagnosisResult {
    pub app_id: String,
    pub branch: String,
    pub job_id: String,
    pub status: String,
    pub issues: Vec<Issue>,
}

/// The diagnosis of a job, with the raw logs where they were asked for.
#[derive(Clone, Debug, PartialEq, Eq)]
pub struct DiagnosisResultWithLogs {
    pub app_id: String,
    pub branch: String,
    pub job_id: String,
    pub status: String,
    pub issues: Vec<Issue>,
    pub raw_logs: Option<String>,
}

/// The logs of a job.
#[derive(Clone, Debug, PartialEq, Eq)]
pub struct LogsResult {
    pub app_id: String,
    pub branch: String,
    pub job_id: String,
    pub logs: String,
}

/// An environment variable was set.
#[derive(Clone, Debug, PartialEq, Eq)]
pub struct SetEnvResult {
    pub app_id: String,
    pub branch: String,
    pub name: String,
    pub success: bool,
}

/// An environment variable was deleted.
#[derive(Clone, Debug, PartialEq, Eq)]
pub struct DeleteEnvResult {
    pub app_id: String,
    pub branch: String,
    pub name: String,
    pub success: bool,
}

/// Diagnoses a job from its corpus: the issues of the rules that fire on
/// the raw content, beside what the caller knows of the job; the raw
/// content itself where it is asked for.
pub fn diagnose(
    app_id: String,
    branch: String,
    job_id: String,
    status: String,
    logs: &LogContent,
    include_logs: bool,
) -> (result: DiagnosisResultWithLogs)
    ensures
        result.app_id == app_id,
        result.branch == branch,
        result.job_id == job_id,
        result.status == status,
        issue_views(result.issues@) == diagnosis(logs.raw_content@),
        match result.raw_logs {
            Some(raw) => include_logs && raw@ == logs.raw_content@,
            None => !include_logs,
        },
{
    let issues = analyze_logs(logs);
    DiagnosisResultWithLogs {
        app_id,
        branch,
        job_id,
        status,
        issues,
        raw_logs: if include_logs {
            Some(logs.raw_content.clone())
        } else {
            None
        },
    }
}

pub const LIGHT_BAR: &'static str = "\u{2500}";

pub const HEAVY_BAR: &'static str = "\u{2550}";

pub const BULLET: &'static str = "\u{2022} ";

pub const CHECK: &'static str = "\u{2713}";

pub const CROSS: &'static str = "\u{2717}";

pub const TURNING: &'static str = "\u{27f3}";

pub const DOT: &'static str = "\u{2022}";

pub const ARROW: &'static str = "   \u{2192} ";

pub const NO_APPS: &'static str = "No apps found.";

pub const APPS_TITLE: &'static str = "AMPLIFY APPS\n";

pub const NO_BRANCHES: &'static str = "No branches found.";

pub const BRANCHES_TITLE: &'static str = "BRANCHES\n";

pub const NO_JOBS: &'static str = "No jobs found.";

pub const JOBS_TITLE: &'static str = "JOBS\n";

pub const JOB_TITLE: &'static str = "JOB DETAILS\n";

pub const DIAGNOSIS_TITLE: &'static str = "DIAGNOSIS REPORT\n";

pub const NO_ISSUES: &'static str = "No known failure patterns detected.\n";

pub const ISSUES_FOUND: &'static str = "ISSUES FOUND: ";

pub const NO_VARIABLES: &'static str = "No environment variables found.";

pub const VARIABLES_TITLE: &'static str = "ENVIRONMENT VARIABLES\n";

pub const SUCCEED: &'static str = "SUCCEED";

pub const RUNNING: &'static str = "RUNNING";

/// A title over a bar of the given width.
pub open spec fn banner_of(title: Seq<char>, bar: Seq<char>, width: nat) -> Seq<char> {
    title + repeated(bar, width) + "\n"@
}

/// Writes a title over a bar of the given width.
pub fn banner(title: &str, bar: &str, width: usize) -> (text: String)
    ensures
        text@ == banner_of(title@, bar@, width as nat),
{
    let mut text = title.to_string();
    text.append(repeat(bar, width).as_str());
    text.append("\n");
    text
}

/// A label, a value, and the end of the line.
pub open spec fn field_of(label: Seq<char>, value: Seq<char>) -> Seq<char> {
    label + value + "\n"@
}

/// A label, a value and the end of the line, where there is a value.
pub open spec fn optional_field_of(label: Seq<char>, value: Option<String>) -> Seq<char> {
    match value {
        Some(value) => field_of(label, value@),
        None => Seq::empty(),
    }
}

/// Writes a label, a value and the end of the line.
pub fn field(label: &str, value: &str) -> (text: String)
    ensures
        text@ == field_of(label@, value@),
{
    let mut text = label.to_string();
    text.append(value);
    text.append("\n");
    text
}

/// Writes a label, a value and the end of the line, where there is a
/// value.
pub fn optional_field(label: &str, value: &Option<String>) -> (text: String)
    ensures
        text@ == optional_field_of(label@, *value),
{
    match value {
        Some(value) => field(label, value.as_str()),
        None => String::new(),
    }
}

/// The lines of one app.
pub open spec fn app_lines_of(app: AppSummary) -> Seq<char> {
    BULLET@ + app.name@ + " ("@ + app.app_id@ + ")\n"@ + optional_field_of(
        "  Repository: "@,
        app.repository,
    ) + field_of("  Domain: "@, app.default_domain@)
}

/// Writes the lines of one app.
pub fn app_lines(app: &AppSummary) -> (text: String)
    ensures
        text@ == app_lines_of(*app),
{
    let mut text = BULLET.to_string();
    text.append(app.name.as_str());
    text.append(" (");
    text.append(app.app_id.as_str());
    text.append(")\n");
    text.append(optional_field("  Repository: ", &app.repository).as_str());
    text.append(field("  Domain: ", app.default_domain.as_str()).as_str());
    text
}

/// The lines of the first `n` apps.
pub open spec fn apps_lines_of(apps: Seq<AppSummary>, n: int) -> Seq<char>
    decreases n,
{
    if n <= 0 {
        Seq::empty()
    } else {
        apps_lines_of(apps, n - 1) + app_lines_of(apps[n - 1])
    }
}

/// The list of apps as text.
pub open spec fn apps_text_of(apps: Seq<AppSummary>) -> Seq<char> {
    if apps.len() == 0 {
        NO_APPS@
    } else {
        banner_of(APPS_TITLE@, LIGHT_BAR@, 60) + apps_lines_of(apps, apps.len() as int)
    }
}

/// Writes the list of apps as text.
pub fn apps_to_text(apps: &Vec<AppSummary>) -> (text: String)
    ensures
        text@ == apps_text_of(apps@),
{
    if apps.len() == 0 {
        return NO_APPS.to_string();
    }
    let mut lines = String::new();
    let mut k: usize = 0;
    while k < apps.len()
        invariant
            k <= apps@.len(),
            lines@ == apps_lines_of(apps@, k as int),
        decreases apps@.len() - k,
    {
        lines.append(app_lines(&apps[k]).as_str());
        k += 1;
    }
    let mut text = banner(APPS_TITLE, LIGHT_BAR, 60);
    text.append(lines.as_str());
    text
}

/// The line of one branch.
pub open spec fn branch_line_of(branch: BranchSummary) -> Seq<char> {
    BULLET@ + branch.branch_name@ + " ["@ + branch.stage@ + "]\n"@
}

/// The lines of the first `n` branches.
pub open spec fn branches_lines_of(branches: Seq<BranchSummary>, n: int) -> Seq<char>
    decreases n,
{
    if n <= 0 {
        Seq::empty()
    } else {
        branches_lines_of(branches, n - 1) + branch_line_of(branches[n - 1])
    }
}

/// The list of branches as text.
pub open spec fn branches_text_of(branches: Seq<BranchSummary>) -> Seq<char> {
    if branches.len() == 0 {
        NO_BRANCHES@
    } else {
        banner_of(BRANCHES_TITLE@, LIGHT_BAR@, 40) + branches_lines_of(
            branches,
            branches.len() as int,
        )
    }
}

/// Writes the line of one branch.
pub fn branch_line(branch: &BranchSummary) -> (text: String)
    ensures
        text@ == branch_line_of(*branch),
{
    let mut text = BULLET.to_string();
    text.append(branch.branch_name.as_str());
    text.append(" [");
    text.append(branch.stage.as_str());
    text.append("]\n");
    text
}

/// Writes the list of branches as text.
pub fn branches_to_text(branches: &Vec<BranchSummary>) -> (text: String)
    ensures
        text@ == branches_text_of(branches@),
{
    if branches.len() == 0 {
        return NO_BRANCHES.to_string();
    }
    let mut lines = String::new();
    let mut k: usize = 0;
    while k < branches.len()
        invariant
            k <= branches@.len(),
            lines@ == branches_lines_of(branches@, k as int),
        decreases branches@.len() - k,
    {
        lines.append(branch_line(&branches[k]).as_str());
        k += 1;
    }
    let mut text = banner(BRANCHES_TITLE, LIGHT_BAR, 40);
    text.append(lines.as_str());
    text
}

/// The sign of a job's status.
pub open spec fn status_icon_of(status: Seq<char>) -> Seq<char> {
    if status == SUCCEED@ {
        CHECK@
    } else if status == FAILED@ {
        CROSS@
    } else if status == RUNNING@ {
        TURNING@
    } else {
        DOT@
    }
}

/// The sign of a job's status.
pub fn status_icon(status: &str) -> (icon: &'static str)
    ensures
        icon@ == status_icon_of(status@),
{
    if same_text(status, SUCCEED) {
        CHECK
    } else if same_text(status, FAILED) {
        CROSS
    } else if same_text(status, RUNNING) {
        TURNING
    } else {
        DOT
    }
}

/// The lines of one job in a list.
pub open spec fn job_lines_of(job: JobSummary) -> Seq<char> {
    status_icon_of(job.status@) + " "@ + job.job_id@ + " - "@ + job.status@ + "\n"@
        + optional_field_of("  Started: "@, job.start_time)
}

/// Writes the lines of one job in a list.
pub fn job_lines(job: &JobSummary) -> (text: String)
    ensures
        text@ == job_lines_of(*job),
{
    let mut text = status_icon(job.status.as_str()).to_string();
    text.append(" ");
    text.append(job.job_id.as_str());
    text.append(" - ");
    text.append(job.status.as_str());
    text.append("\n");
    text.append(optional_field("  Started: ", &job.start_time).as_str());
    text
}

/// The lines of the first `n` jobs.
pub open spec fn jobs_lines_of(jobs: Seq<JobSummary>, n: int) -> Seq<char>
    decreases n,
{
    if n <= 0 {
        Seq::empty()
    } else {
        jobs_lines_of(jobs, n - 1) + job_lines_of(jobs[n - 1])
    }
}

/// The list of jobs as text.
pub open spec fn jobs_text_of(jobs: Seq<JobSummary>) -> Seq<char> {
    if jobs.len() == 0 {
        NO_JOBS@
    } else {
        banner_of(JOBS_TITLE@, LIGHT_BAR@, 60) + jobs_lines_of(jobs, jobs.len() as int)
    }
}

/// Writes the list of jobs as text.
pub fn jobs_to_text(jobs: &Vec<JobSummary>) -> (text: String)
    ensures
        text@ == jobs_text_of(jobs@),
{
    if jobs.len() == 0 {
        return NO_JOBS.to_string();
    }
    let mut lines = String::new();
    let mut k: usize = 0;
    while k < jobs.len()
        invariant
            k <= jobs@.len(),
            lines@ == jobs_lines_of(jobs@, k as int),
        decreases jobs@.len() - k,
    {
        lines.append(job_lines(&jobs[k]).as_str());
        k += 1;
    }
    let mut text = banner(JOBS_TITLE, LIGHT_BAR, 60);
    text.append(lines.as_str());
    text
}

/// One job as text.
pub open spec fn job_text_of(job: JobSummary) -> Seq<char> {
    banner_of(JOB_TITLE@, LIGHT_BAR@, 40) + field_of("Job ID: "@, job.job_id@) + field_of(
        "Status: "@,
        job.status@,
    ) + optional_field_of("Started: "@, job.start_time) + optional_field_of(
        "Ended: "@,
        job.end_time,
    )
}

/// Writes one job as text.
pub fn job_to_text(job: &JobSummary) -> (text: String)
    ensures
        text@ == job_text_of(*job),
{
    let mut text = banner(JOB_TITLE, LIGHT_BAR, 40);
    text.append(field("Job ID: ", job.job_id.as_str()).as_str());
    text.append(field("Status: ", job.status.as_str()).as_str());
    text.append(optional_field("Started: ", &job.start_time).as_str());
    text.append(optional_field("Ended: ", &job.end_time).as_str());
    text
}

/// The remedies of an issue, each behind an arrow; the first `n`.
pub open spec fn fix_lines_of(fixes: Seq<String>, n: int) -> Seq<char>
    decreases n,
{
    if n <= 0 {
        Seq::empty()
    } else {
        fix_lines_of(fixes, n - 1) + field_of(ARROW@, fixes[n - 1]@)
    }
}

/// The lines of one issue; `number` counts the issues from one.
pub open spec fn issue_lines_of(issue: Issue, number: nat) -> Seq<char> {
    "\n"@ + decimal_of(number) + ". ["@ + issue.pattern@ + "]\n"@ + field_of(
        "   Cause: "@,
        issue.root_cause@,
    ) + "   Fixes:\n"@ + fix_lines_of(issue.suggested_fixes@, issue.suggested_fixes@.len() as int)
}

/// Writes the lines of one issue.
pub fn issue_lines(issue: &Issue, number: usize) -> (text: String)
    ensures
        text@ == issue_lines_of(*issue, number as nat),
{
    let mut fixes = String::new();
    let mut k: usize = 0;
    while k < issue.suggested_fixes.len()
        invariant
            k <= issue.suggested_fixes@.len(),
            fixes@ == fix_lines_of(issue.suggested_fixes@, k as int),
        decreases issue.suggested_fixes@.len() - k,
    {
        fixes.append(field(ARROW, issue.suggested_fixes[k].as_str()).as_str());
        k += 1;
    }
    let mut text = "\n".to_string();
    text.append(decimal(number).as_str());
    text.append(". [");
    text.append(issue.pattern.as_str());
    text.append("]\n");
    text.append(field("   Cause: ", issue.root_cause.as_str()).as_str());
    text.append("   Fixes:\n");
    text.append(fixes.as_str());
    text
}

/// The lines of the first `n` issues, numbered from one.
pub open spec fn issues_lines_of(issues: Seq<Issue>, n: int) -> Seq<char>
    decreases n,
{
    if n <= 0 {
        Seq::empty()
    } else {
        issues_lines_of(issues, n - 1) + issue_lines_of(issues[n - 1], n as nat)
    }
}

/// What is said of the issues: that there are none, or how many, and
/// each of them.
pub open spec fn findings_of(issues: Seq<Issue>) -> Seq<char> {
    if issues.len() == 0 {
        NO_ISSUES@
    } else {
        banner_of(ISSUES_FOUND@ + decimal_of(issues.len()) + "\n"@, LIGHT_BAR@, 60)
            + issues_lines_of(issues, issues.len() as int)
    }
}

/// Writes what is said of the issues.
pub fn findings(issues: &Vec<Issue>) -> (text: String)
    ensures
        text@ == findings_of(issues@),
{
    if issues.len() == 0 {
        return NO_ISSUES.to_string();
    }
    let mut lines = String::new();
    let mut k: usize = 0;
    while k < issues.len()
        invariant
            k <= issues@.len(),
            lines@ == issues_lines_of(issues@, k as int),
        decreases issues@.len() - k,
    {
        lines.append(issue_lines(&issues[k], k + 1).as_str());
        k += 1;
    }
    let mut title = ISSUES_FOUND.to_string();
    title.append(decimal(issues.len()).as_str());
    title.append("\n");
    let mut text = banner(title.as_str(), LIGHT_BAR, 60);
    text.append(lines.as_str());
    text
}

/// The head of a diagnosis: the job, and what is said of the issues.
pub open spec fn diagnosis_text_of(
    app_id: Seq<char>,
    branch: Seq<char>,
    job_id: Seq<char>,
    status: Seq<char>,
    issues: Seq<Issue>,
) -> Seq<char> {
    banner_of(DIAGNOSIS_TITLE@, HEAVY_BAR@, 60) + field_of("App: "@, app_id) + field_of(
        "Branch: "@,
        branch,
    ) + field_of("Job: "@, job_id) + field_of("Status: "@, status) + "\n"@ + findings_of(issues)
}

/// Writes the head of a diagnosis.
pub fn diagnosis_text(
    app_id: &str,
    branch: &str,
    job_id: &str,
    status: &str,
    issues: &Vec<Issue>,
) -> (text: String)
    ensures
        text@ == diagnosis_text_of(app_id@, branch@, job_id@, status@, issues@),
{
    let mut text = banner(DIAGNOSIS_TITLE, HEAVY_BAR, 60);
    text.append(field("App: ", app_id).as_str());
    text.append(field("Branch: ", branch).as_str());
    text.append(field("Job: ", job_id).as_str());
    text.append(field("Status: ", status).as_str());
    text.append("\n");
    text.append(findings(issues).as_str());
    text
}

/// The raw logs under their title, between two bars.
pub open spec fn raw_logs_of(logs: Seq<char>) -> Seq<char> {
    banner_of(banner_of("\n"@, LIGHT_BAR@, 60) + "RAW LOGS:\n"@, LIGHT_BAR@, 60) + logs
}

/// Writes the raw logs under their title.
pub fn raw_logs_text(logs: &str) -> (text: String)
    ensures
        text@ == raw_logs_of(logs@),
{
    let mut title = banner("\n", LIGHT_BAR, 60);
    title.append("RAW LOGS:\n");
    let mut text = banner(title.as_str(), LIGHT_BAR, 60);
    text.append(logs);
    text
}

impl DiagnosisResult {
    /// The diagnosis as text.
    pub open spec fn text_of(self) -> Seq<char> {
        diagnosis_text_of(self.app_id@, self.branch@, self.job_id@, self.status@, self.issues@)
    }

    /// Writes the diagnosis as text.
    pub fn to_text(&self) -> (text: String)
        ensures
            text@ == self.text_of(),
    {
        diagnosis_text(
            self.app_id.as_str(),
            self.branch.as_str(),
            self.job_id.as_str(),
            self.status.as_str(),
            &self.issues,
        )
    }
}

impl DiagnosisResultWithLogs {
    /// The diagnosis as text, with the raw logs where it has them.
    pub open spec fn text_of(self) -> Seq<char> {
        let head = diagnosis_text_of(
            self.app_id@,
            self.branch@,
            self.job_id@,
            self.status@,
            self.issues@,
        );
        match self.raw_logs {
            Some(logs) => head + raw_logs_of(logs@),
            None => head,
        }
    }

    /// Writes the diagnosis as text.
    pub fn to_text(&self) -> (text: String)
        ensures
            text@ == self.text_of(),
    {
        let mut text = diagnosis_text(
            self.app_id.as_str(),
            self.branch.as_str(),
            self.job_id.as_str(),
            self.status.as_str(),
            &self.issues,
        );
        match &self.raw_logs {
            Some(logs) => {
                text.append(raw_logs_text(logs.as_str()).as_str());
            },
            None => {},
        }
        text
    }
}

impl LogsResult {
    /// The logs as text.
    pub open spec fn text_of(self) -> Seq<char> {
        banner_of(
            "BUILD LOGS - Job "@ + self.job_id@ + "\n"@ + "App: "@ + self.app_id@ + " | Branch: "@
                + self.branch@ + "\n"@,
            HEAVY_BAR@,
            60,
        ) + self.logs@
    }

    /// Writes the logs as text.
    pub fn to_text(&self) -> (text: String)
        ensures
            text@ == self.text_of(),
    {
        let mut title = "BUILD LOGS - Job ".to_string();
        title.append(self.job_id.as_str());
        title.append("\n");
        title.append("App: ");
        title.append(self.app_id.as_str());
        title.append(" | Branch: ");
        title.append(self.branch.as_str());
        title.append("\n");
        let mut text = banner(title.as_str(), HEAVY_BAR, 60);
        text.append(self.logs.as_str());
        text
    }
}

/// The line of one environment variable, its value masked.
pub open spec fn variable_line_of(variable: EnvVariable) -> Seq<char> {
    BULLET@ + variable.name@ + " = "@ + masked(variable.value@) + "\n"@
}

/// The lines of the first `n` environment variables.
pub open spec fn variables_lines_of(variables: Seq<EnvVariable>, n: int) -> Seq<char>
    decreases n,
{
    if n <= 0 {
        Seq::empty()
    } else {
        variables_lines_of(variables, n - 1) + variable_line_of(variables[n - 1])
    }
}

/// The list of environment variables as text.
pub open spec fn variables_text_of(variables: Seq<EnvVariable>) -> Seq<char> {
    if variables.len() == 0 {
        NO_VARIABLES@
    } else {
        banner_of(VARIABLES_TITLE@, LIGHT_BAR@, 60) + variables_lines_of(
            variables,
            variables.len() as int,
        )
    }
}

/// Every value of the list can be masked.
pub open spec fn all_maskable(variables: Seq<EnvVariable>) -> bool {
    forall|k: int| 0 <= k < variables.len() ==> maskable(#[trigger] variables[k].value@)
}

/// Tells whether every value of the list can be masked.
pub fn are_maskable(variables: &Vec<EnvVariable>) -> (possible: bool)
    ensures
        possible == all_maskable(variables@),
{
    let mut k: usize = 0;
    while k < variables.len()
        invariant
            k <= variables@.len(),
            forall|j: int| 0 <= j < k ==> maskable(#[trigger] variables@[j].value@),
        decreases variables@.len() - k,
    {
        if !is_maskable(variables[k].value.as_str()) {
            return false;
        }
        k += 1;
    }
    true
}

/// Writes the list of environment variables as text, their values masked.
pub fn variables_to_text(variables: &Vec<EnvVariable>) -> (text: String)
    requires
        all_maskable(variables@),
    ensures
        text@ == variables_text_of(variables@),
{
    if variables.len() == 0 {
        return NO_VARIABLES.to_string();
    }
    let mut lines = String::new();
    let mut k: usize = 0;
    while k < variables.len()
        invariant
            k <= variables@.len(),
            all_maskable(variables@),
            lines@ == variables_lines_of(variables@, k as int),
        decreases variables@.len() - k,
    {
        let mut line = BULLET.to_string();
        line.append(variables[k].name.as_str());
        line.append(" = ");
        line.append(mask_value(variables[k].value.as_str()).as_str());
        line.append("\n");
        lines.append(line.as_str());
        k += 1;
    }
    let mut text = banner(VARIABLES_TITLE, LIGHT_BAR, 60);
    text.append(lines.as_str());
    text
}

/// What was done to a variable of a branch, as one line.
pub open spec fn change_line_of(
    done: Seq<char>,
    name: Seq<char>,
    link: Seq<char>,
    app_id: Seq<char>,
    branch: Seq<char>,
) -> Seq<char> {
    CHECK@ + done + name + link + app_id + "/"@ + branch + "\n"@
}

/// Writes what was done to a variable of a branch.
pub fn change_line(done: &str, name: &str, link: &str, app_id: &str, branch: &str) -> (text:
    String)
    ensures
        text@ == change_line_of(done@, name@, link@, app_id@, branch@),
{
    let mut text = CHECK.to_string();
    text.append(done);
    text.append(name);
    text.append(link);
    text.append(app_id);
    text.append("/");
    text.append(branch);
    text.append("\n");
    text
}

impl SetEnvResult {
    /// The result as text.
    pub fn to_text(&self) -> (text: String)
        ensures
            text@ == change_line_of(" Set "@, self.name@, " on "@, self.app_id@, self.branch@),
    {
        change_line(
            " Set ",
            self.name.as_str(),
            " on ",
            self.app_id.as_str(),
            self.branch.as_str(),
        )
    }
}

impl DeleteEnvResult {
    /// The result as text.
    pub fn to_text(&self) -> (text: String)
        ensures
            text@ == change_line_of(
                " Deleted "@,
                self.name@,
                " from "@,
                self.app_id@,
                self.branch@,
            ),
    {
        change_line(
            " Deleted ",
            self.name.as_str(),
            " from ",
            self.app_id.as_str(),
            self.branch.as_str(),
        )
    }
}

/// What was done to a build, with the status of its job.
pub open spec fn build_lines_of(done: Seq<char>, job_id: Seq<char>, status: Seq<char>) -> Seq<
    char,
> {
    CHECK@ + done + job_id + "\n"@ + field_of("  Status: "@, status)
}

/// Writes what was done to a build.
pub fn build_lines(done: &str, job_id: &str, status: &str) -> (text: String)
    ensures
        text@ == build_lines_of(done@, job_id@, status@),
{
    let mut text = CHECK.to_string();
    text.append(done);
    text.append(job_id);
    text.append("\n");
    text.append(field("  Status: ", status).as_str());
    text
}

/// Writes the start of a build as text.
pub fn started_to_text(result: &StartJobResult) -> (text: String)
    ensures
        text@ == build_lines_of(" Started build job "@, result.job_id@, result.status@),
{
    build_lines(" Started build job ", result.job_id.as_str(), result.status.as_str())
}

/// Writes the stop of a build as text.
pub fn stopped_to_text(result: &StopJobResult) -> (text: String)
    ensures
        text@ == build_lines_of(" Stopped build job "@, result.job_id@, result.status@),
{
    build_lines(" Stopped build job ", result.job_id.as_str(), result.status.as_str())
}

} // verus!
