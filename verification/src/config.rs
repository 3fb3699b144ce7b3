//! User settings and how they combine with what the command line gives.

use vstd::prelude::*;

verus! {

/// User settings, each of which may be absent.
#[derive(Clone, Debug, PartialEq, Eq)]
pub struct Config {
    /// App to use when the command line names none.
    pub default_app_id: Option<String>,
    /// Branch to use when the command line names none.
    pub default_branch: Option<String>,
    /// Output format: json, json-pretty or text.
    pub default_format: Option<String>,
    /// Region override.
    pub aws_region: Option<String>,
}

/// The name of the settings file in the home directory.
pub const CONFIG_FILE_NAME: &'static str = ".amplify-monitor.toml";

/// The content of a settings file with every setting commented out.
pub const SAMPLE_CONFIG: &'static str =
    "# amplify-monitor configuration\n# Place this file at ~/.amplify-monitor.toml\n\n# Default app ID (find with `amplify-monitor apps`)\n# default_app_id = \"d1234567890\"\n\n# Default branch name\n# default_branch = \"main\"\n\n# Default output format: json, json-pretty, or text\n# default_format = \"json-pretty\"\n\n# AWS region (overrides AWS_REGION env var)\n# aws_region = \"us-east-1\"\n";

/// The regions that are looked into when all regions are asked for.
pub const SCAN_REGIONS: [&'static str; 13] = [
    "us-east-1",
    "us-east-2",
    "us-west-1",
    "us-west-2",
    "eu-west-1",
    "eu-west-2",
    "eu-central-1",
    "ap-south-1",
    "ap-southeast-1",
    "ap-southeast-2",
    "ap-northeast-1",
    "sa-east-1",
    "ca-central-1",
];

/// A setting that neither the command line nor the settings give.
#[derive(Clone, Copy, Debug, PartialEq, Eq)]
pub enum MissingSetting {
    AppId,
    Branch,
}

pub const MISSING_APP_ID_MESSAGE: &'static str =
    "No app ID specified. Use --app-id or set default_app_id in ~/.amplify-monitor.toml";

pub const MISSING_BRANCH_MESSAGE: &'static str =
    "No branch specified. Use --branch or set default_branch in ~/.amplify-monitor.toml";

impl MissingSetting {
    /// What to tell the user.
    pub fn message(&self) -> (text: &'static str)
        ensures
            text@ == match *self {
                MissingSetting::AppId => MISSING_APP_ID_MESSAGE@,
                MissingSetting::Branch => MISSING_BRANCH_MESSAGE@,
            },
    {
        match self {
            MissingSetting::AppId => MISSING_APP_ID_MESSAGE,
            MissingSetting::Branch => MISSING_BRANCH_MESSAGE,
        }
    }
}

impl Default for Config {
    fn default() -> (config: Config)
        ensures
            config.default_app_id is None,
            config.default_branch is None,
            config.default_format is None,
            config.aws_region is None,
    {
        Config { default_app_id: None, default_branch: None, default_format: None, aws_region: None }
    }
}

/// The first of two optional texts that is present.
pub open spec fn first_present(first: Option<String>, second: Option<String>) -> Option<
    Seq<char>,
> {
    match first {
        Some(text) => Some(text@),
        None => match second {
            Some(text) => Some(text@),
            None => None,
        },
    }
}

/// The value given on the command line, else the configured one, else the
/// error.
fn resolve(cli_arg: Option<String>, configured: &Option<String>, missing: MissingSetting) -> (result:
    Result<String, MissingSetting>)
    ensures
        match result {
            Ok(value) => first_present(cli_arg, *configured) == Some(value@),
            Err(error) => first_present(cli_arg, *configured) is None && error == missing,
        },
{
    match cli_arg {
        Some(value) => Ok(value),
        None => match configured {
            Some(value) => Ok(value.clone()),
            None => Err(missing),
        },
    }
}

/// The app to work on: the one given on the command line, else the
/// configured default.
pub fn resolve_app_id(cli_arg: Option<String>, config: &Config) -> (result: Result<
    String,
    MissingSetting,
>)
    ensures
        match result {
            Ok(app_id) => first_present(cli_arg, config.default_app_id) == Some(app_id@),
            Err(error) => first_present(cli_arg, config.default_app_id) is None && error
                == MissingSetting::AppId,
        },
{
    resolve(cli_arg, &config.default_app_id, MissingSetting::AppId)
}

/// The branch to work on: the one given on the command line, else the
/// configured default.
pub fn resolve_branch(cli_arg: Option<String>, config: &Config) -> (result: Result<
    String,
    MissingSetting,
>)
    ensures
        match result {
            Ok(branch) => first_present(cli_arg, config.default_branch) == Some(branch@),
            Err(error) => first_present(cli_arg, config.default_branch) is None && error
                == MissingSetting::Branch,
        },
{
    resolve(cli_arg, &config.default_branch, MissingSetting::Branch)
}

} // verus!
