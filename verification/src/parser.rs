//! Failure classification: a fixed, ordered battery of rules, each of which
//! looks for trigger literals in the corpus and reports at most one issue.

use crate::catalog;
use crate::logs::LogContent;
use crate::text::{
    any_occurs, contains_any, lowercase, lowercase_of, occurs_in, owned_texts, string_views, texts,
};
use vstd::prelude::*;

verus! {

/// A diagnosed failure: a stable tag, a summary of the cause, and remedies.
#[derive(Clone, Debug, PartialEq, Eq)]
pub struct Issue {
    pub pattern: String,
    pub root_cause: String,
    pub suggested_fixes: Vec<String>,
}

/// What an `Issue` says, as character sequences.
pub ghost struct IssueView {
    pub pattern: Seq<char>,
    pub root_cause: Seq<char>,
    pub suggested_fixes: Seq<Seq<char>>,
}

impl View for Issue {
    type V = IssueView;

    open spec fn view(&self) -> IssueView {
        IssueView {
            pattern: self.pattern@,
            root_cause: self.root_cause@,
            suggested_fixes: string_views(self.suggested_fixes@),
        }
    }
}

/// What a list of issues says.
pub open spec fn issue_views(issues: Seq<Issue>) -> Seq<IssueView> {
    issues.map_values(|issue: Issue| issue@)
}

/// How a rule decides.
#[derive(Clone, Copy, Debug, PartialEq, Eq)]
pub enum Policy {
    /// Fires when a trigger occurs in the case-folded corpus.
    AnyOf,
    /// Fires when a trigger and an indicator both occur, anywhere, in the
    /// case-folded corpus.
    Gated,
    /// Fires on a condition of its own over the corpus as written.
    Compound,
}

/// The rules, in the order in which they are evaluated.
#[derive(Clone, Copy, Debug, PartialEq, Eq)]
pub enum Rule {
    LockfileMismatch,
    PackageManagerConflict,
    NodeVersionMismatch,
    MissingEnvVars,
    NpmCiFailure,
    PnpmInstallFailure,
    YarnInstallFailure,
    AmplifyYmlError,
    OutOfMemory,
    Timeout,
    ArtifactPathError,
    TypescriptError,
    EslintError,
    ModuleNotFound,
    PermissionDenied,
    NetworkError,
    DockerError,
    PythonError,
    NextJsError,
    ViteError,
}

/// The registry of rules.
pub const REGISTRY: [Rule; 20] = [
    Rule::LockfileMismatch,
    Rule::PackageManagerConflict,
    Rule::NodeVersionMismatch,
    Rule::MissingEnvVars,
    Rule::NpmCiFailure,
    Rule::PnpmInstallFailure,
    Rule::YarnInstallFailure,
    Rule::AmplifyYmlError,
    Rule::OutOfMemory,
    Rule::Timeout,
    Rule::ArtifactPathError,
    Rule::TypescriptError,
    Rule::EslintError,
    Rule::ModuleNotFound,
    Rule::PermissionDenied,
    Rule::NetworkError,
    Rule::DockerError,
    Rule::PythonError,
    Rule::NextJsError,
    Rule::ViteError,
];

/// The data of one rule. A rule cannot fire unless one of `triggers` occurs;
/// `indicators` is empty unless the policy is `Gated`.
#[derive(Clone, Copy, Debug)]
pub struct RuleProfile {
    pub tag: &'static str,
    pub root_cause: &'static str,
    pub fixes: &'static [&'static str],
    pub policy: Policy,
    pub triggers: &'static [&'static str],
    pub indicators: &'static [&'static str],
}

/// An npm warning, an npm lock file and a lock file of another package
/// manager are all mentioned.
pub open spec fn lockfiles_conflict(corpus: Seq<char>) -> bool {
    &&& any_occurs(texts(catalog::NPM_WARNING_MARKERS@), corpus)
    &&& any_occurs(texts(catalog::NPM_LOCKFILES@), corpus)
    &&& any_occurs(texts(catalog::FOREIGN_LOCKFILES@), corpus)
}

/// How many of npm, pnpm and yarn have an install command in the corpus.
pub open spec fn managers_invoked(corpus: Seq<char>) -> nat {
    let npm: nat = if any_occurs(texts(catalog::NPM_INSTALL_COMMANDS@), corpus) {
        1
    } else {
        0
    };
    let pnpm: nat = if any_occurs(texts(catalog::PNPM_INSTALL_COMMANDS@), corpus) {
        1
    } else {
        0
    };
    let yarn: nat = if any_occurs(texts(catalog::YARN_INSTALL_COMMANDS@), corpus) {
        1
    } else {
        0
    };
    npm + pnpm + yarn
}

/// A lint signal, a lint indicator and the linter's name are all mentioned.
pub open spec fn lint_failed(corpus: Seq<char>) -> bool {
    &&& any_occurs(texts(catalog::ESLINT_ERROR_SIGNALS@), corpus)
    &&& any_occurs(texts(catalog::ESLINT_ERROR_INDICATORS@), corpus)
    &&& any_occurs(texts(catalog::ESLINT_MARKERS@), corpus)
}

impl Rule {
    /// The data of the rule.
    pub open spec fn spec_profile(self) -> RuleProfile {
        match self {
            Rule::LockfileMismatch => RuleProfile {
                tag: catalog::LOCKFILE_MISMATCH_TAG,
                root_cause: catalog::LOCKFILE_MISMATCH_CAUSE,
                fixes: &catalog::LOCKFILE_MISMATCH_FIXES,
                policy: Policy::Compound,
                triggers: &catalog::NPM_WARNING_MARKERS,
                indicators: &catalog::NO_LITERALS,
            },
            Rule::PackageManagerConflict => RuleProfile {
                tag: catalog::PACKAGE_MANAGER_CONFLICT_TAG,
                root_cause: catalog::PACKAGE_MANAGER_CONFLICT_CAUSE,
                fixes: &catalog::PACKAGE_MANAGER_CONFLICT_FIXES,
                policy: Policy::Compound,
                triggers: &catalog::INSTALL_COMMANDS,
                indicators: &catalog::NO_LITERALS,
            },
            Rule::NodeVersionMismatch => RuleProfile {
                tag: catalog::NODE_VERSION_MISMATCH_TAG,
                root_cause: catalog::NODE_VERSION_MISMATCH_CAUSE,
                fixes: &catalog::NODE_VERSION_MISMATCH_FIXES,
                policy: Policy::AnyOf,
                triggers: &catalog::NODE_VERSION_MISMATCH_SIGNALS,
                indicators: &catalog::NO_LITERALS,
            },
            Rule::MissingEnvVars => RuleProfile {
                tag: catalog::MISSING_ENV_VARS_TAG,
                root_cause: catalog::MISSING_ENV_VARS_CAUSE,
                fixes: &catalog::MISSING_ENV_VARS_FIXES,
                policy: Policy::Gated,
                triggers: &catalog::MISSING_ENV_VARS_SIGNALS,
                indicators: &catalog::MISSING_ENV_VARS_INDICATORS,
            },
            Rule::NpmCiFailure => RuleProfile {
                tag: catalog::NPM_CI_FAILURE_TAG,
                root_cause: catalog::NPM_CI_FAILURE_CAUSE,
                fixes: &catalog::NPM_CI_FAILURE_FIXES,
                policy: Policy::AnyOf,
                triggers: &catalog::NPM_CI_FAILURE_SIGNALS,
                indicators: &catalog::NO_LITERALS,
            },
            Rule::PnpmInstallFailure => RuleProfile {
                tag: catalog::PNPM_INSTALL_FAILURE_TAG,
                root_cause: catalog::PNPM_INSTALL_FAILURE_CAUSE,
                fixes: &catalog::PNPM_INSTALL_FAILURE_FIXES,
                policy: Policy::AnyOf,
                triggers: &catalog::PNPM_INSTALL_FAILURE_SIGNALS,
                indicators: &catalog::NO_LITERALS,
            },
            Rule::YarnInstallFailure => RuleProfile {
                tag: catalog::YARN_INSTALL_FAILURE_TAG,
                root_cause: catalog::YARN_INSTALL_FAILURE_CAUSE,
                fixes: &catalog::YARN_INSTALL_FAILURE_FIXES,
                policy: Policy::Gated,
                triggers: &catalog::YARN_INSTALL_FAILURE_SIGNALS,
                indicators: &catalog::YARN_INSTALL_FAILURE_INDICATORS,
            },
            Rule::AmplifyYmlError => RuleProfile {
                tag: catalog::AMPLIFY_YML_ERROR_TAG,
                root_cause: catalog::AMPLIFY_YML_ERROR_CAUSE,
                fixes: &catalog::AMPLIFY_YML_ERROR_FIXES,
                policy: Policy::Gated,
                triggers: &catalog::AMPLIFY_YML_ERROR_SIGNALS,
                indicators: &catalog::AMPLIFY_YML_ERROR_INDICATORS,
            },
            Rule::OutOfMemory => RuleProfile {
                tag: catalog::OUT_OF_MEMORY_TAG,
                root_cause: catalog::OUT_OF_MEMORY_CAUSE,
                fixes: &catalog::OUT_OF_MEMORY_FIXES,
                policy: Policy::AnyOf,
                triggers: &catalog::OUT_OF_MEMORY_SIGNALS,
                indicators: &catalog::NO_LITERALS,
            },
            Rule::Timeout => RuleProfile {
                tag: catalog::TIMEOUT_TAG,
                root_cause: catalog::TIMEOUT_CAUSE,
                fixes: &catalog::TIMEOUT_FIXES,
                policy: Policy::AnyOf,
                triggers: &catalog::TIMEOUT_SIGNALS,
                indicators: &catalog::NO_LITERALS,
            },
            Rule::ArtifactPathError => RuleProfile {
                tag: catalog::ARTIFACT_PATH_ERROR_TAG,
                root_cause: catalog::ARTIFACT_PATH_ERROR_CAUSE,
                fixes: &catalog::ARTIFACT_PATH_ERROR_FIXES,
                policy: Policy::Gated,
                triggers: &catalog::ARTIFACT_PATH_ERROR_SIGNALS,
                indicators: &catalog::ARTIFACT_PATH_ERROR_INDICATORS,
            },
            Rule::TypescriptError => RuleProfile {
                tag: catalog::TYPESCRIPT_ERROR_TAG,
                root_cause: catalog::TYPESCRIPT_ERROR_CAUSE,
                fixes: &catalog::TYPESCRIPT_ERROR_FIXES,
                policy: Policy::AnyOf,
                triggers: &catalog::TYPESCRIPT_ERROR_SIGNALS,
                indicators: &catalog::NO_LITERALS,
            },
            Rule::EslintError => RuleProfile {
                tag: catalog::ESLINT_ERROR_TAG,
                root_cause: catalog::ESLINT_ERROR_CAUSE,
                fixes: &catalog::ESLINT_ERROR_FIXES,
                policy: Policy::Compound,
                triggers: &catalog::ESLINT_ERROR_SIGNALS,
                indicators: &catalog::NO_LITERALS,
            },
            Rule::ModuleNotFound => RuleProfile {
                tag: catalog::MODULE_NOT_FOUND_TAG,
                root_cause: catalog::MODULE_NOT_FOUND_CAUSE,
                fixes: &catalog::MODULE_NOT_FOUND_FIXES,
                policy: Policy::AnyOf,
                triggers: &catalog::MODULE_NOT_FOUND_SIGNALS,
                indicators: &catalog::NO_LITERALS,
            },
            Rule::PermissionDenied => RuleProfile {
                tag: catalog::PERMISSION_DENIED_TAG,
                root_cause: catalog::PERMISSION_DENIED_CAUSE,
                fixes: &catalog::PERMISSION_DENIED_FIXES,
                policy: Policy::AnyOf,
                triggers: &catalog::PERMISSION_DENIED_SIGNALS,
                indicators: &catalog::NO_LITERALS,
            },
            Rule::NetworkError => RuleProfile {
                tag: catalog::NETWORK_ERROR_TAG,
                root_cause: catalog::NETWORK_ERROR_CAUSE,
                fixes: &catalog::NETWORK_ERROR_FIXES,
                policy: Policy::AnyOf,
                triggers: &catalog::NETWORK_ERROR_SIGNALS,
                indicators: &catalog::NO_LITERALS,
            },
            Rule::DockerError => RuleProfile {
                tag: catalog::DOCKER_ERROR_TAG,
                root_cause: catalog::DOCKER_ERROR_CAUSE,
                fixes: &catalog::DOCKER_ERROR_FIXES,
                policy: Policy::Gated,
                triggers: &catalog::DOCKER_ERROR_SIGNALS,
                indicators: &catalog::DOCKER_ERROR_INDICATORS,
            },
            Rule::PythonError => RuleProfile {
                tag: catalog::PYTHON_ERROR_TAG,
                root_cause: catalog::PYTHON_ERROR_CAUSE,
                fixes: &catalog::PYTHON_ERROR_FIXES,
                policy: Policy::Gated,
                triggers: &catalog::PYTHON_ERROR_SIGNALS,
                indicators: &catalog::PYTHON_ERROR_INDICATORS,
            },
            Rule::NextJsError => RuleProfile {
                tag: catalog::NEXTJS_ERROR_TAG,
                root_cause: catalog::NEXTJS_ERROR_CAUSE,
                fixes: &catalog::NEXTJS_ERROR_FIXES,
                policy: Policy::Gated,
                triggers: &catalog::NEXTJS_ERROR_SIGNALS,
                indicators: &catalog::NEXTJS_ERROR_INDICATORS,
            },
            Rule::ViteError => RuleProfile {
                tag: catalog::VITE_ERROR_TAG,
                root_cause: catalog::VITE_ERROR_CAUSE,
                fixes: &catalog::VITE_ERROR_FIXES,
                policy: Policy::Gated,
                triggers: &catalog::VITE_ERROR_SIGNALS,
                indicators: &catalog::VITE_ERROR_INDICATORS,
            },
        }
    }

    /// The data of the rule.
    #[verifier::when_used_as_spec(spec_profile)]
    pub fn profile(self) -> (profile: RuleProfile)
        ensures
            profile == self.spec_profile(),
    {
        match self {
            Rule::LockfileMismatch => RuleProfile {
                tag: catalog::LOCKFILE_MISMATCH_TAG,
                root_cause: catalog::LOCKFILE_MISMATCH_CAUSE,
                fixes: &catalog::LOCKFILE_MISMATCH_FIXES,
                policy: Policy::Compound,
                triggers: &catalog::NPM_WARNING_MARKERS,
                indicators: &catalog::NO_LITERALS,
            },
            Rule::PackageManagerConflict => RuleProfile {
                tag: catalog::PACKAGE_MANAGER_CONFLICT_TAG,
                root_cause: catalog::PACKAGE_MANAGER_CONFLICT_CAUSE,
                fixes: &catalog::PACKAGE_MANAGER_CONFLICT_FIXES,
                policy: Policy::Compound,
                triggers: &catalog::INSTALL_COMMANDS,
                indicators: &catalog::NO_LITERALS,
            },
            Rule::NodeVersionMismatch => RuleProfile {
                tag: catalog::NODE_VERSION_MISMATCH_TAG,
                root_cause: catalog::NODE_VERSION_MISMATCH_CAUSE,
                fixes: &catalog::NODE_VERSION_MISMATCH_FIXES,
                policy: Policy::AnyOf,
                triggers: &catalog::NODE_VERSION_MISMATCH_SIGNALS,
                indicators: &catalog::NO_LITERALS,
            },
            Rule::MissingEnvVars => RuleProfile {
                tag: catalog::MISSING_ENV_VARS_TAG,
                root_cause: catalog::MISSING_ENV_VARS_CAUSE,
                fixes: &catalog::MISSING_ENV_VARS_FIXES,
                policy: Policy::Gated,
                triggers: &catalog::MISSING_ENV_VARS_SIGNALS,
                indicators: &catalog::MISSING_ENV_VARS_INDICATORS,
            },
            Rule::NpmCiFailure => RuleProfile {
                tag: catalog::NPM_CI_FAILURE_TAG,
                root_cause: catalog::NPM_CI_FAILURE_CAUSE,
                fixes: &catalog::NPM_CI_FAILURE_FIXES,
                policy: Policy::AnyOf,
                triggers: &catalog::NPM_CI_FAILURE_SIGNALS,
                indicators: &catalog::NO_LITERALS,
            },
            Rule::PnpmInstallFailure => RuleProfile {
                tag: catalog::PNPM_INSTALL_FAILURE_TAG,
                root_cause: catalog::PNPM_INSTALL_FAILURE_CAUSE,
                fixes: &catalog::PNPM_INSTALL_FAILURE_FIXES,
                policy: Policy::AnyOf,
                triggers: &catalog::PNPM_INSTALL_FAILURE_SIGNALS,
                indicators: &catalog::NO_LITERALS,
            },
            Rule::YarnInstallFailure => RuleProfile {
                tag: catalog::YARN_INSTALL_FAILURE_TAG,
                root_cause: catalog::YARN_INSTALL_FAILURE_CAUSE,
                fixes: &catalog::YARN_INSTALL_FAILURE_FIXES,
                policy: Policy::Gated,
                triggers: &catalog::YARN_INSTALL_FAILURE_SIGNALS,
                indicators: &catalog::YARN_INSTALL_FAILURE_INDICATORS,
            },
            Rule::AmplifyYmlError => RuleProfile {
                tag: catalog::AMPLIFY_YML_ERROR_TAG,
                root_cause: catalog::AMPLIFY_YML_ERROR_CAUSE,
                fixes: &catalog::AMPLIFY_YML_ERROR_FIXES,
                policy: Policy::Gated,
                triggers: &catalog::AMPLIFY_YML_ERROR_SIGNALS,
                indicators: &catalog::AMPLIFY_YML_ERROR_INDICATORS,
            },
            Rule::OutOfMemory => RuleProfile {
                tag: catalog::OUT_OF_MEMORY_TAG,
                root_cause: catalog::OUT_OF_MEMORY_CAUSE,
                fixes: &catalog::OUT_OF_MEMORY_FIXES,
                policy: Policy::AnyOf,
                triggers: &catalog::OUT_OF_MEMORY_SIGNALS,
                indicators: &catalog::NO_LITERALS,
            },
            Rule::Timeout => RuleProfile {
                tag: catalog::TIMEOUT_TAG,
                root_cause: catalog::TIMEOUT_CAUSE,
                fixes: &catalog::TIMEOUT_FIXES,
                policy: Policy::AnyOf,
                triggers: &catalog::TIMEOUT_SIGNALS,
                indicators: &catalog::NO_LITERALS,
            },
            Rule::ArtifactPathError => RuleProfile {
                tag: catalog::ARTIFACT_PATH_ERROR_TAG,
                root_cause: catalog::ARTIFACT_PATH_ERROR_CAUSE,
                fixes: &catalog::ARTIFACT_PATH_ERROR_FIXES,
                policy: Policy::Gated,
                triggers: &catalog::ARTIFACT_PATH_ERROR_SIGNALS,
                indicators: &catalog::ARTIFACT_PATH_ERROR_INDICATORS,
            },
            Rule::TypescriptError => RuleProfile {
                tag: catalog::TYPESCRIPT_ERROR_TAG,
                root_cause: catalog::TYPESCRIPT_ERROR_CAUSE,
                fixes: &catalog::TYPESCRIPT_ERROR_FIXES,
                policy: Policy::AnyOf,
                triggers: &catalog::TYPESCRIPT_ERROR_SIGNALS,
                indicators: &catalog::NO_LITERALS,
            },
            Rule::EslintError => RuleProfile {
                tag: catalog::ESLINT_ERROR_TAG,
                root_cause: catalog::ESLINT_ERROR_CAUSE,
                fixes: &catalog::ESLINT_ERROR_FIXES,
                policy: Policy::Compound,
                triggers: &catalog::ESLINT_ERROR_SIGNALS,
                indicators: &catalog::NO_LITERALS,
            },
            Rule::ModuleNotFound => RuleProfile {
                tag: catalog::MODULE_NOT_FOUND_TAG,
                root_cause: catalog::MODULE_NOT_FOUND_CAUSE,
                fixes: &catalog::MODULE_NOT_FOUND_FIXES,
                policy: Policy::AnyOf,
                triggers: &catalog::MODULE_NOT_FOUND_SIGNALS,
                indicators: &catalog::NO_LITERALS,
            },
            Rule::PermissionDenied => RuleProfile {
                tag: catalog::PERMISSION_DENIED_TAG,
                root_cause: catalog::PERMISSION_DENIED_CAUSE,
                fixes: &catalog::PERMISSION_DENIED_FIXES,
                policy: Policy::AnyOf,
                triggers: &catalog::PERMISSION_DENIED_SIGNALS,
                indicators: &catalog::NO_LITERALS,
            },
            Rule::NetworkError => RuleProfile {
                tag: catalog::NETWORK_ERROR_TAG,
                root_cause: catalog::NETWORK_ERROR_CAUSE,
                fixes: &catalog::NETWORK_ERROR_FIXES,
                policy: Policy::AnyOf,
                triggers: &catalog::NETWORK_ERROR_SIGNALS,
                indicators: &catalog::NO_LITERALS,
            },
            Rule::DockerError => RuleProfile {
                tag: catalog::DOCKER_ERROR_TAG,
                root_cause: catalog::DOCKER_ERROR_CAUSE,
                fixes: &catalog::DOCKER_ERROR_FIXES,
                policy: Policy::Gated,
                triggers: &catalog::DOCKER_ERROR_SIGNALS,
                indicators: &catalog::DOCKER_ERROR_INDICATORS,
            },
            Rule::PythonError => RuleProfile {
                tag: catalog::PYTHON_ERROR_TAG,
                root_cause: catalog::PYTHON_ERROR_CAUSE,
                fixes: &catalog::PYTHON_ERROR_FIXES,
                policy: Policy::Gated,
                triggers: &catalog::PYTHON_ERROR_SIGNALS,
                indicators: &catalog::PYTHON_ERROR_INDICATORS,
            },
            Rule::NextJsError => RuleProfile {
                tag: catalog::NEXTJS_ERROR_TAG,
                root_cause: catalog::NEXTJS_ERROR_CAUSE,
                fixes: &catalog::NEXTJS_ERROR_FIXES,
                policy: Policy::Gated,
                triggers: &catalog::NEXTJS_ERROR_SIGNALS,
                indicators: &catalog::NEXTJS_ERROR_INDICATORS,
            },
            Rule::ViteError => RuleProfile {
                tag: catalog::VITE_ERROR_TAG,
                root_cause: catalog::VITE_ERROR_CAUSE,
                fixes: &catalog::VITE_ERROR_FIXES,
                policy: Policy::Gated,
                triggers: &catalog::VITE_ERROR_SIGNALS,
                indicators: &catalog::VITE_ERROR_INDICATORS,
            },
        }
    }

    /// The rule's tag.
    pub open spec fn tag(self) -> Seq<char> {
        self.spec_profile().tag@
    }

    /// The literals of which one must occur for the rule to fire.
    pub open spec fn triggers(self) -> Seq<Seq<char>> {
        texts(self.spec_profile().triggers@)
    }

    /// The literals of which one must occur beside a trigger, for a gated
    /// rule.
    pub open spec fn indicators(self) -> Seq<Seq<char>> {
        texts(self.spec_profile().indicators@)
    }

    /// The text in which the rule looks for its literals: the corpus as
    /// written for a compound rule, the case-folded corpus for the others.
    pub open spec fn reads(self, corpus: Seq<char>, folded: Seq<char>) -> Seq<char> {
        if self.spec_profile().policy == Policy::Compound {
            corpus
        } else {
            folded
        }
    }

    /// The condition of a compound rule.
    pub open spec fn compound_condition(self, corpus: Seq<char>) -> bool {
        match self {
            Rule::LockfileMismatch => lockfiles_conflict(corpus),
            Rule::PackageManagerConflict => managers_invoked(corpus) > 1,
            Rule::EslintError => lint_failed(corpus),
            _ => false,
        }
    }

    /// Whether the rule fires on `corpus`, given the case-folded corpus.
    pub open spec fn fires_on(self, corpus: Seq<char>, folded: Seq<char>) -> bool {
        match self.spec_profile().policy {
            Policy::AnyOf => any_occurs(self.triggers(), folded),
            Policy::Gated => any_occurs(self.triggers(), folded) && any_occurs(
                self.indicators(),
                folded,
            ),
            Policy::Compound => self.compound_condition(corpus),
        }
    }

    /// Whether the rule fires on `corpus`.
    pub open spec fn fires(self, corpus: Seq<char>) -> bool {
        self.fires_on(corpus, lowercase_of(corpus))
    }

    /// The issue that the rule reports when it fires.
    pub open spec fn issue_view(self) -> IssueView {
        IssueView {
            pattern: self.spec_profile().tag@,
            root_cause: self.spec_profile().root_cause@,
            suggested_fixes: texts(self.spec_profile().fixes@),
        }
    }

    /// Builds the issue that the rule reports when it fires.
    pub fn issue(self) -> (issue: Issue)
        ensures
            issue@ == self.issue_view(),
    {
        let profile = self.profile();
        Issue {
            pattern: profile.tag.to_string(),
            root_cause: profile.root_cause.to_string(),
            suggested_fixes: owned_texts(profile.fixes),
        }
    }

    /// Decides whether the rule fires, from the corpus and its case-folded
    /// form.
    pub fn matches(self, corpus: &str, folded: &str) -> (fired: bool)
        ensures
            fired == self.fires_on(corpus@, folded@),
    {
        let profile = self.profile();
        match profile.policy {
            Policy::AnyOf => contains_any(folded, profile.triggers),
            Policy::Gated => contains_any(folded, profile.triggers) && contains_any(
                folded,
                profile.indicators,
            ),
            Policy::Compound => match self {
                Rule::LockfileMismatch => contains_any(corpus, &catalog::NPM_WARNING_MARKERS)
                    && contains_any(corpus, &catalog::NPM_LOCKFILES) && contains_any(
                    corpus,
                    &catalog::FOREIGN_LOCKFILES,
                ),
                Rule::PackageManagerConflict => {
                    let mut invoked: u8 = 0;
                    if contains_any(corpus, &catalog::NPM_INSTALL_COMMANDS) {
                        invoked += 1;
                    }
                    if contains_any(corpus, &catalog::PNPM_INSTALL_COMMANDS) {
                        invoked += 1;
                    }
                    if contains_any(corpus, &catalog::YARN_INSTALL_COMMANDS) {
                        invoked += 1;
                    }
                    invoked > 1
                },
                Rule::EslintError => contains_any(corpus, &catalog::ESLINT_ERROR_SIGNALS)
                    && contains_any(corpus, &catalog::ESLINT_ERROR_INDICATORS) && contains_any(
                    corpus,
                    &catalog::ESLINT_MARKERS,
                ),
                _ => false,
            },
        }
    }

    /// Evaluates the rule on the corpus and its case-folded form: the
    /// rule's issue if it fires, nothing otherwise.
    pub fn check(self, corpus: &str, folded: &str) -> (verdict: Option<Issue>)
        ensures
            verdict is Some <==> self.fires_on(corpus@, folded@),
            verdict matches Some(issue) ==> issue@ == self.issue_view(),
    {
        if self.matches(corpus, folded) {
            Some(self.issue())
        } else {
            None
        }
    }

    /// Evaluates the rule on the corpus.
    pub fn evaluate(self, corpus: &str) -> (verdict: Option<Issue>)
        ensures
            verdict is Some <==> self.fires(corpus@),
            verdict matches Some(issue) ==> issue@ == self.issue_view(),
    {
        let folded = lowercase(corpus);
        self.check(corpus, folded.as_str())
    }
}

/// Looks for conflicting lock files.
pub fn check_lockfile_mismatch(content: &str) -> (verdict: Option<Issue>)
    ensures
        verdict is Some <==> Rule::LockfileMismatch.fires(content@),
        verdict matches Some(issue) ==> issue@ == Rule::LockfileMismatch.issue_view(),
{
    Rule::LockfileMismatch.evaluate(content)
}

/// Looks for more than one package manager.
pub fn check_package_manager_conflict(content: &str) -> (verdict: Option<Issue>)
    ensures
        verdict is Some <==> Rule::PackageManagerConflict.fires(content@),
        verdict matches Some(issue) ==> issue@ == Rule::PackageManagerConflict.issue_view(),
{
    Rule::PackageManagerConflict.evaluate(content)
}

/// Looks for a Node.js version mismatch.
pub fn check_node_version_mismatch(content: &str) -> (verdict: Option<Issue>)
    ensures
        verdict is Some <==> Rule::NodeVersionMismatch.fires(content@),
        verdict matches Some(issue) ==> issue@ == Rule::NodeVersionMismatch.issue_view(),
{
    Rule::NodeVersionMismatch.evaluate(content)
}

/// Looks for missing environment variables.
pub fn check_missing_env_vars(content: &str) -> (verdict: Option<Issue>)
    ensures
        verdict is Some <==> Rule::MissingEnvVars.fires(content@),
        verdict matches Some(issue) ==> issue@ == Rule::MissingEnvVars.issue_view(),
{
    Rule::MissingEnvVars.evaluate(content)
}

/// Looks for a failed `npm ci`.
pub fn check_npm_ci_failure(content: &str) -> (verdict: Option<Issue>)
    ensures
        verdict is Some <==> Rule::NpmCiFailure.fires(content@),
        verdict matches Some(issue) ==> issue@ == Rule::NpmCiFailure.issue_view(),
{
    Rule::NpmCiFailure.evaluate(content)
}

/// Looks for a failed pnpm install.
pub fn check_pnpm_install_failure(content: &str) -> (verdict: Option<Issue>)
    ensures
        verdict is Some <==> Rule::PnpmInstallFailure.fires(content@),
        verdict matches Some(issue) ==> issue@ == Rule::PnpmInstallFailure.issue_view(),
{
    Rule::PnpmInstallFailure.evaluate(content)
}

/// Looks for a failed yarn install.
pub fn check_yarn_install_failure(content: &str) -> (verdict: Option<Issue>)
    ensures
        verdict is Some <==> Rule::YarnInstallFailure.fires(content@),
        verdict matches Some(issue) ==> issue@ == Rule::YarnInstallFailure.issue_view(),
{
    Rule::YarnInstallFailure.evaluate(content)
}

/// Looks for an error in the build specification.
pub fn check_amplify_yml_error(content: &str) -> (verdict: Option<Issue>)
    ensures
        verdict is Some <==> Rule::AmplifyYmlError.fires(content@),
        verdict matches Some(issue) ==> issue@ == Rule::AmplifyYmlError.issue_view(),
{
    Rule::AmplifyYmlError.evaluate(content)
}

/// Looks for exhausted memory.
pub fn check_out_of_memory(content: &str) -> (verdict: Option<Issue>)
    ensures
        verdict is Some <==> Rule::OutOfMemory.fires(content@),
        verdict matches Some(issue) ==> issue@ == Rule::OutOfMemory.issue_view(),
{
    Rule::OutOfMemory.evaluate(content)
}

/// Looks for an exceeded time limit.
pub fn check_timeout(content: &str) -> (verdict: Option<Issue>)
    ensures
        verdict is Some <==> Rule::Timeout.fires(content@),
        verdict matches Some(issue) ==> issue@ == Rule::Timeout.issue_view(),
{
    Rule::Timeout.evaluate(content)
}

/// Looks for a misconfigured artifact path.
pub fn check_artifact_path_error(content: &str) -> (verdict: Option<Issue>)
    ensures
        verdict is Some <==> Rule::ArtifactPathError.fires(content@),
        verdict matches Some(issue) ==> issue@ == Rule::ArtifactPathError.issue_view(),
{
    Rule::ArtifactPathError.evaluate(content)
}

/// Looks for TypeScript compilation errors.
pub fn check_typescript_error(content: &str) -> (verdict: Option<Issue>)
    ensures
        verdict is Some <==> Rule::TypescriptError.fires(content@),
        verdict matches Some(issue) ==> issue@ == Rule::TypescriptError.issue_view(),
{
    Rule::TypescriptError.evaluate(content)
}

/// Looks for lint errors.
pub fn check_eslint_error(content: &str) -> (verdict: Option<Issue>)
    ensures
        verdict is Some <==> Rule::EslintError.fires(content@),
        verdict matches Some(issue) ==> issue@ == Rule::EslintError.issue_view(),
{
    Rule::EslintError.evaluate(content)
}

/// Looks for unresolved modules.
pub fn check_module_not_found(content: &str) -> (verdict: Option<Issue>)
    ensures
        verdict is Some <==> Rule::ModuleNotFound.fires(content@),
        verdict matches Some(issue) ==> issue@ == Rule::ModuleNotFound.issue_view(),
{
    Rule::ModuleNotFound.evaluate(content)
}

/// Looks for file-system permission errors.
pub fn check_permission_denied(content: &str) -> (verdict: Option<Issue>)
    ensures
        verdict is Some <==> Rule::PermissionDenied.fires(content@),
        verdict matches Some(issue) ==> issue@ == Rule::PermissionDenied.issue_view(),
{
    Rule::PermissionDenied.evaluate(content)
}

/// Looks for network errors.
pub fn check_network_error(content: &str) -> (verdict: Option<Issue>)
    ensures
        verdict is Some <==> Rule::NetworkError.fires(content@),
        verdict matches Some(issue) ==> issue@ == Rule::NetworkError.issue_view(),
{
    Rule::NetworkError.evaluate(content)
}

/// Looks for container build errors.
pub fn check_docker_error(content: &str) -> (verdict: Option<Issue>)
    ensures
        verdict is Some <==> Rule::DockerError.fires(content@),
        verdict matches Some(issue) ==> issue@ == Rule::DockerError.issue_view(),
{
    Rule::DockerError.evaluate(content)
}

/// Looks for Python errors.
pub fn check_python_error(content: &str) -> (verdict: Option<Issue>)
    ensures
        verdict is Some <==> Rule::PythonError.fires(content@),
        verdict matches Some(issue) ==> issue@ == Rule::PythonError.issue_view(),
{
    Rule::PythonError.evaluate(content)
}

/// Looks for Next.js build errors.
pub fn check_next_js_error(content: &str) -> (verdict: Option<Issue>)
    ensures
        verdict is Some <==> Rule::NextJsError.fires(content@),
        verdict matches Some(issue) ==> issue@ == Rule::NextJsError.issue_view(),
{
    Rule::NextJsError.evaluate(content)
}

/// Looks for Vite build errors.
pub fn check_vite_error(content: &str) -> (verdict: Option<Issue>)
    ensures
        verdict is Some <==> Rule::ViteError.fires(content@),
        verdict matches Some(issue) ==> issue@ == Rule::ViteError.issue_view(),
{
    Rule::ViteError.evaluate(content)
}

/// The predicate "fires on this corpus", as a function of the rule.
pub open spec fn firing(corpus: Seq<char>, folded: Seq<char>) -> spec_fn(Rule) -> bool {
    |rule: Rule| rule.fires_on(corpus, folded)
}

/// The function from a rule to its issue.
pub open spec fn reporting() -> spec_fn(Rule) -> IssueView {
    |rule: Rule| rule.issue_view()
}

/// The rules that fire, in registry order, given the case-folded corpus.
pub open spec fn fired_rules_on(corpus: Seq<char>, folded: Seq<char>) -> Seq<Rule> {
    REGISTRY@.filter(firing(corpus, folded))
}

/// The issues of the rules that fire, in registry order, given the
/// case-folded corpus.
pub open spec fn diagnosis_on(corpus: Seq<char>, folded: Seq<char>) -> Seq<IssueView> {
    fired_rules_on(corpus, folded).map_values(reporting())
}

/// The rules that fire on a corpus, in registry order.
pub open spec fn fired_rules(corpus: Seq<char>) -> Seq<Rule> {
    fired_rules_on(corpus, lowercase_of(corpus))
}

/// The issues that a corpus is diagnosed with: one for each rule that
/// fires, in registry order.
pub open spec fn diagnosis(corpus: Seq<char>) -> Seq<IssueView> {
    diagnosis_on(corpus, lowercase_of(corpus))
}

/// Runs every rule of the registry once, in order, on the corpus and its
/// case-folded form, and collects the issues of those that fire.
pub fn classify(corpus: &str, folded: &str) -> (issues: Vec<Issue>)
    ensures
        issue_views(issues@) == diagnosis_on(corpus@, folded@),
{
    let mut issues: Vec<Issue> = Vec::new();
    let ghost fired = firing(corpus@, folded@);
    let mut k: usize = 0;
    assert(REGISTRY@.take(0) =~= Seq::<Rule>::empty());
    assert(issue_views(issues@) =~= REGISTRY@.take(0).filter(fired).map_values(reporting()));
    while k < REGISTRY.len()
        invariant
            k <= REGISTRY@.len(),
            fired == firing(corpus@, folded@),
            issue_views(issues@) == REGISTRY@.take(k as int).filter(fired).map_values(
                reporting(),
            ),
        decreases REGISTRY@.len() - k,
    {
        let rule = REGISTRY[k];
        let ghost before = REGISTRY@.take(k as int);
        let ghost reported = issue_views(issues@);
        proof {
            assert(REGISTRY@.take(k + 1) =~= before.push(rule));
            before.lemma_filter_push(rule, fired);
        }
        match rule.check(corpus, folded) {
            Some(issue) => {
                issues.push(issue);
                proof {
                    before.filter(fired).lemma_push_map_commute(reporting(), rule);
                    assert(issue_views(issues@) =~= reported.push(issue@));
                }
            },
            None => {},
        }
        k += 1;
    }
    assert(REGISTRY@.take(REGISTRY@.len() as int) =~= REGISTRY@);
    issues
}

/// Diagnoses a job from the full text of its logs: the issues of all the
/// rules that fire on `raw_content`, in registry order.
pub fn analyze_logs(logs: &LogContent) -> (issues: Vec<Issue>)
    ensures
        issue_views(issues@) == diagnosis(logs.raw_content@),
{
    let folded = lowercase(logs.raw_content.as_str());
    classify(logs.raw_content.as_str(), folded.as_str())
}

/// Filtering a sequence without repetitions leaves a sequence without
/// repetitions.
proof fn lemma_filter_keeps_distinct<A>(s: Seq<A>, pred: spec_fn(A) -> bool)
    requires
        s.no_duplicates(),
    ensures
        s.filter(pred).no_duplicates(),
    decreases s.len(),
{
    if s.len() == 0 {
        reveal(Seq::filter);
    } else {
        let init = s.drop_last();
        let last = s.last();
        assert(init.push(last) =~= s);
        lemma_filter_keeps_distinct(init, pred);
        init.lemma_filter_push(last, pred);
        let kept = init.filter(pred);
        assert forall|i: int| 0 <= i < kept.len() implies kept[i] != last by {
            if kept[i] == last {
                assert(kept.contains(last));
                init.lemma_filter_contains_rev(pred, last);
                let j = init.index_of(last);
                assert(s[j] == s[s.len() - 1]);
            }
        }
    }
}

/// The registry holds every rule, once.
pub proof fn lemma_registry_is_complete()
    ensures
        REGISTRY@.no_duplicates(),
        forall|rule: Rule| REGISTRY@.contains(rule),
{
    assert forall|rule: Rule| REGISTRY@.contains(rule) by {
        let k: int = match rule {
            Rule::LockfileMismatch => 0,
            Rule::PackageManagerConflict => 1,
            Rule::NodeVersionMismatch => 2,
            Rule::MissingEnvVars => 3,
            Rule::NpmCiFailure => 4,
            Rule::PnpmInstallFailure => 5,
            Rule::YarnInstallFailure => 6,
            Rule::AmplifyYmlError => 7,
            Rule::OutOfMemory => 8,
            Rule::Timeout => 9,
            Rule::ArtifactPathError => 10,
            Rule::TypescriptError => 11,
            Rule::EslintError => 12,
            Rule::ModuleNotFound => 13,
            Rule::PermissionDenied => 14,
            Rule::NetworkError => 15,
            Rule::DockerError => 16,
            Rule::PythonError => 17,
            Rule::NextJsError => 18,
            Rule::ViteError => 19,
        };
        assert(REGISTRY@[k] == rule);
    }
}

/// No two rules share a tag.
pub proof fn lemma_tags_are_distinct(a: Rule, b: Rule)
    requires
        a != b,
    ensures
        a.tag() != b.tag(),
{
    reveal_strlit("lockfile_mismatch");
    reveal_strlit("package_manager_conflict");
    reveal_strlit("node_version_mismatch");
    reveal_strlit("missing_env_vars");
    reveal_strlit("npm_ci_failure");
    reveal_strlit("pnpm_install_failure");
    reveal_strlit("yarn_install_failure");
    reveal_strlit("amplify_yml_error");
    reveal_strlit("out_of_memory");
    reveal_strlit("timeout");
    reveal_strlit("artifact_path_error");
    reveal_strlit("typescript_error");
    reveal_strlit("eslint_error");
    reveal_strlit("module_not_found");
    reveal_strlit("permission_denied");
    reveal_strlit("network_error");
    reveal_strlit("docker_error");
    reveal_strlit("python_error");
    reveal_strlit("nextjs_error");
    reveal_strlit("vite_error");
    let s = a.tag();
    let t = b.tag();
    assert(s.len() != t.len() || s[0] != t[0] || s[1] != t[1]);
}

/// A rule that fires has found one of its triggers in the text that it
/// reads.
pub proof fn lemma_firing_needs_trigger(rule: Rule, corpus: Seq<char>, folded: Seq<char>)
    requires
        rule.fires_on(corpus, folded),
    ensures
        any_occurs(rule.triggers(), rule.reads(corpus, folded)),
{
    if rule == Rule::PackageManagerConflict {
        let all = texts(catalog::INSTALL_COMMANDS@);
        if any_occurs(texts(catalog::NPM_INSTALL_COMMANDS@), corpus) {
            let k = choose|k: int|
                0 <= k < 2 && occurs_in(
                    #[trigger] texts(catalog::NPM_INSTALL_COMMANDS@)[k],
                    corpus,
                );
            assert(all[k] == texts(catalog::NPM_INSTALL_COMMANDS@)[k]);
        } else if any_occurs(texts(catalog::PNPM_INSTALL_COMMANDS@), corpus) {
            assert(all[2] == texts(catalog::PNPM_INSTALL_COMMANDS@)[0]);
        } else {
            assert(any_occurs(texts(catalog::YARN_INSTALL_COMMANDS@), corpus));
            assert(all[3] == texts(catalog::YARN_INSTALL_COMMANDS@)[0]);
        }
    }
}

/// A gated rule abstains when none of its indicators occurs, whatever
/// triggers are present.
pub proof fn lemma_gated_rule_needs_indicator(rule: Rule, corpus: Seq<char>, folded: Seq<char>)
    requires
        rule.spec_profile().policy == Policy::Gated,
        !any_occurs(rule.indicators(), folded),
    ensures
        !rule.fires_on(corpus, folded),
{
}

/// A rule that is not compound decides by occurrence alone: an any-of rule
/// fires exactly when a trigger occurs in the case-folded corpus, a gated
/// rule exactly when a trigger and an indicator both do.
pub proof fn lemma_literal_rule_decision(rule: Rule, corpus: Seq<char>, folded: Seq<char>)
    requires
        rule.spec_profile().policy != Policy::Compound,
    ensures
        rule.fires_on(corpus, folded) <==> any_occurs(rule.triggers(), folded) && (
        rule.spec_profile().policy == Policy::Gated ==> any_occurs(rule.indicators(), folded)),
{
}

/// A corpus in which no rule finds any of its trigger literals is diagnosed
/// with nothing.
pub proof fn lemma_clean_corpus_has_no_issue(corpus: Seq<char>)
    requires
        forall|rule: Rule|
            !any_occurs(
                #[trigger] rule.triggers(),
                rule.reads(corpus, lowercase_of(corpus)),
            ),
    ensures
        diagnosis(corpus) == Seq::<IssueView>::empty(),
{
    let folded = lowercase_of(corpus);
    let fired = firing(corpus, folded);
    assert forall|k: int| 0 <= k < REGISTRY@.len() implies !fired(#[trigger] REGISTRY@[k]) by {
        let rule = REGISTRY@[k];
        assert(!any_occurs(rule.triggers(), rule.reads(corpus, folded)));
        if rule.fires_on(corpus, folded) {
            lemma_firing_needs_trigger(rule, corpus, folded);
        }
    }
    assert(REGISTRY@.all(|rule: Rule| !fired(rule)));
    REGISTRY@.lemma_all_neg_filter_empty(fired);
    assert(diagnosis(corpus) =~= Seq::<IssueView>::empty());
}

/// The diagnosis depends on the raw content alone: corpora with the same
/// raw content get the same issues in the same order.
pub proof fn lemma_diagnosis_is_determined_by_raw_content(first: LogContent, second: LogContent)
    requires
        first.raw_content@ == second.raw_content@,
    ensures
        diagnosis(first.raw_content@) == diagnosis(second.raw_content@),
{
}

/// Each rule that fires contributes exactly one issue, its own: the rules
/// that fire are listed without repetition, the diagnosis has one issue per
/// listed rule, at the same position, and no two issues share a tag.
pub proof fn lemma_one_issue_per_firing_rule(corpus: Seq<char>)
    ensures
        fired_rules(corpus).no_duplicates(),
        forall|rule: Rule| fired_rules(corpus).contains(rule) <==> rule.fires(corpus),
        diagnosis(corpus).len() == fired_rules(corpus).len(),
        diagnosis(corpus).len() == Set::new(|rule: Rule| rule.fires(corpus)).len(),
        forall|i: int|
            0 <= i < diagnosis(corpus).len() ==> #[trigger] diagnosis(corpus)[i] == fired_rules(
                corpus,
            )[i].issue_view(),
        forall|i: int, j: int|
            0 <= i < j < diagnosis(corpus).len() ==> diagnosis(corpus)[i].pattern != diagnosis(
                corpus,
            )[j].pattern,
{
    let folded = lowercase_of(corpus);
    let fired = firing(corpus, folded);
    let rules = fired_rules(corpus);
    lemma_registry_is_complete();
    lemma_filter_keeps_distinct(REGISTRY@, fired);
    assert forall|rule: Rule| rules.contains(rule) <==> rule.fires(corpus) by {
        if rules.contains(rule) {
            let i = rules.index_of(rule);
            REGISTRY@.lemma_filter_pred(fired, i);
        }
        if rule.fires(corpus) {
            let k = REGISTRY@.index_of(rule);
            REGISTRY@.lemma_filter_contains(fired, k);
        }
    }
    assert forall|i: int, j: int| 0 <= i < j < diagnosis(corpus).len() implies diagnosis(
        corpus,
    )[i].pattern != diagnosis(corpus)[j].pattern by {
        assert(rules[i] != rules[j]);
        lemma_tags_are_distinct(rules[i], rules[j]);
    }
    rules.unique_seq_to_set();
    assert(rules.to_set() =~= Set::new(|rule: Rule| rule.fires(corpus)));
}

/// In a sequence without repetitions, a member is found where it stands.
proof fn lemma_index_of_member<A>(s: Seq<A>, k: int)
    requires
        s.no_duplicates(),
        0 <= k < s.len(),
    ensures
        s.index_of(s[k]) == k,
{
    let found = s.index_of(s[k]);
    assert(0 <= found < s.len() && s[found] == s[k]);
}

/// Filtering a sequence without repetitions keeps the order of its
/// members.
proof fn lemma_filter_keeps_order<A>(s: Seq<A>, pred: spec_fn(A) -> bool, i: int, j: int)
    requires
        s.no_duplicates(),
        0 <= i < j < s.filter(pred).len(),
    ensures
        0 <= s.index_of(s.filter(pred)[i]) < s.index_of(s.filter(pred)[j]) < s.len(),
    decreases s.len(),
{
    if s.len() == 0 {
        reveal(Seq::filter);
    } else {
        let init = s.drop_last();
        let last = s.last();
        assert(init.push(last) =~= s);
        init.lemma_filter_push(last, pred);
        let kept = init.filter(pred);
        let x = s.filter(pred)[i];
        let y = s.filter(pred)[j];
        assert(kept[i] == x);
        assert(kept.contains(x));
        init.lemma_filter_contains_rev(pred, x);
        let at_x = init.index_of(x);
        assert(s[at_x] == x);
        lemma_index_of_member(s, at_x);
        if j < kept.len() {
            assert(kept[j] == y);
            assert(kept.contains(y));
            init.lemma_filter_contains_rev(pred, y);
            let at_y = init.index_of(y);
            assert(s[at_y] == y);
            lemma_index_of_member(s, at_y);
            lemma_filter_keeps_order(init, pred, i, j);
        } else {
            assert(y == last);
            lemma_index_of_member(s, s.len() - 1);
        }
    }
}

/// The issues come in the order of the registry: of two rules that fire,
/// the one that stands first in the registry is reported first.
pub proof fn lemma_issues_follow_registry_order(corpus: Seq<char>, i: int, j: int)
    requires
        0 <= i < j < fired_rules(corpus).len(),
    ensures
        REGISTRY@.index_of(fired_rules(corpus)[i]) < REGISTRY@.index_of(fired_rules(corpus)[j]),
        diagnosis(corpus)[i] == fired_rules(corpus)[i].issue_view(),
        diagnosis(corpus)[j] == fired_rules(corpus)[j].issue_view(),
{
    lemma_registry_is_complete();
    lemma_filter_keeps_order(REGISTRY@, firing(corpus, lowercase_of(corpus)), i, j);
}

} // verus!
