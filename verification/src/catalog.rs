//! The data of the failure rules: tags, explanations, remedies and trigger
//! literals. Trigger lists that are matched against the case-folded corpus
//! are written in lower case.

use vstd::prelude::*;

verus! {

/// The empty list of literals.
pub const NO_LITERALS: [&'static str; 0] = [];

// Conflicting lock files.
pub const LOCKFILE_MISMATCH_TAG: &'static str = "lockfile_mismatch";

pub const LOCKFILE_MISMATCH_CAUSE: &'static str =
    "Multiple lock files detected or package manager mismatch";

pub const LOCKFILE_MISMATCH_FIXES: [&'static str; 3] = [
    "Remove conflicting lock files (keep only one)",
    "Update amplify.yml to use the correct package manager",
    "Run 'npm ci' with package-lock.json OR 'pnpm install --frozen-lockfile' with pnpm-lock.yaml",
];

pub const NPM_WARNING_MARKERS: [&'static str; 1] = ["npm WARN"];

pub const NPM_LOCKFILES: [&'static str; 2] = ["package-lock.json", "npm-shrinkwrap.json"];

pub const FOREIGN_LOCKFILES: [&'static str; 2] = ["pnpm-lock.yaml", "yarn.lock"];

// More than one package manager.
pub const PACKAGE_MANAGER_CONFLICT_TAG: &'static str = "package_manager_conflict";

pub const PACKAGE_MANAGER_CONFLICT_CAUSE: &'static str =
    "Multiple package managers detected in build";

pub const PACKAGE_MANAGER_CONFLICT_FIXES: [&'static str; 3] = [
    "Use only one package manager consistently",
    "Update amplify.yml preBuild and build commands",
    "Ensure CI environment matches local development",
];

pub const INSTALL_COMMANDS: [&'static str; 4] = [
    "npm install",
    "npm ci",
    "pnpm install",
    "yarn install",
];

pub const NPM_INSTALL_COMMANDS: [&'static str; 2] = ["npm install", "npm ci"];

pub const PNPM_INSTALL_COMMANDS: [&'static str; 1] = ["pnpm install"];

pub const YARN_INSTALL_COMMANDS: [&'static str; 1] = ["yarn install"];

// Node.js version.
pub const NODE_VERSION_MISMATCH_TAG: &'static str = "node_version_mismatch";

pub const NODE_VERSION_MISMATCH_CAUSE: &'static str =
    "Node.js version in Amplify doesn't match project requirements";

pub const NODE_VERSION_MISMATCH_FIXES: [&'static str; 4] = [
    "Add 'nvm use' to preBuild commands in amplify.yml",
    "Set Node.js version in Amplify console build settings",
    "Add .nvmrc file to repository root",
    "Update package.json engines field",
];

pub const NODE_VERSION_MISMATCH_SIGNALS: [&'static str; 6] = [
    "engine \"node\" is incompatible",
    "the engine \"node\" is incompatible",
    "expected node version",
    "node_version",
    "nvm use",
    "unsupported engine",
];

// Environment variables.
pub const MISSING_ENV_VARS_TAG: &'static str = "missing_env_vars";

pub const MISSING_ENV_VARS_CAUSE: &'static str =
    "Required environment variables are not configured";

pub const MISSING_ENV_VARS_FIXES: [&'static str; 3] = [
    "Add missing environment variables in Amplify console",
    "Check for typos in variable names",
    "Ensure variables are set for the correct branch/environment",
];

pub const MISSING_ENV_VARS_SIGNALS: [&'static str; 7] = [
    "environment variable",
    "env var",
    "process.env",
    "undefined variable",
    "react_app_",
    "next_public_",
    "vite_",
];

pub const MISSING_ENV_VARS_INDICATORS: [&'static str; 4] = [
    "undefined",
    "not set",
    "missing",
    "required",
];

// npm ci.
pub const NPM_CI_FAILURE_TAG: &'static str = "npm_ci_failure";

pub const NPM_CI_FAILURE_CAUSE: &'static str =
    "npm ci failed - likely due to package-lock.json sync issues";

pub const NPM_CI_FAILURE_FIXES: [&'static str; 3] = [
    "Run 'npm install' locally to regenerate package-lock.json",
    "Commit the updated package-lock.json",
    "Ensure package-lock.json is not in .gitignore",
];

pub const NPM_CI_FAILURE_SIGNALS: [&'static str; 4] = [
    "npm err! cipm can only install",
    "npm err! `npm ci` can only install",
    "npm err! code eusage",
    "npm err! the `npm ci` command",
];

// pnpm install.
pub const PNPM_INSTALL_FAILURE_TAG: &'static str = "pnpm_install_failure";

pub const PNPM_INSTALL_FAILURE_CAUSE: &'static str = "pnpm installation failed";

pub const PNPM_INSTALL_FAILURE_FIXES: [&'static str; 3] = [
    "Install pnpm in preBuild: 'npm install -g pnpm'",
    "Run 'pnpm install' locally to update lock file",
    "Check pnpm version compatibility",
];

pub const PNPM_INSTALL_FAILURE_SIGNALS: [&'static str; 5] = [
    "err_pnpm_",
    "pnpm: command not found",
    "warn  moving",
    "err_pnpm_peer_dep_issues",
    "err_pnpm_lockfile_breaking_change",
];

// yarn install.
pub const YARN_INSTALL_FAILURE_TAG: &'static str = "yarn_install_failure";

pub const YARN_INSTALL_FAILURE_CAUSE: &'static str = "Yarn installation failed";

pub const YARN_INSTALL_FAILURE_FIXES: [&'static str; 3] = [
    "Run 'yarn install' locally and commit yarn.lock",
    "Ensure yarn is installed in preBuild: 'npm install -g yarn'",
    "Check yarn version compatibility",
];

pub const YARN_INSTALL_FAILURE_SIGNALS: [&'static str; 6] = [
    "error an unexpected error occurred",
    "yarn install",
    "yn0001",
    "yn0002",
    "yarn_",
    "yarn.lock",
];

pub const YARN_INSTALL_FAILURE_INDICATORS: [&'static str; 4] = [
    "error",
    "failed",
    "enoent",
    "eperm",
];

// Build specification.
pub const AMPLIFY_YML_ERROR_TAG: &'static str = "amplify_yml_error";

pub const AMPLIFY_YML_ERROR_CAUSE: &'static str =
    "amplify.yml buildspec has configuration errors";

pub const AMPLIFY_YML_ERROR_FIXES: [&'static str; 4] = [
    "Validate YAML syntax in amplify.yml",
    "Check indentation (use spaces, not tabs)",
    "Verify all required phases are defined (preBuild, build, artifacts)",
    "Reference: https://docs.aws.amazon.com/amplify/latest/userguide/build-settings.html",
];

pub const AMPLIFY_YML_ERROR_SIGNALS: [&'static str; 5] = [
    "amplify.yml",
    "buildspec",
    "yamlexception",
    "invalid buildspec",
    "build specification",
];

pub const AMPLIFY_YML_ERROR_INDICATORS: [&'static str; 4] = [
    "error",
    "invalid",
    "failed to parse",
    "syntax",
];

// Memory.
pub const OUT_OF_MEMORY_TAG: &'static str = "out_of_memory";

pub const OUT_OF_MEMORY_CAUSE: &'static str = "Build process ran out of memory";

pub const OUT_OF_MEMORY_FIXES: [&'static str; 3] = [
    "Add NODE_OPTIONS=--max_old_space_size=4096 to environment variables",
    "Optimize build by reducing bundle size",
    "Consider using a larger Amplify build instance",
];

pub const OUT_OF_MEMORY_SIGNALS: [&'static str; 6] = [
    "fatal error: call_and_retry_last allocation failed",
    "fatal error: ineffective mark-compacts",
    "javascript heap out of memory",
    "enomem",
    "out of memory",
    "oomkilled",
];

// Time limit.
pub const TIMEOUT_TAG: &'static str = "timeout";

pub const TIMEOUT_CAUSE: &'static str = "Build exceeded time limit";

pub const TIMEOUT_FIXES: [&'static str; 4] = [
    "Increase build timeout in Amplify console",
    "Optimize build steps to run faster",
    "Check for hanging processes or infinite loops",
    "Consider caching node_modules",
];

pub const TIMEOUT_SIGNALS: [&'static str; 5] = [
    "timed out",
    "timeout",
    "build timeout",
    "exceeded time limit",
    "etimedout",
];

// Artifact path.
pub const ARTIFACT_PATH_ERROR_TAG: &'static str = "artifact_path_error";

pub const ARTIFACT_PATH_ERROR_CAUSE: &'static str =
    "Build artifacts directory not found or misconfigured";

pub const ARTIFACT_PATH_ERROR_FIXES: [&'static str; 3] = [
    "Verify baseDirectory in amplify.yml matches actual build output",
    "Common paths: 'dist', 'build', '.next', 'out'",
    "Ensure build command actually generates output",
];

pub const ARTIFACT_PATH_ERROR_SIGNALS: [&'static str; 5] = [
    "artifacts basedirectory",
    "no such file or directory",
    "enoent",
    "build artifacts not found",
    "basedirectory",
];

pub const ARTIFACT_PATH_ERROR_INDICATORS: [&'static str; 5] = [
    "artifacts",
    "output",
    "dist",
    "build",
    ".next",
];

// TypeScript.
pub const TYPESCRIPT_ERROR_TAG: &'static str = "typescript_error";

pub const TYPESCRIPT_ERROR_CAUSE: &'static str = "TypeScript compilation failed";

pub const TYPESCRIPT_ERROR_FIXES: [&'static str; 4] = [
    "Fix TypeScript errors locally before pushing",
    "Run 'npx tsc --noEmit' to check for errors",
    "Ensure all type definitions are installed (@types/*)",
    "Check tsconfig.json for correct configuration",
];

pub const TYPESCRIPT_ERROR_SIGNALS: [&'static str; 8] = [
    "error ts",
    "ts2304",
    "ts2307",
    "ts2345",
    "ts2339",
    "cannot find module",
    "type error:",
    "tsc exited with code",
];

// ESLint.
pub const ESLINT_ERROR_TAG: &'static str = "eslint_error";

pub const ESLINT_ERROR_CAUSE: &'static str = "ESLint validation failed";

pub const ESLINT_ERROR_FIXES: [&'static str; 3] = [
    "Run 'npm run lint' or 'npx eslint .' locally",
    "Fix linting errors or adjust rules in .eslintrc",
    "Consider adding 'CI=false' to skip lint warnings as errors",
];

pub const ESLINT_ERROR_SIGNALS: [&'static str; 5] = [
    "eslint",
    "ESLint",
    "Parsing error:",
    "error  ",
    "\u{e2}\u{153}\u{2013} ",
];

pub const ESLINT_ERROR_INDICATORS: [&'static str; 4] = [
    "problems",
    "error",
    "Rule:",
    "eslint-disable",
];

pub const ESLINT_MARKERS: [&'static str; 1] = ["eslint"];

// Module resolution.
pub const MODULE_NOT_FOUND_TAG: &'static str = "module_not_found";

pub const MODULE_NOT_FOUND_CAUSE: &'static str = "Required module/package not found";

pub const MODULE_NOT_FOUND_FIXES: [&'static str; 4] = [
    "Ensure all dependencies are listed in package.json",
    "Check import paths for typos or case sensitivity",
    "Verify the module is not in devDependencies when needed in production",
    "Run 'npm install' to ensure all packages are installed",
];

pub const MODULE_NOT_FOUND_SIGNALS: [&'static str; 5] = [
    "module not found",
    "cannot find module",
    "module build failed",
    "modulenotfounderror",
    "error: cannot resolve",
];

// File-system permissions.
pub const PERMISSION_DENIED_TAG: &'static str = "permission_denied";

pub const PERMISSION_DENIED_CAUSE: &'static str = "File system permission error";

pub const PERMISSION_DENIED_FIXES: [&'static str; 3] = [
    "Avoid writing to read-only directories",
    "Use /tmp for temporary files in Amplify builds",
    "Check file permissions in repository",
];

pub const PERMISSION_DENIED_SIGNALS: [&'static str; 4] = [
    "eacces",
    "permission denied",
    "eperm",
    "operation not permitted",
];

// Network.
pub const NETWORK_ERROR_TAG: &'static str = "network_error";

pub const NETWORK_ERROR_CAUSE: &'static str = "Network connectivity issue during build";

pub const NETWORK_ERROR_FIXES: [&'static str; 3] = [
    "Retry the build - may be a transient network issue",
    "Check if npm registry or external services are accessible",
    "Consider using a private npm registry or cache",
];

pub const NETWORK_ERROR_SIGNALS: [&'static str; 7] = [
    "enotfound",
    "econnrefused",
    "econnreset",
    "eai_again",
    "getaddrinfo",
    "network request failed",
    "socket hang up",
];

// Containers.
pub const DOCKER_ERROR_TAG: &'static str = "docker_error";

pub const DOCKER_ERROR_CAUSE: &'static str = "Docker/container build issue";

pub const DOCKER_ERROR_FIXES: [&'static str; 3] = [
    "Verify Dockerfile syntax and base image availability",
    "Check Docker build context and .dockerignore",
    "Ensure Docker commands are supported in Amplify build environment",
];

pub const DOCKER_ERROR_SIGNALS: [&'static str; 4] = [
    "docker",
    "dockerfile",
    "container",
    "docker_",
];

pub const DOCKER_ERROR_INDICATORS: [&'static str; 4] = ["error", "failed", "not found", "denied"];

// Python.
pub const PYTHON_ERROR_TAG: &'static str = "python_error";

pub const PYTHON_ERROR_CAUSE: &'static str = "Python dependency or syntax error";

pub const PYTHON_ERROR_FIXES: [&'static str; 3] = [
    "Add Python packages to requirements.txt",
    "Install Python dependencies in preBuild phase",
    "Verify Python version compatibility",
];

pub const PYTHON_ERROR_SIGNALS: [&'static str; 5] = [
    "modulenotfounderror: no module named",
    "pip install",
    "python:",
    "syntaxerror:",
    "importerror:",
];

pub const PYTHON_ERROR_INDICATORS: [&'static str; 3] = ["error", "failed", "not found"];

// Next.js.
pub const NEXTJS_ERROR_TAG: &'static str = "nextjs_error";

pub const NEXTJS_ERROR_CAUSE: &'static str = "Next.js build or configuration error";

pub const NEXTJS_ERROR_FIXES: [&'static str; 4] = [
    "Run 'npm run build' locally to reproduce the error",
    "Check getStaticProps/getServerSideProps for runtime errors",
    "Verify NEXT_PUBLIC_* environment variables are set",
    "Set baseDirectory to '.next' in amplify.yml artifacts",
];

pub const NEXTJS_ERROR_SIGNALS: [&'static str; 6] = [
    "next build",
    "error occurred prerendering",
    "getstaticprops",
    "getserversideprops",
    "next.config",
    "next_",
];

pub const NEXTJS_ERROR_INDICATORS: [&'static str; 3] = ["error", "failed", "error:"];

// Vite.
pub const VITE_ERROR_TAG: &'static str = "vite_error";

pub const VITE_ERROR_CAUSE: &'static str = "Vite build or bundling error";

pub const VITE_ERROR_FIXES: [&'static str; 4] = [
    "Run 'npm run build' locally to reproduce",
    "Verify VITE_* environment variables are set in Amplify",
    "Set baseDirectory to 'dist' in amplify.yml artifacts",
    "Check vite.config.ts for build configuration issues",
];

pub const VITE_ERROR_SIGNALS: [&'static str; 5] = [
    "vite build",
    "vite:",
    "vite_",
    "rollup",
    "esbuild",
];

pub const VITE_ERROR_INDICATORS: [&'static str; 3] = ["error", "failed", "error:"];

} // verus!
