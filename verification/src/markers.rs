//! The markers by which features of the first generation are recognised in
//! the files of a project. A table of markers is a set of columns of equal
//! length; a row is what the columns hold at one index. A row has two
//! needles, which are the same where one is enough; a text that may be
//! absent is empty where it is.

use crate::migration::Support;
use vstd::prelude::*;

verus! {

// Directives of a GraphQL schema.
pub const SCHEMA_NEEDLES: [[&'static str; 2]; 8] = [
    ["@searchable", "@searchable"],
    ["@predictions", "@predictions"],
    ["@model", "@model"],
    ["@manyToMany", "@manyToMany"],
    ["@versioned", "_version"],
    ["@function", "@function"],
    ["@auth", "@auth"],
    ["@http", "@http"],
];

pub const SCHEMA_FEATURES: [&'static str; 8] = [
    "@searchable directive",
    "@predictions directive",
    "@model directive",
    "@manyToMany directive",
    "DataStore / Conflict Resolution",
    "@function resolver",
    "@auth directive",
    "@http directive",
];

pub const SCHEMA_LOCATED: [&'static str; 8] = [
    "@searchable",
    "@predictions",
    "@model",
    "@manyToMany",
    "",
    "@function",
    "@auth",
    "@http",
];

pub const SCHEMA_SUPPORT: [Support; 8] = [
    Support::Absent,
    Support::Absent,
    Support::Full,
    Support::Manual,
    Support::Absent,
    Support::Full,
    Support::Full,
    Support::Full,
];

pub const SCHEMA_DETAILS: [&'static str; 8] = [
    "Use Zero-ETL DynamoDB-to-OpenSearch integration",
    "Use AI service integrations directly",
    "",
    "Implement with intermediate join table",
    "DataStore migration guide coming soon",
    "",
    "",
    "",
];

pub const SCHEMA_HINTS: [&'static str; 8] = [
    "Replace @searchable with Zero-ETL DynamoDB-to-OpenSearch. See: https://docs.amplify.aws/react/build-a-backend/data/connect-to-existing-data-sources/",
    "Gen2 offers AI service integrations instead of @predictions. See Bedrock and other AI integrations.",
    "Models are fully supported in Gen2. Use defineData() with a.model() in your schema.",
    "Gen2 doesn't have @manyToMany. Create an intermediate model to represent the relationship.",
    "DataStore is not yet supported in Gen2. Continue using Gen1 if DataStore is critical.",
    "Function resolvers are supported in Gen2. Use a.handler.function() in your schema.",
    "Auth rules are supported in Gen2. Use .authorization() on your models.",
    "HTTP data sources are supported via custom data sources in Gen2.",
];

pub const SCHEMA_BLOCKING: [&'static str; 8] = [
    "@searchable directive is not supported in Gen2",
    "@predictions directive is not supported in Gen2",
    "",
    "",
    "DataStore is not supported in Gen2",
    "",
    "",
    "",
];

pub const SCHEMA_WARNINGS: [&'static str; 8] = [
    "",
    "",
    "",
    "@manyToMany requires manual migration with join table",
    "",
    "",
    "",
    "",
];

// Settings of the auth category.
pub const AUTH_NEEDLES: [[&'static str; 2]; 4] = [
    ["\"adminQueries\"", "adminQueries"],
    ["\"mfaConfiguration\"", "\"mfaConfiguration\""],
    ["\"hostedUI\"", "\"oAuth\""],
    ["\"triggers\"", "\"triggers\""],
];

pub const AUTH_FEATURES: [&'static str; 4] = [
    "Admin Queries",
    "MFA Configuration",
    "OAuth/Social Login",
    "Auth Triggers",
];

pub const AUTH_SUPPORT: [Support; 4] = [
    Support::WithCdk,
    Support::Full,
    Support::Full,
    Support::Full,
];

pub const AUTH_HINTS: [&'static str; 4] = [
    "Admin queries require CDK customization in Gen2.",
    "MFA is fully supported in Gen2 with defineAuth().",
    "OAuth and social logins are supported. Gen2 has first-class OIDC and SAML support.",
    "Auth triggers are supported in Gen2. Define them with triggers property in defineAuth().",
];

pub const FOUR_EMPTY: [&'static str; 4] = ["", "", "", ""];

// Settings of a storage bucket.
pub const STORAGE_NEEDLES: [[&'static str; 2]; 1] = [
    ["\"triggerFunction\"", "\"triggerFunction\""],
];

pub const STORAGE_FEATURES: [&'static str; 1] = ["S3 Lambda Trigger"];

pub const STORAGE_SUPPORT: [Support; 1] = [Support::Full];

pub const STORAGE_HINTS: [&'static str; 1] = [
    "S3 triggers are supported in Gen2. Use onUpload/onDelete in defineStorage().",
];

pub const ONE_EMPTY: [&'static str; 1] = [""];

// Settings of the GraphQL transformer.
pub const TRANSFORM_NEEDLES: [[&'static str; 2]; 1] = [["\"transformers\"", "\"transformers\""]];

pub const TRANSFORM_FEATURES: [&'static str; 1] = ["Custom GraphQL Transformers"];

pub const TRANSFORM_SUPPORT: [Support; 1] = [Support::Absent];

pub const TRANSFORM_DETAILS: [&'static str; 1] = ["Use custom business logic in handlers"];

pub const TRANSFORM_HINTS: [&'static str; 1] = [
    "Custom GraphQL transformers are not supported in Gen2. Implement custom logic in function handlers.",
];

pub const TRANSFORM_BLOCKING: [&'static str; 1] = ["Custom GraphQL transformers not supported"];

// Settings of an API.
pub const REST_NEEDLES: [[&'static str; 2]; 1] = [["\"REST\"", "\"REST\""]];

pub const REST_FEATURES: [&'static str; 1] = ["REST API"];

pub const REST_SUPPORT: [Support; 1] = [Support::WithCdk];

pub const REST_HINTS: [&'static str; 1] = [
    "REST APIs require CDK customization in Gen2. Use API Gateway CDK constructs.",
];

// Categories.
pub const API: &'static str = "api";

pub const AUTH: &'static str = "auth";

pub const STORAGE: &'static str = "storage";

pub const FUNCTION: &'static str = "function";

pub const GEO: &'static str = "geo";

pub const ANALYTICS: &'static str = "analytics";

pub const INTERACTIONS: &'static str = "interactions";

// What a project has by having a directory.
pub const S3_STORAGE_FEATURE: &'static str = "S3 Storage";

pub const S3_STORAGE_HINT: &'static str =
    "S3 storage is fully supported in Gen2. Use defineStorage() to configure.";

pub const GEO_FEATURE: &'static str = "Location Services (Geo)";

pub const GEO_HINT: &'static str =
    "Geo requires CDK customization in Gen2. Use AWS Location Service CDK constructs.";

pub const ANALYTICS_FEATURE: &'static str = "Analytics (Pinpoint)";

pub const ANALYTICS_HINT: &'static str =
    "Analytics requires CDK customization in Gen2. Use Pinpoint CDK constructs.";

pub const INTERACTIONS_FEATURE: &'static str = "Interactions (Lex Bots)";

pub const INTERACTIONS_HINT: &'static str =
    "Interactions requires CDK customization in Gen2. Use Lex CDK constructs.";

// Parameters of a function.
pub const LAYERS_NEEDLES: [&'static str; 2] = ["\"lambdaLayers\"", "\"layers\""];

pub const LAYERS_FEATURE: &'static str = "Lambda Layers (";

pub const LAYERS_ALTERNATIVE: &'static str = "Bundle dependencies directly or use CDK";

pub const LAYERS_HINT: &'static str =
    "Lambda layers are not supported in Gen2. Bundle dependencies in your function or use CDK.";

pub const LAYERS_WARNING_START: &'static str = "Lambda layers in function '";

pub const LAYERS_WARNING_END: &'static str = "' need alternative approach";

pub const PYTHON_NEEDLES: [&'static str; 1] = ["\"python\""];

pub const PYTHON_FEATURE: &'static str = "Python Runtime (";

pub const PYTHON_HINT: &'static str =
    "Python functions require CDK customization in Gen2. TypeScript is the first-class runtime.";

pub const OTHER_RUNTIME_NEEDLES: [&'static str; 3] = ["\"go\"", "\"java\"", "\"dotnet\""];

pub const OTHER_RUNTIME_FEATURE: &'static str = "Non-Node Runtime (";

pub const OTHER_RUNTIME_HINT: &'static str =
    "Go/Java/.NET functions require CDK customization in Gen2.";

pub const NODE_FEATURE: &'static str = "Node.js Function (";

pub const NODE_HINT: &'static str =
    "Node.js/TypeScript functions are fully supported in Gen2. Use defineFunction().";

pub const CLOSING: &'static str = ")";

/// What is said of a directory without an `amplify` folder.
pub const NO_AMPLIFY_FOLDER: &'static str =
    "No amplify/ folder found. This may not be an Amplify project.";

} // verus!
