//! Reading .NET files: `global.json`, project and solution files, target framework monikers
//! and runtime identifiers.
pub mod global_json;
pub mod project;
pub mod runtime_identifier;
pub mod slnx;
pub mod solution;
pub mod target_framework_moniker;
