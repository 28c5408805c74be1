pub mod azure;
pub mod azure_laws;
pub mod build_script;
pub mod build_script_laws;
pub mod conversions;
pub mod error_laws;
pub mod errors;
pub mod failures;
pub mod globs;
pub mod install_reporter;
pub mod lock_file;
pub mod match_spec;
pub mod package;
pub mod release;
pub mod release_laws;
pub mod reporter_laws;
pub mod self_update;
pub mod self_update_laws;
pub mod sync_reporter;
pub mod text;
pub mod text_laws;
pub mod transactions;
pub mod update_run_laws;
pub mod urls;
pub mod version;
pub mod view_laws;
pub mod why_not;
pub mod why_not_laws;
