pub mod api;
pub mod deploy_flag;
pub mod errors;
pub mod identity;
pub mod json;
pub mod laws;
pub mod pipeline;
pub mod vcs;
