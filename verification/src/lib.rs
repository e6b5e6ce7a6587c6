//! Audit substrate for a GitHub organization: response classification,
//! pagination and retry decisions, branch-protection check resolution,
//! scoring, and the resumable CSV ledger.
//!
//! Every function here is pure: network and file access belong to the caller,
//! which performs the requests the library describes and hands the bodies back.

pub mod alerts;
pub mod audit;
pub mod bpr;
pub mod checks;
pub mod codeowners;
pub mod deploy_key;
pub mod digest;
pub mod engine;
pub mod external_collaborator;
pub mod fetch;
pub mod files;
pub mod frame;
pub mod index;
pub mod json;
pub mod ledger;
pub mod members;
pub mod model;
pub mod paginate;
pub mod repos;
pub mod score;
pub mod selection;
pub mod sort;
pub mod sources;
pub mod teams;
pub mod text;
pub mod uar;
