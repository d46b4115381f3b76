//! Verified core of a digital asset management system: classification
//! name paths, entity change tracking, record documents and the decisions
//! of a background-service host.

pub mod text;
pub mod name_path;
pub mod error;
pub mod ids;
pub mod crypto;
pub mod clock;
pub mod session;
pub mod field;
pub mod field_group;
pub mod classification;
pub mod user;
pub mod file;
pub mod collections;
pub mod record;
pub mod worker;
pub mod sys_service;
pub mod es;
pub mod dispatch;
pub mod wide;
