//! Verified core of a lightweight Home Assistant dashboard: entity
//! classification, the dashboard cache policy, visibility filtering,
//! paging of the dashboard view and the persisted layout rules.

pub mod domain;
pub mod text;
pub mod ha;
pub mod cache;
pub mod layout;
pub mod dashboard;
pub mod viewmodels;
pub mod forms;
pub mod live;
