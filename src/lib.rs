//! Ownership layer for native window-server resources: status translation,
//! retained values and keyed property tables, windows and their drawing
//! contexts, and the box-model sizing that draws into them.

pub mod block;
pub mod core_services;
pub mod drawable;
pub mod geometry;
pub mod layout;
pub mod sls;
pub mod status;
