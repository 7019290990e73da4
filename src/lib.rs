//! Request classification, in-page shield injection and tab bookkeeping for an
//! ad-blocking browser shell.

pub mod classifier;
pub mod ids;
pub mod interceptor;
pub mod navigation;
pub mod rules;
pub mod shield;
pub mod tabs;
pub mod text;
