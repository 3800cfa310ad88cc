//! Core of a pluggable widget host: typed dynamic properties, activities that
//! bundle them with their subscribers, the per-module activity registry with
//! its update dispatch, and the lifecycle of a module's producer runtime.

pub mod text;
pub mod value;
pub mod identifier;
pub mod error;
pub mod dynamic_property;
pub mod dynamic_activity;
pub mod activity_map;
pub mod runtime;
pub mod base_module;
pub mod scrolling_label;
