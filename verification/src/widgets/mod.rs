//! Widgets shared by all views.
pub mod sticky_header;
