//! The state behind the views.

pub mod about_view;
pub mod settings_view;
