pub mod panel;
pub mod registry;
pub mod text;
pub mod zoom;
