//! npa-web: the verified core of a local browser tool for the human-facing
//! NPA proof flow.
pub mod flow;
pub mod package_fixture;
pub mod render;
pub mod source_imports;
pub mod state;
pub mod std_demo;
pub mod style;
pub mod text;
