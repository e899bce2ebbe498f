//! Build-time orchestration for three native astronomy libraries: where each
//! library's headers and archive are found, how its sources are fetched and
//! compiled, what is published to dependent builds, and what the binding
//! generator is given. The library decides; the caller performs the steps.

pub mod bindings;
pub mod compile;
pub mod config;
pub mod directive;
pub mod fetch;
pub mod laws;
pub mod library;
pub mod list;
pub mod location;
pub mod pipeline;
pub mod registry;
pub mod step;
pub mod text;
