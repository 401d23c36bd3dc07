//! Decision and text logic of the Ghost environment: GPU identity mapping,
//! shell command parsing, environment planning, stub generation, readiness
//! detection and CUDA translation reporting.
pub mod text;
pub mod gpu;
pub mod search_path;
pub mod shell;
pub mod json;
pub mod fetch;
pub mod monitor;
pub mod stub;
pub mod hipify;
pub mod launch;
pub mod doctor;
pub mod media;
