//! Turns an API description (an OpenAPI document held as a JSON tree) into the
//! source text of a tool server that exposes each operation as a tool.

pub mod cli;
pub mod emit;
pub mod generator;
pub mod json;
pub mod params;
pub mod schema;
pub mod text;
