pub mod model;
pub mod reader;
pub mod yaml;
pub mod yaml_import;
