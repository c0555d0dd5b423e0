//! Decoding of skinned character models (skeleton plus weighted, textured
//! meshes) from their tokenized text encoding and their versioned,
//! length-prefixed binary encoding.

pub mod constants;
pub mod error_types;
pub mod bin_ops;
pub mod ascii_ops;
pub mod types;
pub mod file_input;
pub mod binary;
pub mod texture_path;
pub mod ascii;
pub mod pose;
pub mod bone_naming;
pub mod material;
pub mod loader;
pub mod interface;
pub mod mesh_name_parser;
