//! Logic of Biome's formatter code generator, of a few lint rules, of
//! binding validation in the JavaScript parser, and of the OS file system
//! traversal, each stated over plain values.
pub mod text;
pub mod language;
pub mod node;
pub mod order;
pub mod paths;
pub mod repo;
pub mod module_index;
pub mod codegen;
pub mod binding;
pub mod lint;
pub mod fs;
