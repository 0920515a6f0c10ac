//! A decoder for compiled JVM class files.
//!
//! The library turns the bytes of a class file into a structural model: the
//! version header, the constant pool, the access and inheritance metadata,
//! and the tables of fields, methods and attributes. Every decoder comes
//! with a `spec` function over `Seq<u8>` that gives, for each input, either
//! the decoded value and the offset reached or the error, and its contract
//! says that it computes exactly that.
pub mod access_flags;
pub mod annotation;
pub mod annotation_decoder;
pub mod attribute;
pub mod attribute_decoder;
pub mod class;
pub mod constant_value;
pub mod cursor;
pub mod decompile;
pub mod error;
pub mod frames;
pub mod index_lists;
pub mod laws;
pub mod outline;
pub mod pool;
pub mod pool_decoder;
pub mod records;
pub mod render;
pub mod table;
pub mod text;
