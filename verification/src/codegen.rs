//! Build-time code generation: naming rules that map protobuf services onto
//! Rust FFI entry points and Java bridge classes.
pub mod cases;
pub mod protobufs;
pub mod java_deps;
