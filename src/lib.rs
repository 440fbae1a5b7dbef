//! Capability negotiation and shader introspection for an OpenGL back-end.
//!
//! The driver is asked for its version strings, extensions and limits; from
//! those this library derives what the driver can do, picks the shader
//! variants to compile, and describes the interface of linked programs from
//! what the driver reports of them.

pub mod backend;
pub mod info;
pub mod introspect;
pub mod rast;
pub mod shader;
pub mod storage;
pub mod version;
