//! Verified core of a thin object-oriented wrapper around a native graphics
//! API.  The crate computes vertex-attribute layouts, tracks the uniform
//! name-to-location cache of a shader program, and drives the configured /
//! unconfigured state machine of a 2D texture.  Every decision is returned to
//! the caller as a plain call descriptor: the embedding application performs
//! the corresponding native call and hands results (such as freshly generated
//! resource identifiers) back in.

pub mod buffers;
pub mod shader;
pub mod textures;
