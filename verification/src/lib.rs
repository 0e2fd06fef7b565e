//! Zero-copy byte slices and the builders that turn a publication into
//! requests to a session.
pub mod bytes;
pub mod declaration;
pub mod hex;
pub mod key_expr;
pub mod publisher;
pub mod qos;
pub mod sample;
pub mod zslice;
