//! Hierarchical wallet derivation under the QP44 path scheme, with the
//! address encodings, seed handling and balance arithmetic it rests on.

pub mod address;
pub mod balance;
pub mod config;
pub mod crypto;
pub mod encoding;
pub mod manifold;
pub mod pathsregistry;
pub mod protocol_id;
pub mod qp44;
pub mod text;
