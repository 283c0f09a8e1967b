//! A small key-value storage service: a concurrent map from string keys to
//! JSON-shaped dynamic values, a lossless codec between those values and their
//! typed wire representation, the RPC-style service decisions over the store,
//! and the HTTP gateway's translation of store results into status codes.

pub mod value;
pub mod wire;
pub mod codec;
pub mod store;
pub mod rpc;
pub mod error;
pub mod client;
pub mod gateway;
