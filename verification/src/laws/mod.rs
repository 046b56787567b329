//! What the library promises of its operations. Each law speaks of any call of an operation and
//! says how what comes back relates to what went in.
pub mod gateway;
pub mod gitlab;
pub mod model;
pub mod recorded;
pub mod text;
pub mod wire;
