//! Decision logic of a code-forge gateway: request validation and dispatch, the GitLab REST
//! adapter, and the recorded-fixture server, each stated in contracts and proved.
pub mod encoding;
pub mod gateway;
pub mod gitlab;
pub mod laws;
pub mod model;
pub mod outside;
pub mod recorded;
pub mod rest;
pub mod text;
pub mod wire;
