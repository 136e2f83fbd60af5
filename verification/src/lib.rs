//! Authentication core: credentialed login, registration gated by an emailed
//! verification code, and verification-code dispatch.
//!
//! The service itself holds no long-lived state. Storage, password hashing,
//! token signing and mail delivery are collaborators that live outside this
//! library; every decision the service makes between those calls is a verified
//! function here, taking the collaborator's answer as a plain value.

pub mod digits;
pub mod error;
pub mod model;
pub mod outside;
pub mod service;
pub mod sessions;
