//! Authentication core of a small word-entry service: signed session tokens,
//! password checks, the login flow and the request gate in front of the
//! resource routes.

pub mod config;
pub mod error;
pub mod gate;
pub mod models;
pub mod password;
pub mod session;
pub mod token;

pub use error::ServiceError;
pub use gate::{Authorization, AuthorizationMiddleware, GateDecision};
pub use models::{Claims, Entry, EntryFormData, LoginFormData, LoginResponse, User};
