//! Authorization pipeline and naming rules of a multi-tenant project/module service.

pub mod account;
pub mod application;
pub mod auth;
pub mod error;
pub mod extract;
pub mod jwt;
pub mod module;
pub mod ownership;
pub mod project;
pub mod sequence;
pub mod user;
pub mod validation;
