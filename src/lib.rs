//! Service-provider side of SAML 2.0 single sign-on: configuration checks,
//! identity extraction from a verified assertion, user provisioning
//! decisions, and session issuance.

pub mod acs;
pub mod config;
pub mod encoding;
pub mod identity;
pub mod login;
pub mod session;
