//! Command-line client library for a GitLab service: configuration values,
//! command plans, and the SAML browser-flow login that provisions an API token.
pub mod commands;
pub mod configure;
pub mod gitlab_config;
pub mod html;
pub mod login;
pub mod saml;
pub mod text;
