//! Turns a TOML configuration holding a set of claims and a secret into a
//! signed JSON Web Token (HS256).
//!
//! The pipeline has two verified stages: [`config`] takes the text of the
//! configuration file apart into an [`config::Outer`], and [`token`] signs
//! its claims. Parsing TOML and signing are done by the `toml` and
//! `jsonwebtoken` crates, behind the trusted items of [`value`] and [`token`].

pub mod config;
pub mod error;
pub mod token;
pub mod value;
