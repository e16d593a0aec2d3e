//! Layered configuration resolution for Greentic hosts.
//!
//! A `GreenticConfig` is resolved from defaults, user config, project config, environment
//! variables and CLI overrides with strict precedence `CLI > env > project > user > defaults`.
//! Each resolved leaf records its source, and in the detailed form also its origin (file
//! path, environment variable name, or `cli`).
pub mod text;
pub mod provenance;
pub mod weburl;
pub mod types;
pub mod layers;
pub mod precedence;
mod overlay;
pub mod paths;
pub mod resolve;
pub mod merge;
pub mod domain;
pub mod validate;
pub mod numbers;
pub mod env;
pub mod env_names;
pub mod defaults;
pub mod overrides;
pub mod resolver;
pub mod explain;
