//! Authentication and authorisation core of a shop backend: password
//! credentials, signed expiring tokens, role resolution, login decisions and
//! the request gates that guard protected and admin-only routes.

pub mod decimal;
pub mod error;
pub mod role;
pub mod text;
pub mod claims;
pub mod config;
pub mod token;
pub mod password;
pub mod session;
pub mod gate;
pub mod register;
