//! Authentication and authorization core of the MaBar venue-booking backend.

pub mod accounts;
pub mod chars;
pub mod config;
pub mod identity;
pub mod json;
pub mod middleware;
pub mod oauth;
pub mod password;
pub mod profile;
pub mod rate_limit;
pub mod resolver;
pub mod roles;
pub mod seed;
pub mod text;
pub mod token;
pub mod validation;
pub mod venues;
