//! Authentication core of a small article-publishing service: issuing and
//! checking signed bearer tokens, and the interceptor that guards the routes
//! which change data.

pub mod enums;
pub mod entities;
pub mod token;
pub mod auth;
pub mod services;
