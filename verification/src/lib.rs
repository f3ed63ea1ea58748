//! Domain model, request validation and request handling decisions of the
//! sample service.

pub mod id;
pub mod validation;
pub mod sample;
pub mod response;
pub mod request;
pub mod decimal;
pub mod error;
pub mod repository;
pub mod handler;
