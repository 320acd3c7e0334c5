//! Decision core of a deployment gateway.
//!
//! A caller presents a bearer token and asks to read a Deployment or to change
//! the image of one of its containers. This crate decides, step by step, what
//! the gateway does: which request goes to the identity provider, what the
//! provider's answer means, whether the caller may touch the application and
//! the image, which call goes to the cluster, and what the caller is told.
//! It performs no I/O itself.

pub mod auth;
pub mod controllers;
pub mod gateway;
pub mod image;
pub mod json;
pub mod models;
pub mod status;
pub mod text;
