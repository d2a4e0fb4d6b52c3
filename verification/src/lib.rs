//! A minimal HTTP greeting service, modelled as pure request/response logic.
//!
//! The service exposes two endpoints: a fixed plain-text greeting on
//! `GET /`, and a JSON greeting on `POST /manual` that echoes the `name`
//! field of the request body. All routing and handler behaviour lives in
//! [`service`]; the JSON parsing and encoding it needs is in [`json`].

pub mod json;
pub mod service;
