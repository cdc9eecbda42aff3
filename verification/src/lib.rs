//! Client core for a lecture-video portal behind a single-sign-on gateway.
//!
//! The library decides and reads; it sends nothing itself. Signing in
//! ([`auth`]) and the two queries ([`query`]) say which requests to make
//! ([`http`]) and what their answers mean, down to the records that the
//! portal's JSON spells ([`json`], [`decode`], [`model`]) and the failures
//! that may come of it ([`error`]). A caller that can send a request and
//! hand back the answer gets the rest from here, whether it draws a window
//! ([`gui`]) or prints lines ([`cli`]).

pub mod auth;
pub mod cli;
pub mod decode;
pub mod error;
pub mod escape;
pub mod gui;
pub mod http;
pub mod json;
pub mod model;
pub mod pattern;
pub mod query;
pub mod text;
