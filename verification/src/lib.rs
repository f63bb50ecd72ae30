//! Verified core of a rollup HTTP server.
//!
//! The crate models the bridge between a rollup device and an application
//! that talks to it over HTTP: the codec that moves binary payloads to and
//! from hex-prefixed strings, the validation of addresses and values, the
//! request/response cycle driven through the device, and the bodies of the
//! HTTP replies.  Everything that decides or computes lives here with a
//! contract; the raw device exchanges and the HTTP plumbing stay outside.

pub mod codec;
pub mod echo;
pub mod gateway;
pub mod hexdata;
pub mod idgen;
pub mod numfmt;
pub mod printout;
pub mod rollup_error;
pub mod service;
pub mod supervisor;
pub mod types;
pub mod validation;
