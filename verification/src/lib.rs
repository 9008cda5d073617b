//! A client for the REST interface of a deCONZ lighting gateway.
//!
//! The library shapes the requests, reads the gateway's answers and classifies
//! failures. It performs no network traffic of its own: a caller sends each
//! [`Request`] and hands the [`Reply`] back.

pub mod address;
pub mod client;
pub mod demo;
pub mod directory;
pub mod ident;
pub mod json;
pub mod pairing;
pub mod request;
pub mod shape;
pub mod state;
pub mod types;

pub use client::{DeconzClient, Reply};
pub use demo::{DemoLightClient, LightClient};
pub use shape::ShapeFault;
pub use request::{Method, Request};
pub use types::{find_light, Error, HttpFailure, IdParseFailure, Light, LightState};
