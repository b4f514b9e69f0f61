//! Client-side logic for remote control of a phone-based sensor experiment.
//!
//! The crate keeps a registry of measurement channels, builds the requests
//! that ask the experiment server for their latest values, and folds the
//! server's replies back into a per-channel cache.  It performs no I/O of
//! its own: a caller sends the requests it is given and hands back what the
//! server answered.
//!
//! ```
//! use phyphox_api::{PhyphoxClient, Variables};
//!
//! let mut client = PhyphoxClient::new("192.168.0.1:8080");
//! client.register(Variables::Light);
//! assert_eq!(client.retrieve_request(), "http://192.168.0.1:8080/get?light");
//!
//! // The caller sends the request and decodes the reply.
//! let reply = serde_json::from_str(r#"{"buffer":{"light":{"buffer":[42.0]}}}"#).unwrap();
//! client.retrieve(Ok(reply)).unwrap();
//! let light = client.get(Variables::Light).unwrap();
//! assert_eq!(f64::from_bits(light.to_bits()), 42.0);
//! ```

pub mod client;
pub mod error;
pub mod json;
pub mod phyphox;
pub mod registry;
pub mod request;
pub mod sample;
pub mod sensors;
pub mod variables;

pub use crate::client::PhyphoxClient;
pub use crate::error::Error;
pub use crate::phyphox::Phyphox;
pub use crate::sample::Sample;
pub use crate::variables::Variables;
