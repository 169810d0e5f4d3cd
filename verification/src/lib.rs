//! Client for the PostHog API.
//!
//! The service has a public surface (event capture, flag evaluation), which
//! takes the project key as a field of each request body, and a private
//! surface (flag management), which takes the personal key as a bearer token.
//! A [`ClientBuilder`] accepts exactly one of the two keys and builds a
//! [`Client`] whose type says which surface it may call. The client does no I/O
//! itself: it describes each request as a [`Request`] value, which the caller
//! hands to its transport.

pub mod body;
pub mod client;
pub mod config;
pub mod decide;
pub mod errors;
pub mod event;
pub mod properties;
pub mod public_api;
pub mod request;
pub mod types;

pub use client::{
    Audience, Client, ClientBuilder, ClientOptions, KeyState, NoKey, PrivateBuilder, PrivateClient,
    PublicBuilder, PublicClient,
};
pub use decide::Decide;
pub use errors::Error;
pub use event::{Event, InnerEvent};
pub use properties::Properties;
pub use public_api::BatchStep;
pub use request::{Header, Method, Request};
pub use types::APIResult;
