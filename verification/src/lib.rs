//! Client-side logic for a JSON API that wants a login before every call:
//! what is sent, in which order, and what each answer leads to.
//!
//! Nothing in this crate touches the network. The two flows hand out
//! requests as plain values and take back what the transport reports.

pub mod api;
pub mod auth;
pub mod call_flow;
pub mod error;
pub mod headers;
pub mod json_map;
pub mod laws;
pub mod login_flow;
pub mod request;
pub mod settings;
pub mod status;

pub use api::{APIMethod, OperationView};
pub use auth::AuthData;
pub use call_flow::{CallAction, CallFlow, CallStage};
pub use error::Error;
pub use json_map::{JsonMap, Payload};
pub use login_flow::{Event, LoginAction, LoginFlow, LoginStage};
pub use request::{Method, Request};
pub use settings::Settings;
