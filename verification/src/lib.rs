//! Twirp-style RPC support: the error model that services answer with, a
//! code generator that turns protobuf service descriptions into Rust server
//! code, and the request routing of a generated server for the Haberdasher
//! example service.

pub mod codegen;
pub mod error;
pub mod haberdasher;

pub use codegen::{Comments, Method, Service, Twirp};
pub use error::{Error, ErrorCode};
pub use haberdasher::{
    encoded_reply, event_fits, json_reply, route_method, route_path, Action, Event, Haber,
    Haberdasher, HaberdasherServer, Handled, Hat, Phase, Reply, Route, Size,
};
