//! The gateway's data model: payload shapes, configuration, and the closed
//! set of failure kinds surfaced as HTTP status codes.

use vstd::prelude::*;

verus! {

/// A single reading submitted by a field device. `device` arrives raw and is
/// overwritten with its digest before forwarding; `timestamp` is overwritten
/// with the gateway's receipt time; `sensors` carries the measurement fields,
/// opaque to the gateway, exactly as submitted.
#[derive(Clone, Debug, PartialEq)]
pub struct SensorData {
    pub device: String,
    pub timestamp: u64,
    pub sensors: String,
}

/// An ordered batch of readings sharing one authorization decision: the whole
/// bundle is forwarded, or none of it.
#[derive(Clone, Debug, PartialEq)]
pub struct BundleData {
    pub bundle: Vec<SensorData>,
}

/// The configuration the gateway is started with.
#[derive(Clone, Debug)]
pub struct Config {
    pub whitelisted_device_ids: Vec<String>,
    pub port: u16,
    pub node: String,
    pub mwm: u64,
    pub local_pow: bool,
}

/// A request that carries the requesting device identity only; authorized the
/// same way as sensor submissions.
#[derive(Clone, Debug, PartialEq)]
pub struct SwitchAuth {
    pub device: String,
}

/// The closed set of failure kinds a handler can produce.
#[derive(Clone, Copy, Debug, PartialEq, Eq, Structural)]
pub enum GatewayError {
    /// The request body does not parse into the expected shape.
    MalformedPayload,
    /// The identity is missing or not whitelisted.
    Unauthorized,
    /// The backend session could not be opened or could not accept a write.
    SessionUnavailable,
    /// No route matches the request.
    NotFound,
}

/// The HTTP status code each failure kind maps to at the handler boundary.
pub open spec fn spec_status_code(e: GatewayError) -> u16 {
    match e {
        GatewayError::MalformedPayload => 400,
        GatewayError::Unauthorized => 401,
        GatewayError::SessionUnavailable => 408,
        GatewayError::NotFound => 404,
    }
}

/// Maps a failure kind to its HTTP status code.
pub fn status_code(e: &GatewayError) -> (c: u16)
    ensures
        c == spec_status_code(*e),
{
    match e {
        GatewayError::MalformedPayload => 400,
        GatewayError::Unauthorized => 401,
        GatewayError::SessionUnavailable => 408,
        GatewayError::NotFound => 404,
    }
}

} // verus!
