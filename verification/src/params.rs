//! Start-up parameter validation: simulator host, port and timeout.
//!
//! The shell reads raw parameter values from the bus node and hands them
//! here; a missing parameter falls back to its default, a value of the wrong
//! type or out of range is an error, checked host first, then port, then
//! timeout.

use vstd::prelude::*;

verus! {

/// A parameter value as the bus node stores it.  Only string and integer
/// values are readable by this bridge; the other variants exist so a value of
/// any stored type can be handed over and rejected precisely.
#[derive(Debug, Clone, PartialEq)]
pub enum ParamValue {
    NotSet,
    Bool(bool),
    Integer(i64),
    Double,
    StringValue(String),
    Array,
}

/// Read access to the two parameter value shapes the bridge uses.
pub trait ParameterValueExt {
    /// The string content, if this is a string value.
    spec fn spec_str(&self) -> Option<Seq<char>>;

    /// The integer content, if this is an integer value.
    spec fn spec_i64(&self) -> Option<i64>;

    fn to_str(&self) -> (r: Option<&str>)
        ensures
            match r {
                Some(s) => self.spec_str() == Some(s@),
                None => self.spec_str() is None,
            },
    ;

    fn to_i64(&self) -> (r: Option<i64>)
        ensures
            r == self.spec_i64(),
    ;
}

impl ParameterValueExt for ParamValue {
    open spec fn spec_str(&self) -> Option<Seq<char>> {
        match self {
            ParamValue::StringValue(s) => Some(s@),
            _ => None,
        }
    }

    open spec fn spec_i64(&self) -> Option<i64> {
        match self {
            ParamValue::Integer(v) => Some(*v),
            _ => None,
        }
    }

    fn to_str(&self) -> (r: Option<&str>) {
        match self {
            ParamValue::StringValue(s) => Some(s.as_str()),
            _ => None,
        }
    }

    fn to_i64(&self) -> (r: Option<i64>) {
        match self {
            ParamValue::Integer(v) => Some(*v),
            _ => None,
        }
    }
}

/// Why a parameter set was rejected.
#[derive(Debug, Clone, Copy, PartialEq, Eq, Structural)]
pub enum ParamError {
    InvalidHostType,
    InvalidPortType,
    PortOutOfRange,
    InvalidTimeoutType,
    TimeoutOutOfRange,
}

/// The validated start-up parameters.
#[derive(Debug, Clone, PartialEq)]
pub struct Params {
    pub carla_host: String,
    pub carla_port: u16,
    pub carla_timeout_millis: u64,
}

/// The error the host parameter produces, if any: a present value must be a
/// string.
pub open spec fn spec_host_err(v: Option<&ParamValue>) -> Option<ParamError> {
    match v {
        None => None,
        Some(pv) => if pv.spec_str() is Some {
            None
        } else {
            Some(ParamError::InvalidHostType)
        },
    }
}

/// The error the port parameter produces, if any: a present value must be an
/// integer in `0 ..= 65535`.
pub open spec fn spec_port_err(v: Option<&ParamValue>) -> Option<ParamError> {
    match v {
        None => None,
        Some(pv) => match pv.spec_i64() {
            None => Some(ParamError::InvalidPortType),
            Some(i) => if 0 <= i <= 65535 {
                None
            } else {
                Some(ParamError::PortOutOfRange)
            },
        },
    }
}

/// The error the timeout parameter produces, if any: a present value must be
/// a non-negative integer.
pub open spec fn spec_timeout_err(v: Option<&ParamValue>) -> Option<ParamError> {
    match v {
        None => None,
        Some(pv) => match pv.spec_i64() {
            None => Some(ParamError::InvalidTimeoutType),
            Some(i) => if i >= 0 {
                None
            } else {
                Some(ParamError::TimeoutOutOfRange)
            },
        },
    }
}

/// The host a loaded parameter set holds: the given string, or the default.
pub open spec fn spec_host_value(v: Option<&ParamValue>, host: Seq<char>) -> bool {
    match v {
        None => host == "127.0.0.1"@,
        Some(pv) => pv.spec_str() == Some(host),
    }
}

/// The port a loaded parameter set holds: the given integer, or the default.
pub open spec fn spec_port_value(v: Option<&ParamValue>, port: u16) -> bool {
    match v {
        None => port == 2000,
        Some(pv) => pv.spec_i64() == Some(port as i64),
    }
}

/// The timeout a loaded parameter set holds: the given integer, or the
/// default.
pub open spec fn spec_timeout_value(v: Option<&ParamValue>, timeout: u64) -> bool {
    match v {
        None => timeout == 20000,
        Some(pv) => pv.spec_i64() == Some(timeout as i64),
    }
}

fn get_carla_host(v: Option<&ParamValue>) -> (r: Result<String, ParamError>)
    ensures
        r is Err <==> spec_host_err(v) is Some,
        r matches Err(e) ==> Some(e) == spec_host_err(v),
        r matches Ok(host) ==> spec_host_value(v, host@),
{
    match v {
        None => Ok("127.0.0.1".to_owned()),
        Some(pv) => match pv.to_str() {
            Some(s) => Ok(s.to_owned()),
            None => Err(ParamError::InvalidHostType),
        },
    }
}

fn get_carla_port(v: Option<&ParamValue>) -> (r: Result<u16, ParamError>)
    ensures
        r is Err <==> spec_port_err(v) is Some,
        r matches Err(e) ==> Some(e) == spec_port_err(v),
        r matches Ok(port) ==> spec_port_value(v, port),
{
    match v {
        None => Ok(2000),
        Some(pv) => match pv.to_i64() {
            Some(i) => {
                if 0 <= i && i <= 65535 {
                    Ok(i as u16)
                } else {
                    Err(ParamError::PortOutOfRange)
                }
            },
            None => Err(ParamError::InvalidPortType),
        },
    }
}

fn get_carla_timeout_millis(v: Option<&ParamValue>) -> (r: Result<u64, ParamError>)
    ensures
        r is Err <==> spec_timeout_err(v) is Some,
        r matches Err(e) ==> Some(e) == spec_timeout_err(v),
        r matches Ok(timeout) ==> spec_timeout_value(v, timeout),
{
    match v {
        None => Ok(20000),
        Some(pv) => match pv.to_i64() {
            Some(i) => {
                if i >= 0 {
                    Ok(i as u64)
                } else {
                    Err(ParamError::TimeoutOutOfRange)
                }
            },
            None => Err(ParamError::InvalidTimeoutType),
        },
    }
}

impl Params {
    /// Validates the three raw parameter values, host first, then port, then
    /// timeout; the first offending value decides the error.
    pub fn load(
        host: Option<&ParamValue>,
        port: Option<&ParamValue>,
        timeout: Option<&ParamValue>,
    ) -> (r: Result<Params, ParamError>)
        ensures
            r is Err <==> (spec_host_err(host) is Some || spec_port_err(port) is Some
                || spec_timeout_err(timeout) is Some),
            r matches Err(e) ==> Some(e) == (if spec_host_err(host) is Some {
                spec_host_err(host)
            } else if spec_port_err(port) is Some {
                spec_port_err(port)
            } else {
                spec_timeout_err(timeout)
            }),
            r matches Ok(p) ==> spec_host_value(host, p.carla_host@) && spec_port_value(
                port,
                p.carla_port,
            ) && spec_timeout_value(timeout, p.carla_timeout_millis),
    {
        let carla_host = match get_carla_host(host) {
            Ok(h) => h,
            Err(e) => {
                return Err(e);
            },
        };
        let carla_port = match get_carla_port(port) {
            Ok(p) => p,
            Err(e) => {
                return Err(e);
            },
        };
        let carla_timeout_millis = match get_carla_timeout_millis(timeout) {
            Ok(t) => t,
            Err(e) => {
                return Err(e);
            },
        };
        Ok(Params { carla_host, carla_port, carla_timeout_millis })
    }
}

} // verus!
