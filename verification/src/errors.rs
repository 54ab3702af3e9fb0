//! The errors of a call to a service: [`NativeOsrmError`],
//! [`RemoteOsrmError`] and [`OsrmError`], which holds either, and
//! [`RequestError`], which holds the error of any builder.

use crate::services::matching::MatchRequestError;
use crate::services::nearest::NearestRequestError;
use crate::services::route::RouteRequestError;
use crate::services::table::TableRequestError;
use crate::services::trip::TripRequestError;
use vstd::prelude::*;
use vstd::string::StringExecFns;

verus! {

/// What went wrong in a call to the engine that runs in this process.
#[derive(Clone, Debug, PartialEq, Eq)]
pub enum NativeOsrmError {
    /// The engine could not be started.
    Initialization(String),
    /// The path to the map data is not one.
    InvalidPath(String),
    /// The engine's answer could not be read.
    JsonParse(String),
    /// The engine reported an error of its own.
    FfiError(String),
}

impl NativeOsrmError {
    /// The error in words.
    pub open spec fn text(self) -> Seq<char> {
        match self {
            NativeOsrmError::Initialization(m) => "Failed to create OSRM instance: "@ + m@,
            NativeOsrmError::InvalidPath(m) => "Invalid path parameter: "@ + m@,
            NativeOsrmError::JsonParse(m) => "Failed to parse OSRM response: "@ + m@,
            NativeOsrmError::FfiError(m) => "Internal FFI error: "@ + m@,
        }
    }

    /// The error in words, ending in the message that it carries.
    pub fn message(&self) -> (res: String)
        ensures
            res@ == self.text(),
    {
        match self {
            NativeOsrmError::Initialization(m) => String::from_str(
                "Failed to create OSRM instance: ",
            ).concat(m.as_str()),
            NativeOsrmError::InvalidPath(m) => String::from_str("Invalid path parameter: ").concat(
                m.as_str(),
            ),
            NativeOsrmError::JsonParse(m) => String::from_str(
                "Failed to parse OSRM response: ",
            ).concat(m.as_str()),
            NativeOsrmError::FfiError(m) => String::from_str("Internal FFI error: ").concat(
                m.as_str(),
            ),
        }
    }
}

/// What went wrong in a call to an engine over HTTP.
#[derive(Clone, Debug, PartialEq, Eq)]
pub enum RemoteOsrmError {
    /// The engine's answer could not be read.
    JsonParse(String),
    /// The request did not reach the engine, or the engine refused it.
    EndpointError(String),
}

impl RemoteOsrmError {
    /// The error in words.
    pub open spec fn text(self) -> Seq<char> {
        match self {
            RemoteOsrmError::JsonParse(m) => "Failed to parse OSRM response: "@ + m@,
            RemoteOsrmError::EndpointError(m) => "Endpoint error: "@ + m@,
        }
    }

    /// The error in words, ending in the message that it carries.
    pub fn message(&self) -> (res: String)
        ensures
            res@ == self.text(),
    {
        match self {
            RemoteOsrmError::JsonParse(m) => String::from_str(
                "Failed to parse OSRM response: ",
            ).concat(m.as_str()),
            RemoteOsrmError::EndpointError(m) => String::from_str("Endpoint error: ").concat(
                m.as_str(),
            ),
        }
    }
}

/// The error of a builder, whichever service it builds for.
#[derive(Clone, Copy, Debug, PartialEq, Eq, Structural)]
pub enum RequestError {
    Route(RouteRequestError),
    Trip(TripRequestError),
    Match(MatchRequestError),
    Table(TableRequestError),
    Nearest(NearestRequestError),
}

impl RequestError {
    /// The error in words.
    pub open spec fn text(self) -> Seq<char> {
        match self {
            RequestError::Route(e) => e.text(),
            RequestError::Trip(e) => e.text(),
            RequestError::Match(e) => e.text(),
            RequestError::Table(e) => e.text(),
            RequestError::Nearest(e) => e.text(),
        }
    }

    /// The error in words: those of the builder's own error.
    pub fn message(&self) -> (res: String)
        ensures
            res@ == self.text(),
    {
        match self {
            RequestError::Route(e) => e.message(),
            RequestError::Trip(e) => e.message(),
            RequestError::Match(e) => e.message(),
            RequestError::Table(e) => e.message(),
            RequestError::Nearest(e) => e.message(),
        }
    }
}

/// Every error of asking a service, whichever engine was asked: a request
/// that could not be built, an answer that holds nothing, or the error of
/// the engine.
#[derive(Clone, Debug, PartialEq, Eq)]
pub enum OsrmError {
    /// The call succeeded and its answer holds no result.
    EmptyResponse(String),
    Native(NativeOsrmError),
    Remote(RemoteOsrmError),
    /// The request broke a rule and was never sent.
    Request(RequestError),
}

impl OsrmError {
    /// The error in words.
    pub open spec fn text(self) -> Seq<char> {
        match self {
            OsrmError::EmptyResponse(m) => "Request produced an empty response: "@ + m@,
            OsrmError::Native(e) => "Error from the native backend: "@ + e.text(),
            OsrmError::Remote(e) => "Error from the remote backend: "@ + e.text(),
            OsrmError::Request(e) => "Invalid request: "@ + e.text(),
        }
    }

    /// The error in words, ending in those of the error that it holds.
    pub fn message(&self) -> (res: String)
        ensures
            res@ == self.text(),
    {
        match self {
            OsrmError::EmptyResponse(m) => String::from_str(
                "Request produced an empty response: ",
            ).concat(m.as_str()),
            OsrmError::Native(e) => {
                let inner = e.message();
                String::from_str("Error from the native backend: ").concat(inner.as_str())
            },
            OsrmError::Remote(e) => {
                let inner = e.message();
                String::from_str("Error from the remote backend: ").concat(inner.as_str())
            },
            OsrmError::Request(e) => {
                let inner = e.message();
                String::from_str("Invalid request: ").concat(inner.as_str())
            },
        }
    }
}

} // verus!
