//! The callsign lookup service used by the GUI: it asks HamDB about a
//! callsign and turns the answer into callsign information, keeping the
//! licence class and expiry as HamDB sent them when they are empty.

use vstd::prelude::*;
use crate::tabs::callsign_lookup::{
    CallsignInformation, HamDBResponse, spec_info_fields, spec_hamdb_information,
};
use crate::pskreporter::str_equal;

verus! {

/// The tokio runtime handle on which lookups are spawned.
#[verifier::external_type_specification]
#[verifier::external_body]
pub struct ExRuntimeHandle(tokio::runtime::Handle);

/// Errors regarding the callsign lookup module
#[derive(Debug, Clone, Copy, PartialEq, Eq, Structural)]
pub enum CallsignLookupError {
    /// The request failed
    FailedRequest,
    /// The response body was invalid
    InvalidResponse,
    /// Couldn't find the callsign
    CallsignNotFound,
}

/// The text that describes each error.
pub open spec fn spec_error_message(e: CallsignLookupError) -> Seq<char> {
    match e {
        CallsignLookupError::FailedRequest => "The request failed"@,
        CallsignLookupError::InvalidResponse => "The response body was invalid"@,
        CallsignLookupError::CallsignNotFound => "Couldn't find the callsign"@,
    }
}

impl CallsignLookupError {
    /// The text that describes the error.
    pub fn message(&self) -> (r: &'static str)
        ensures
            r@ == spec_error_message(*self),
    {
        match self {
            CallsignLookupError::FailedRequest => "The request failed",
            CallsignLookupError::InvalidResponse => "The response body was invalid",
            CallsignLookupError::CallsignNotFound => "Couldn't find the callsign",
        }
    }
}

/// A callsign-lookup abstraction for the GUI.
///
/// Lookups go to HamDB; credentials for HamQTH may be given, with a cached
/// session `(opened at, id)` beside them.
pub struct CallsignLookup {
    handle: tokio::runtime::Handle,
    credentials: Option<(String, String)>,
    hamqth_id: Option<(u64, String)>,
}

impl CallsignLookup {
    /// The runtime on which lookups are spawned.
    pub closed spec fn spec_handle(&self) -> tokio::runtime::Handle {
        self.handle
    }

    /// The HamQTH credentials `(username, password)`, if any.
    pub closed spec fn spec_credentials(&self) -> Option<(String, String)> {
        self.credentials
    }

    /// The cached HamQTH session, if any.
    pub closed spec fn spec_hamqth_id(&self) -> Option<(u64, String)> {
        self.hamqth_id
    }

    /// Creates a lookup service on `handle`, with optional HamQTH
    /// credentials and no session yet.
    pub fn new(handle: tokio::runtime::Handle, credentials: Option<(String, String)>) -> (r: Self)
        ensures
            r.spec_handle() == handle,
            r.spec_credentials() == credentials,
            r.spec_hamqth_id() is None,
    {
        CallsignLookup { handle, credentials, hamqth_id: None }
    }

    /// The runtime on which lookups are spawned: the one the service was
    /// created on.
    pub fn handle(&self) -> (r: &tokio::runtime::Handle)
        ensures
            *r == self.spec_handle(),
    {
        &self.handle
    }

    /// The HamQTH credentials, if any.
    pub fn credentials(&self) -> (r: &Option<(String, String)>)
        ensures
            *r == self.spec_credentials(),
    {
        &self.credentials
    }

    /// The cached HamQTH session, if any.
    pub fn hamqth_id(&self) -> (r: &Option<(u64, String)>)
        ensures
            *r == self.spec_hamqth_id(),
    {
        &self.hamqth_id
    }
}

/// The answer to a HamDB lookup given the `callsign` record of the
/// response (`None` where the response has none).
pub open spec fn spec_query_hamdb(record: Option<HamDBResponse>) -> Result<Seq<Seq<char>>, CallsignLookupError> {
    match record {
        None => Err(CallsignLookupError::InvalidResponse),
        Some(r) => if r.callsign@ == "NOT_FOUND"@ {
            Err(CallsignLookupError::CallsignNotFound)
        } else {
            Ok(spec_hamdb_information(r, false))
        },
    }
}

/// Decides a HamDB lookup from the `callsign` record of the response: an
/// invalid response without one, `CallsignNotFound` for a record whose
/// callsign reads `NOT_FOUND`, else the record's information.
pub fn query_hamdb(record: Option<HamDBResponse>) -> (r: Result<CallsignInformation, CallsignLookupError>)
    ensures
        match (r, spec_query_hamdb(record)) {
            (Ok(info), Ok(fields)) => spec_info_fields(info) == fields,
            (Err(e), Err(f)) => e == f,
            _ => false,
        },
{
    match record {
        None => Err(CallsignLookupError::InvalidResponse),
        Some(data) => {
            if str_equal(data.callsign.as_str(), "NOT_FOUND") {
                Err(CallsignLookupError::CallsignNotFound)
            } else {
                Ok(data.to_information(false))
            }
        },
    }
}

} // verus!
