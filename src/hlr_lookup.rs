//! Live status of a mobile device, read from the home location register.
use crate::client::{classify, is_remote_failure, request_for, ClientView, ComposedRequest, Neutral};
use crate::decode::{decode_hlr_lookup, hlr_lookup_decodes};
use crate::error::ApiError;
use crate::number::{bare_number, strip_leading_plus};
use neutral_types::hlr_lookup::HlrLookupResponse;
use vstd::prelude::*;
use vstd::string::*;

verus! {

/// The path and query of a hlr lookup request for the phone number `number`,
/// given without its leading `+`.
pub open spec fn hlr_lookup_query(number: Seq<char>) -> Seq<char> {
    "/hlr-lookup?output-case=snake&number="@ + bare_number(number)
}

/// The hlr lookup endpoint of a client.
pub struct HlrLookup<'a> {
    pub(crate) neutral: &'a Neutral,
}

impl Neutral {
    /// The hlr lookup endpoint of this client.
    pub fn hlr_lookup(&self) -> (r: HlrLookup)
        ensures
            r.client() == self@,
    {
        HlrLookup { neutral: self }
    }
}

impl<'a> HlrLookup<'a> {
    /// The client whose base address and credentials the requests use.
    pub closed spec fn client(&self) -> ClientView {
        self.neutral@
    }

    /// Composes the request for the phone number `number`; a leading `+` is dropped.
    pub fn request(&self, number: &str) -> (r: Result<ComposedRequest, ApiError>)
        ensures
            match r {
                Ok(req) => request_for(self.client(), hlr_lookup_query(number@)) == Some(req@),
                Err(e) => request_for(self.client(), hlr_lookup_query(number@)) is None && e
                    == ApiError::MalformedRequest,
            },
    {
        let mut pq = String::from_str("/hlr-lookup?output-case=snake&number=");
        pq.append(strip_leading_plus(number));
        self.neutral.compose(pq.as_str())
    }

    /// Turns the status and body of the response into the typed result:
    /// a remote failure for any status but 200, else the decoded body.
    pub fn response(&self, status: u16, body: Vec<u8>) -> (r: Result<HlrLookupResponse, ApiError>)
        ensures
            status != 200 ==> (r matches Err(e) && is_remote_failure(e, status, body@)),
            status == 200 ==> (r is Ok <==> hlr_lookup_decodes(body@)),
            status == 200 ==> (r matches Err(e) ==> e == ApiError::Decode(body)),
    {
        let body = classify(status, body)?;
        match decode_hlr_lookup(body.as_slice()) {
            Ok(v) => Ok(v),
            Err(_) => Err(ApiError::Decode(body)),
        }
    }
}

} // verus!
