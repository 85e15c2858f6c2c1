//! Live network probe of an IP address and its provider.
use crate::client::{classify, is_remote_failure, request_for, ClientView, ComposedRequest, Neutral};
use crate::decode::{decode_ip_probe, ip_probe_decodes};
use crate::error::ApiError;
use neutral_types::ip_probe::IpProbeResponse;
use vstd::prelude::*;
use vstd::string::*;

verus! {

/// The path and query of an ip probe request for the address text `ip`.
pub open spec fn ip_probe_query(ip: Seq<char>) -> Seq<char> {
    "/ip-probe?output-case=snake&ip="@ + ip
}

/// The ip probe endpoint of a client.
pub struct IpProbe<'a> {
    pub(crate) neutral: &'a Neutral,
}

impl Neutral {
    /// The ip probe endpoint of this client.
    pub fn ip_probe(&self) -> (r: IpProbe)
        ensures
            r.client() == self@,
    {
        IpProbe { neutral: self }
    }
}

impl<'a> IpProbe<'a> {
    /// The client whose base address and credentials the requests use.
    pub closed spec fn client(&self) -> ClientView {
        self.neutral@
    }

    /// Composes the request for the address written as `ip`.
    pub fn request(&self, ip: &str) -> (r: Result<ComposedRequest, ApiError>)
        ensures
            match r {
                Ok(req) => request_for(self.client(), ip_probe_query(ip@)) == Some(req@),
                Err(e) => request_for(self.client(), ip_probe_query(ip@)) is None && e
                    == ApiError::MalformedRequest,
            },
    {
        let mut pq = String::from_str("/ip-probe?output-case=snake&ip=");
        pq.append(ip);
        self.neutral.compose(pq.as_str())
    }

    /// Turns the status and body of the response into the typed result:
    /// a remote failure for any status but 200, else the decoded body.
    pub fn response(&self, status: u16, body: Vec<u8>) -> (r: Result<IpProbeResponse, ApiError>)
        ensures
            status != 200 ==> (r matches Err(e) && is_remote_failure(e, status, body@)),
            status == 200 ==> (r is Ok <==> ip_probe_decodes(body@)),
            status == 200 ==> (r matches Err(e) ==> e == ApiError::Decode(body)),
    {
        let body = classify(status, body)?;
        match decode_ip_probe(body.as_slice()) {
            Ok(v) => Ok(v),
            Err(_) => Err(ApiError::Decode(body)),
        }
    }
}

} // verus!
