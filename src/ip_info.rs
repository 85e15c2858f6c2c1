//! Location information about an IP address.
use crate::client::{classify, is_remote_failure, request_for, ClientView, ComposedRequest, Neutral};
use crate::decode::{decode_ip_info, ip_info_decodes};
use crate::error::ApiError;
use neutral_types::ip_info::IpInfoResponse;
use vstd::prelude::*;
use vstd::string::*;

verus! {

/// The path and query of an ip info request for the address text `ip`.
pub open spec fn ip_info_query(ip: Seq<char>) -> Seq<char> {
    "/ip-info?output-case=snake&ip="@ + ip
}

/// The ip info endpoint of a client.
pub struct IpInfo<'a> {
    pub(crate) neutral: &'a Neutral,
}

impl Neutral {
    /// The ip info endpoint of this client.
    pub fn ip_info(&self) -> (r: IpInfo)
        ensures
            r.client() == self@,
    {
        IpInfo { neutral: self }
    }
}

impl<'a> IpInfo<'a> {
    /// The client whose base address and credentials the requests use.
    pub closed spec fn client(&self) -> ClientView {
        self.neutral@
    }

    /// Composes the request for the address written as `ip`.
    pub fn request(&self, ip: &str) -> (r: Result<ComposedRequest, ApiError>)
        ensures
            match r {
                Ok(req) => request_for(self.client(), ip_info_query(ip@)) == Some(req@),
                Err(e) => request_for(self.client(), ip_info_query(ip@)) is None && e
                    == ApiError::MalformedRequest,
            },
    {
        let mut pq = String::from_str("/ip-info?output-case=snake&ip=");
        pq.append(ip);
        self.neutral.compose(pq.as_str())
    }

    /// Turns the status and body of the response into the typed result:
    /// a remote failure for any status but 200, else the decoded body.
    pub fn response(&self, status: u16, body: Vec<u8>) -> (r: Result<IpInfoResponse, ApiError>)
        ensures
            status != 200 ==> (r matches Err(e) && is_remote_failure(e, status, body@)),
            status == 200 ==> (r is Ok <==> ip_info_decodes(body@)),
            status == 200 ==> (r matches Err(e) ==> e == ApiError::Decode(body)),
    {
        let body = classify(status, body)?;
        match decode_ip_info(body.as_slice()) {
            Ok(v) => Ok(v),
            Err(_) => Err(ApiError::Decode(body)),
        }
    }
}

} // verus!
