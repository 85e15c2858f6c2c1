//! Detection of malicious or anonymizing IP addresses.
use crate::client::{classify, is_remote_failure, request_for, ClientView, ComposedRequest, Neutral};
use crate::decode::{decode_ip_blocklist, ip_blocklist_decodes};
use crate::error::ApiError;
use neutral_types::ip_blocklist::IpBlocklistResponse;
use vstd::prelude::*;
use vstd::string::*;

verus! {

/// The path and query of an ip blocklist request for the address text `ip`.
pub open spec fn ip_blocklist_query(ip: Seq<char>) -> Seq<char> {
    "/ip-blocklist?output-case=snake&ip="@ + ip + "&vpn-lookup=true"@
}

/// The ip blocklist endpoint of a client.
pub struct IpBlocklist<'a> {
    pub(crate) neutral: &'a Neutral,
}

impl Neutral {
    /// The ip blocklist endpoint of this client.
    pub fn ip_blocklist(&self) -> (r: IpBlocklist)
        ensures
            r.client() == self@,
    {
        IpBlocklist { neutral: self }
    }
}

impl<'a> IpBlocklist<'a> {
    /// The client whose base address and credentials the requests use.
    pub closed spec fn client(&self) -> ClientView {
        self.neutral@
    }

    /// Composes the request for the address written as `ip`.
    pub fn request(&self, ip: &str) -> (r: Result<ComposedRequest, ApiError>)
        ensures
            match r {
                Ok(req) => request_for(self.client(), ip_blocklist_query(ip@)) == Some(req@),
                Err(e) => request_for(self.client(), ip_blocklist_query(ip@)) is None && e
                    == ApiError::MalformedRequest,
            },
    {
        let mut pq = String::from_str("/ip-blocklist?output-case=snake&ip=");
        pq.append(ip);
        pq.append("&vpn-lookup=true");
        self.neutral.compose(pq.as_str())
    }

    /// Turns the status and body of the response into the typed result:
    /// a remote failure for any status but 200, else the decoded body.
    pub fn response(&self, status: u16, body: Vec<u8>) -> (r: Result<IpBlocklistResponse, ApiError>)
        ensures
            status != 200 ==> (r matches Err(e) && is_remote_failure(e, status, body@)),
            status == 200 ==> (r is Ok <==> ip_blocklist_decodes(body@)),
            status == 200 ==> (r matches Err(e) ==> e == ApiError::Decode(body)),
    {
        let body = classify(status, body)?;
        match decode_ip_blocklist(body.as_slice()) {
            Ok(v) => Ok(v),
            Err(_) => Err(ApiError::Decode(body)),
        }
    }
}

} // verus!
