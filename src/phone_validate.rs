//! Parsing, validation and location information of a phone number.
use crate::client::{classify, is_remote_failure, request_for, ClientView, ComposedRequest, Neutral};
use crate::decode::{decode_phone_validate, phone_validate_decodes};
use crate::error::ApiError;
use crate::number::{bare_number, strip_leading_plus};
use neutral_types::phone_validate::PhoneValidateResponse;
use vstd::prelude::*;
use vstd::string::*;

verus! {

/// The path and query of a phone validate request for the phone number `number`,
/// given without its leading `+`.
pub open spec fn phone_validate_query(number: Seq<char>) -> Seq<char> {
    "/phone-validate?output-case=snake&number="@ + bare_number(number)
}

/// The phone validate endpoint of a client.
pub struct PhoneValidate<'a> {
    pub(crate) neutral: &'a Neutral,
}

impl Neutral {
    /// The phone validate endpoint of this client.
    pub fn phone_validate(&self) -> (r: PhoneValidate)
        ensures
            r.client() == self@,
    {
        PhoneValidate { neutral: self }
    }
}

impl<'a> PhoneValidate<'a> {
    /// The client whose base address and credentials the requests use.
    pub closed spec fn client(&self) -> ClientView {
        self.neutral@
    }

    /// Composes the request for the phone number `number`; a leading `+` is dropped.
    pub fn request(&self, number: &str) -> (r: Result<ComposedRequest, ApiError>)
        ensures
            match r {
                Ok(req) => request_for(self.client(), phone_validate_query(number@)) == Some(req@),
                Err(e) => request_for(self.client(), phone_validate_query(number@)) is None && e
                    == ApiError::MalformedRequest,
            },
    {
        let mut pq = String::from_str("/phone-validate?output-case=snake&number=");
        pq.append(strip_leading_plus(number));
        self.neutral.compose(pq.as_str())
    }

    /// Turns the status and body of the response into the typed result:
    /// a remote failure for any status but 200, else the decoded body.
    pub fn response(&self, status: u16, body: Vec<u8>) -> (r: Result<PhoneValidateResponse, ApiError>)
        ensures
            status != 200 ==> (r matches Err(e) && is_remote_failure(e, status, body@)),
            status == 200 ==> (r is Ok <==> phone_validate_decodes(body@)),
            status == 200 ==> (r matches Err(e) ==> e == ApiError::Decode(body)),
    {
        let body = classify(status, body)?;
        match decode_phone_validate(body.as_slice()) {
            Ok(v) => Ok(v),
            Err(_) => Err(ApiError::Decode(body)),
        }
    }
}

} // verus!
