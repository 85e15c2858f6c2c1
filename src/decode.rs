//! Decoding of success bodies into the response types of `neutral_types`.
//!
//! The field aliases (`valid` or `is_valid`, `type` or `kind`) and the
//! reading of `{}` or `null` as an absent nested record are done by those
//! types' `Deserialize` impls; this module names whether a body decodes.
use neutral_types::hlr_lookup::HlrLookupResponse;
use neutral_types::ip_blocklist::IpBlocklistResponse;
use neutral_types::ip_info::IpInfoResponse;
use neutral_types::ip_probe::IpProbeResponse;
use neutral_types::phone_validate::PhoneValidateResponse;
use vstd::prelude::*;

verus! {

#[verifier::external_type_specification]
#[verifier::external_body]
pub struct ExJsonError(serde_json::Error);

#[verifier::external_type_specification]
#[verifier::external_body]
pub struct ExPhoneValidateResponse(PhoneValidateResponse);

/// Whether `serde_json` decodes the bytes into a `PhoneValidateResponse`.
pub uninterp spec fn phone_validate_decodes(body: Seq<u8>) -> bool;

/// Relies on `serde_json::from_slice` into `neutral_types::phone_validate::PhoneValidateResponse`:
/// it succeeds or fails depending on the bytes alone.
#[verifier::external_body]
pub(crate) fn decode_phone_validate(body: &[u8]) -> (r: Result<PhoneValidateResponse, serde_json::Error>)
    ensures
        r is Ok == phone_validate_decodes(body@),
{
    serde_json::from_slice(body)
}

#[verifier::external_type_specification]
#[verifier::external_body]
pub struct ExHlrLookupResponse(HlrLookupResponse);

/// Whether `serde_json` decodes the bytes into a `HlrLookupResponse`.
pub uninterp spec fn hlr_lookup_decodes(body: Seq<u8>) -> bool;

/// Relies on `serde_json::from_slice` into `neutral_types::hlr_lookup::HlrLookupResponse`:
/// it succeeds or fails depending on the bytes alone.
#[verifier::external_body]
pub(crate) fn decode_hlr_lookup(body: &[u8]) -> (r: Result<HlrLookupResponse, serde_json::Error>)
    ensures
        r is Ok == hlr_lookup_decodes(body@),
{
    serde_json::from_slice(body)
}

#[verifier::external_type_specification]
#[verifier::external_body]
pub struct ExIpInfoResponse(IpInfoResponse);

/// Whether `serde_json` decodes the bytes into a `IpInfoResponse`.
pub uninterp spec fn ip_info_decodes(body: Seq<u8>) -> bool;

/// Relies on `serde_json::from_slice` into `neutral_types::ip_info::IpInfoResponse`:
/// it succeeds or fails depending on the bytes alone.
#[verifier::external_body]
pub(crate) fn decode_ip_info(body: &[u8]) -> (r: Result<IpInfoResponse, serde_json::Error>)
    ensures
        r is Ok == ip_info_decodes(body@),
{
    serde_json::from_slice(body)
}

#[verifier::external_type_specification]
#[verifier::external_body]
pub struct ExIpBlocklistResponse(IpBlocklistResponse);

/// Whether `serde_json` decodes the bytes into a `IpBlocklistResponse`.
pub uninterp spec fn ip_blocklist_decodes(body: Seq<u8>) -> bool;

/// Relies on `serde_json::from_slice` into `neutral_types::ip_blocklist::IpBlocklistResponse`:
/// it succeeds or fails depending on the bytes alone.
#[verifier::external_body]
pub(crate) fn decode_ip_blocklist(body: &[u8]) -> (r: Result<IpBlocklistResponse, serde_json::Error>)
    ensures
        r is Ok == ip_blocklist_decodes(body@),
{
    serde_json::from_slice(body)
}

#[verifier::external_type_specification]
#[verifier::external_body]
pub struct ExIpProbeResponse(IpProbeResponse);

/// Whether `serde_json` decodes the bytes into a `IpProbeResponse`.
pub uninterp spec fn ip_probe_decodes(body: Seq<u8>) -> bool;

/// Relies on `serde_json::from_slice` into `neutral_types::ip_probe::IpProbeResponse`:
/// it succeeds or fails depending on the bytes alone.
#[verifier::external_body]
pub(crate) fn decode_ip_probe(body: &[u8]) -> (r: Result<IpProbeResponse, serde_json::Error>)
    ensures
        r is Ok == ip_probe_decodes(body@),
{
    serde_json::from_slice(body)
}

} // verus!
