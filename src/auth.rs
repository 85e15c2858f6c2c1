use secrecy::{ExposeSecret, Secret};
use vstd::prelude::*;

verus! {

/// A string held in a `secrecy::Secret`, whose debug form is redacted.
/// Verus refuses a declaration of `Secret` itself (its bound is an outside
/// trait), so the secret is kept in a private field that Verus does not read.
#[verifier::external_body]
#[derive(Debug)]
pub struct SecretText {
    inner: Secret<String>,
}

impl Clone for SecretText {
    /// Relies on `Clone` for `secrecy::Secret<String>`, which clones the held string.
    #[verifier::external_body]
    fn clone(&self) -> (r: Self)
        ensures
            secret_text(r) == secret_text(*self),
    {
        SecretText { inner: self.inner.clone() }
    }
}

/// The text held inside a `SecretText`.
pub uninterp spec fn secret_text(s: SecretText) -> Seq<char>;

/// Relies on `secrecy::Secret::new`: the secret holds exactly the given string.
#[verifier::external_body]
fn seal(s: String) -> (r: SecretText)
    ensures
        secret_text(r) == s@,
{
    SecretText { inner: Secret::new(s) }
}

/// Relies on `secrecy::ExposeSecret::expose_secret`: it hands out the held string.
#[verifier::external_body]
fn unseal(s: &SecretText) -> (r: &String)
    ensures
        r@ == secret_text(*s),
{
    s.inner.expose_secret()
}

/// Credentials for neutrinoapi.com. Their debug form never shows the values.
#[derive(Debug, Clone)]
pub struct ApiAuth {
    user_id: SecretText,
    api_key: SecretText,
}

impl ApiAuth {
    /// The user id held by these credentials.
    pub closed spec fn user_id_view(&self) -> Seq<char> {
        secret_text(self.user_id)
    }

    /// The api key held by these credentials.
    pub closed spec fn api_key_view(&self) -> Seq<char> {
        secret_text(self.api_key)
    }

    /// Creates credentials from a neutrinoapi.com user id and api key.
    pub fn new(user_id: String, api_key: String) -> (r: Self)
        ensures
            r.user_id_view() == user_id@,
            r.api_key_view() == api_key@,
    {
        ApiAuth { user_id: seal(user_id), api_key: seal(api_key) }
    }

    /// The user id, for the single place where it is put into a header.
    pub(crate) fn expose_user_id(&self) -> (r: &String)
        ensures
            r@ == self.user_id_view(),
    {
        unseal(&self.user_id)
    }

    /// The api key, for the single place where it is put into a header.
    pub(crate) fn expose_api_key(&self) -> (r: &String)
        ensures
            r@ == self.api_key_view(),
    {
        unseal(&self.api_key)
    }
}

} // verus!
