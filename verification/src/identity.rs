//! Session identities: one per accepted connect request.

use vstd::prelude::*;

verus! {

/// The token that tells one connection attempt from every other.
///
/// `serial` counts the attempts of one manager, so two identities minted by
/// the same manager always differ. `token` is a random 128-bit identifier; it
/// is what the log shows.
#[derive(Clone, Copy, Debug, PartialEq, Eq, Structural)]
pub struct SessionIdentity {
    pub serial: u64,
    pub token: u128,
}

/// The text under which a token appears in the log: the hyphenated,
/// lower-case form that `uuid` prints for the identifier with this value.
pub uninterp spec fn token_text(token: u128) -> Seq<char>;

/// Calls `uuid::Uuid::new_v4` and hands the identifier back as its 128-bit
/// value. The value is random, so nothing is claimed of it.
#[verifier::external_body]
pub(crate) fn random_token() -> (token: u128) {
    uuid::Uuid::new_v4().as_u128()
}

/// Makes the `uuid::Uuid` with the value `token` by `Uuid::from_u128` and
/// calls `to_string` on it. The text depends on `token` alone; the contract
/// gives it the name `token_text` and claims nothing else of it.
#[verifier::external_body]
pub(crate) fn render_token(token: u128) -> (text: String)
    ensures
        text@ == token_text(token),
{
    uuid::Uuid::from_u128(token).to_string()
}

impl SessionIdentity {
    /// The text that stands for this identity in the log.
    pub open spec fn label(self) -> Seq<char> {
        token_text(self.token)
    }

    /// The text that stands for this identity in the log.
    pub fn to_text(&self) -> (text: String)
        ensures
            text@ == self.label(),
    {
        render_token(self.token)
    }
}

} // verus!
