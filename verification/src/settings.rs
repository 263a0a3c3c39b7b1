//! The settings of the remote ledger and whether they can be used.

use vstd::prelude::*;

verus! {

/// The three settings of the remote ledger, each as found or not found.
pub struct RemoteSettings {
    pub endpoint: Option<String>,
    pub contract_address: Option<String>,
    pub signing_key: Option<String>,
}

/// What the settings allow.
#[derive(Clone, Copy, Debug, PartialEq, Eq, Structural)]
pub enum SettingsVerdict {
    /// At least one setting is absent: the session runs without the remote
    /// ledger, and that is no fault.
    Missing,
    /// All are present, but the address or the key cannot be read.
    Malformed,
    /// All are present and readable.
    Usable,
}

pub open spec fn is_hex_digit(c: char) -> bool {
    ('0' <= c && c <= '9') || ('a' <= c && c <= 'f') || ('A' <= c && c <= 'F')
}

/// The characters that may stand between the digits of an address.
pub open spec fn is_blank(c: char) -> bool {
    c == ' ' || c == '\r' || c == '\n' || c == '\t'
}

/// How many hexadecimal digits the text holds.
pub open spec fn digits_in(text: Seq<char>) -> nat
    decreases text.len(),
{
    if text.len() == 0 {
        0
    } else {
        digits_in(text.drop_last()) + if is_hex_digit(text.last()) { 1nat } else { 0nat }
    }
}

/// The text without one leading `0x`.
pub open spec fn after_prefix(text: Seq<char>) -> Seq<char> {
    if text.len() >= 2 && text[0] == '0' && text[1] == 'x' {
        text.skip(2)
    } else {
        text
    }
}

/// The text is a contract address: after an optional `0x`, forty
/// hexadecimal digits, with nothing but blanks among them.
pub open spec fn address_text(text: Seq<char>) -> bool {
    let body = after_prefix(text);
    &&& forall|i: int| 0 <= i < body.len() ==> is_hex_digit(#[trigger] body[i]) || is_blank(body[i])
    &&& digits_in(body) == 40
}

/// Whether the text is a signing key that the wallet accepts.
pub uninterp spec fn signing_key_accepted(text: Seq<char>) -> bool;

/// Calls `str::parse` for `ethers::types::Address`, the `FromStr` of the
/// twenty-byte hash type, and says whether it succeeded. Not proved: that
/// the parser drops one leading `0x`, skips blanks wherever they stand, and
/// wants exactly forty hexadecimal digits and nothing else.
#[verifier::external_body]
fn address_parses(text: &str) -> (r: bool)
    ensures
        r == address_text(text@),
{
    text.parse::<ethers::types::Address>().is_ok()
}

/// Calls `str::parse` for `ethers::signers::LocalWallet`, the `FromStr` of
/// a wallet over a signing key, and says whether it succeeded. Not proved:
/// that the outcome depends on the text alone. Which texts the wallet
/// accepts is left to it.
#[verifier::external_body]
fn signing_key_parses(text: &str) -> (r: bool)
    ensures
        r == signing_key_accepted(text@),
{
    text.parse::<ethers::signers::LocalWallet>().is_ok()
}

/// The verdict from what was found: whether all three settings are present,
/// and whether address and key could be read.
pub open spec fn judged(present: bool, address_ok: bool, key_ok: bool) -> SettingsVerdict {
    if !present {
        SettingsVerdict::Missing
    } else if address_ok && key_ok {
        SettingsVerdict::Usable
    } else {
        SettingsVerdict::Malformed
    }
}

/// Judges the settings from what was found of them.
pub fn judge(present: bool, address_ok: bool, key_ok: bool) -> (r: SettingsVerdict)
    ensures
        r == judged(present, address_ok, key_ok),
{
    if !present {
        SettingsVerdict::Missing
    } else if address_ok && key_ok {
        SettingsVerdict::Usable
    } else {
        SettingsVerdict::Malformed
    }
}

impl RemoteSettings {
    /// All three settings are present. With any one missing there is no
    /// remote ledger for this session.
    pub open spec fn complete(self) -> bool {
        self.endpoint is Some && self.contract_address is Some && self.signing_key is Some
    }

    /// The verdict on these settings.
    pub open spec fn verdict_of(self) -> SettingsVerdict {
        judged(
            self.complete(),
            self.contract_address is Some && address_text(self.contract_address->0@),
            self.signing_key is Some && signing_key_accepted(self.signing_key->0@),
        )
    }

    pub fn is_complete(&self) -> (r: bool)
        ensures
            r == self.complete(),
    {
        self.endpoint.is_some() && self.contract_address.is_some() && self.signing_key.is_some()
    }

    /// Judges the settings: missing, malformed or usable.
    pub fn verdict(&self) -> (r: SettingsVerdict)
        ensures
            r == self.verdict_of(),
            !self.complete() ==> r == SettingsVerdict::Missing,
            self.complete() && !address_text(self.contract_address->0@) ==> r
                == SettingsVerdict::Malformed,
    {
        let present: bool = self.is_complete();
        let address_ok: bool = match &self.contract_address {
            Some(a) => address_parses(a.as_str()),
            None => false,
        };
        let key_ok: bool = match &self.signing_key {
            Some(k) => signing_key_parses(k.as_str()),
            None => false,
        };
        judge(present, address_ok, key_ok)
    }
}

} // verus!
