//! Account addresses: 32 opaque bytes, written for people in bech32.

use multiversx_sc_snippets::imports::Bech32Address;
use vstd::prelude::*;
use vstd::std_specs::cmp::PartialEqSpecImpl;

verus! {

/// The 32-byte key of an account. The ledger files subscriptions under it.
#[derive(Clone, Copy, Debug, Eq)]
pub struct Address {
    bytes: [u8; 32],
}

impl View for Address {
    type V = Seq<u8>;

    closed spec fn view(&self) -> Seq<u8> {
        self.bytes@
    }
}

/// Two addresses are equal when their bytes are.
impl PartialEq for Address {
    fn eq(&self, other: &Address) -> (equal: bool) {
        let mut i: usize = 0;
        while i < 32
            invariant
                i <= 32,
                forall|j: int| 0 <= j < i ==> self.bytes@[j] == other.bytes@[j],
            decreases 32 - i,
        {
            if self.bytes[i] != other.bytes[i] {
                return false;
            }
            i += 1;
        }
        assert(self.bytes@ =~= other.bytes@);
        true
    }
}

impl PartialEqSpecImpl for Address {
    open spec fn obeys_eq_spec() -> bool {
        true
    }

    open spec fn eq_spec(&self, other: &Address) -> bool {
        self@ == other@
    }
}

/// The refusal of a text that is no bech32 rendering of a 32-byte address.
#[derive(Clone, Copy, Debug, PartialEq, Eq, Structural)]
pub struct InvalidAddress;

/// The bytes that a bech32 text stands for: `Some` where the text is valid
/// bech32, under whatever prefix, and carries exactly 32 bytes; `None` for
/// every other text.
pub uninterp spec fn bech32_payload(text: Seq<char>) -> Option<Seq<u8>>;

/// The bech32 text of 32 bytes under the network's default prefix, `erd`.
pub uninterp spec fn bech32_text(bytes: Seq<u8>) -> Seq<char>;

/// Calls `Bech32Address::try_from_bech32_string` of multiversx-chain-core,
/// which multiversx-sc-snippets hands on, and gives out the bytes of the
/// address that it decoded, or `None` where it reported an error. The
/// contract, which is not proved, names the decoded payload and claims of it
/// what that function's source shows: the empty text is an error, and on
/// success the payload is the 32 bytes returned.
#[verifier::external_body]
fn decode_bech32(text: &str) -> (decoded: Option<[u8; 32]>)
    ensures
        decoded is Some <==> bech32_payload(text@) is Some,
        decoded matches Some(bytes) ==> bech32_payload(text@) == Some(bytes@),
        text@.len() == 0 ==> decoded is None,
{
    match Bech32Address::try_from_bech32_string(text.to_string()) {
        Ok(parsed) => Some(parsed.into_address().into()),
        Err(_) => None,
    }
}

/// Calls `Address::to_bech32_default` of multiversx-chain-core, which
/// multiversx-sc-snippets hands on; it encodes 32 bytes under the prefix
/// `erd`. The contract, which is not proved, only names the text.
#[verifier::external_body]
fn encode_bech32(bytes: &[u8; 32]) -> (text: String)
    ensures
        text@ == bech32_text(bytes@),
{
    multiversx_sc_snippets::imports::Address::new(*bytes).to_bech32_default().to_bech32_string()
}

impl Address {
    /// The address made of these bytes.
    pub fn new(bytes: [u8; 32]) -> (address: Address)
        ensures
            address@ == bytes@,
    {
        Address { bytes }
    }

    /// The bytes of the address.
    pub fn to_bytes(&self) -> (bytes: [u8; 32])
        ensures
            bytes@ == self@,
    {
        self.bytes
    }

    /// Reads an address from its bech32 text. Texts that are not bech32, or
    /// that carry a payload of another length than 32 bytes, are refused; the
    /// empty text is one of them.
    pub fn from_bech32(text: &str) -> (parsed: Result<Address, InvalidAddress>)
        ensures
            match parsed {
                Ok(address) => bech32_payload(text@) == Some(address@),
                Err(_) => bech32_payload(text@) is None,
            },
            text@.len() == 0 ==> parsed is Err,
    {
        match decode_bech32(text) {
            Some(bytes) => Ok(Address::new(bytes)),
            None => Err(InvalidAddress),
        }
    }

    /// Writes the address in bech32.
    pub fn to_bech32(&self) -> (text: String)
        ensures
            text@ == bech32_text(self@),
    {
        encode_bech32(&self.bytes)
    }
}

/// An address has 32 bytes.
pub proof fn lemma_address_has_32_bytes(address: Address)
    ensures
        address@.len() == 32,
{
}

/// Addresses with the same bytes are the same address.
pub proof fn lemma_address_view_is_injective(a: Address, b: Address)
    requires
        a@ == b@,
    ensures
        a == b,
{
    assert(a.bytes =~= b.bytes);
}

} // verus!
