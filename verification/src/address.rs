//! Contract addresses in their raw 32-byte form and in bech32 text.

use vstd::prelude::*;
use vstd::slice::slice_to_vec;

verus! {

/// Number of bytes in a raw address.
pub const ADDRESS_LEN: usize = 32;

/// Longest text that the bech32 checksum covers.
pub const BECH32_CODE_LEN: usize = 1023;

/// Most bytes whose text, with the address prefix, is that long or shorter.
pub const MAX_PAYLOAD_LEN: usize = 633;

/// Why a text or a byte string is not an address.
#[derive(Debug, Clone, Copy, PartialEq, Eq, Structural)]
pub enum AddressError {
    /// The text is not valid bech32.
    Undecodable,
    /// The text decodes to something other than 32 bytes.
    WrongLength,
    /// The bytes are too many for one bech32 text.
    TooLong,
}

/// `bech32::DecodeError`, carried through and never looked into.
#[verifier::external_type_specification]
#[verifier::external_body]
pub struct ExDecodeError(bech32::DecodeError);

/// `bech32::EncodeError`, carried through and never looked into.
#[verifier::external_type_specification]
#[verifier::external_body]
pub struct ExEncodeError(bech32::EncodeError);

/// `bech32::Hrp`, a parsed human-readable part.
#[verifier::external_type_specification]
#[verifier::external_body]
pub struct ExHrp(bech32::Hrp);

/// `bech32::primitives::hrp::Error`, carried through and never looked into.
#[verifier::external_type_specification]
#[verifier::external_body]
pub struct ExHrpError(bech32::primitives::hrp::Error);

/// The payload bytes that `bech32::decode` extracts from a text, or `None`
/// where it rejects the text.
pub uninterp spec fn bech32_decoded(text: Seq<char>) -> Option<Seq<u8>>;

/// The text that `bech32::encode` with the `Bech32` checksum produces for a
/// human-readable part and a payload.
pub uninterp spec fn bech32_encoded(hrp: Seq<char>, data: Seq<u8>) -> Seq<char>;

/// The characters that a parsed human-readable part holds.
pub uninterp spec fn hrp_text(hrp: bech32::Hrp) -> Seq<char>;

/// An ASCII lower-case letter.
pub open spec fn is_lower(c: char) -> bool {
    'a' <= c <= 'z'
}

/// An ASCII upper-case letter.
pub open spec fn is_upper(c: char) -> bool {
    'A' <= c <= 'Z'
}

/// A human-readable part is 1 to 83 printable ASCII characters, not of
/// mixed case.
pub open spec fn hrp_is_valid(text: Seq<char>) -> bool {
    &&& 1 <= text.len() <= 83
    &&& forall|i: int| 0 <= i < text.len() ==> '!' <= #[trigger] text[i] <= '~'
    &&& forall|i: int, j: int|
        0 <= i < text.len() && 0 <= j < text.len() ==> !(is_lower(#[trigger] text[i]) && is_upper(
            #[trigger] text[j],
        ))
}

/// Length of the bech32 text for a human-readable part of `hrp_len`
/// characters and a payload of `data_len` bytes: the part, a separator, one
/// character per started group of five bits, and six checksum characters.
pub open spec fn encoded_len(hrp_len: nat, data_len: nat) -> nat {
    hrp_len + 1 + (data_len * 8 + 4) / 5 + 6
}

/// `bech32::decode`, keeping the payload and dropping the human-readable
/// part. Trusted: the outcome is the one named by `bech32_decoded`.
#[verifier::external_body]
fn decode_bech32(text: &str) -> (r: Result<Vec<u8>, bech32::DecodeError>)
    ensures
        r is Ok <==> bech32_decoded(text@) is Some,
        r matches Ok(data) ==> Some(data@) == bech32_decoded(text@),
{
    match bech32::decode(text) {
        Ok((_, data)) => Ok(data),
        Err(e) => Err(e),
    }
}

/// `bech32::Hrp::parse`. Trusted: it accepts exactly the valid
/// human-readable parts and keeps their characters.
#[verifier::external_body]
fn parse_hrp(text: &str) -> (r: Result<bech32::Hrp, bech32::primitives::hrp::Error>)
    ensures
        r is Ok <==> hrp_is_valid(text@),
        r matches Ok(hrp) ==> hrp_text(hrp) == text@,
{
    bech32::Hrp::parse(text)
}

/// `bech32::encode` with the `Bech32` checksum. Trusted: it succeeds
/// whenever the text is no longer than the checksum covers, and what it
/// gives is the text named by `bech32_encoded`.
#[verifier::external_body]
fn encode_bech32(hrp: bech32::Hrp, data: &[u8]) -> (r: Result<String, bech32::EncodeError>)
    ensures
        encoded_len(hrp_text(hrp).len(), data@.len()) <= BECH32_CODE_LEN ==> r is Ok,
        r matches Ok(text) ==> text@ == bech32_encoded(hrp_text(hrp), data@),
{
    bech32::encode::<bech32::Bech32>(hrp, data)
}

/// `str::strip_prefix` with a text pattern. Trusted: it returns what follows
/// the prefix where the text starts with it, else `None`.
#[verifier::external_body]
fn strip_prefix<'a>(text: &'a str, prefix: &str) -> (r: Option<&'a str>)
    ensures
        r is Some <==> prefix@.is_prefix_of(text@),
        r matches Some(rest) ==> rest@ == text@.skip(prefix@.len() as int),
{
    text.strip_prefix(prefix)
}

/// The human-readable part of every address text.
pub open spec fn address_hrp() -> Seq<char> {
    "erd"@
}

/// The marker that older records put in front of the address text.
pub open spec fn legacy_marker() -> Seq<char> {
    "bech32:"@
}

/// The address text without the legacy marker, where it has one.
pub open spec fn without_marker(text: Seq<char>) -> Seq<char> {
    if legacy_marker().is_prefix_of(text) {
        text.skip(legacy_marker().len() as int)
    } else {
        text
    }
}

/// What an address is: its raw bytes and the text that names it.
pub struct AddressView {
    pub bytes: Seq<u8>,
    pub text: Seq<char>,
}

/// An address together with its bech32 text, kept side by side so that the
/// text is never computed twice.
#[derive(Debug, Clone, PartialEq, Eq)]
pub struct Bech32Address {
    address: Vec<u8>,
    bech32: String,
}

impl View for Bech32Address {
    type V = AddressView;

    closed spec fn view(&self) -> AddressView {
        AddressView { bytes: self.address@, text: self.bech32@ }
    }
}

/// The address that a text and the outcome of decoding it describe.
pub open spec fn address_of(text: Seq<char>, decoded: Option<Seq<u8>>) -> Result<
    AddressView,
    AddressError,
> {
    match decoded {
        None => Err(AddressError::Undecodable),
        Some(bytes) => if bytes.len() == ADDRESS_LEN {
            Ok(AddressView { bytes, text })
        } else {
            Err(AddressError::WrongLength)
        },
    }
}

/// The text of a byte string under the three-character address prefix,
/// where it fits in one bech32 text.
pub open spec fn text_of(bytes: Seq<u8>) -> Result<Seq<char>, AddressError> {
    if encoded_len(3, bytes.len()) <= BECH32_CODE_LEN {
        Ok(bech32_encoded(address_hrp(), bytes))
    } else {
        Err(AddressError::TooLong)
    }
}

/// The address that raw bytes stand for: 32 bytes, beside their text.
pub open spec fn address_from_bytes(bytes: Seq<u8>) -> Result<AddressView, AddressError> {
    if bytes.len() == ADDRESS_LEN {
        Ok(AddressView { bytes, text: bech32_encoded(address_hrp(), bytes) })
    } else {
        Err(AddressError::WrongLength)
    }
}

/// Same outcome, with the value seen through its view.
pub open spec fn address_result_view(r: Result<Bech32Address, AddressError>) -> Result<
    AddressView,
    AddressError,
> {
    match r {
        Ok(a) => Ok(a@),
        Err(e) => Err(e),
    }
}

/// The human-readable part of addresses is three characters and valid.
pub proof fn lemma_address_hrp_valid()
    ensures
        address_hrp().len() == 3,
        hrp_is_valid(address_hrp()),
{
    reveal_strlit("erd");
}

/// Encodes raw bytes as address text.
pub fn encode_address(bytes: &[u8]) -> (r: Result<String, AddressError>)
    ensures
        r matches Ok(text) ==> text_of(bytes@) == Ok::<Seq<char>, AddressError>(text@),
        r matches Err(e) ==> text_of(bytes@) == Err::<Seq<char>, AddressError>(e),
{
    proof {
        lemma_address_hrp_valid();
    }
    if bytes.len() > MAX_PAYLOAD_LEN {
        return Err(AddressError::TooLong);
    }
    match parse_hrp("erd") {
        Ok(hrp) => match encode_bech32(hrp, bytes) {
            Ok(text) => Ok(text),
            Err(_) => {
                proof {
                    assert(false);
                }
                Err(AddressError::TooLong)
            },
        },
        Err(_) => {
            proof {
                assert(false);
            }
            Err(AddressError::TooLong)
        },
    }
}

impl Bech32Address {
    /// A well-formed address has exactly 32 raw bytes.
    pub open spec fn wf(&self) -> bool {
        self@.bytes.len() == ADDRESS_LEN
    }

    /// Pairs a text with the outcome of decoding it.
    pub fn from_decoded(bech32: String, decoded: Option<Vec<u8>>) -> (r: Result<Self, AddressError>)
        ensures
            address_result_view(r) == address_of(
                bech32@,
                match decoded {
                    Some(v) => Some(v@),
                    None => None,
                },
            ),
            r matches Ok(a) ==> a.wf(),
    {
        match decoded {
            None => Err(AddressError::Undecodable),
            Some(address) => {
                if address.len() == ADDRESS_LEN {
                    Ok(Bech32Address { address, bech32 })
                } else {
                    Err(AddressError::WrongLength)
                }
            },
        }
    }

    /// Pairs a raw address with its text. Anything but 32 bytes is refused.
    pub fn from_address(bytes: &[u8]) -> (r: Result<Self, AddressError>)
        ensures
            address_result_view(r) == address_from_bytes(bytes@),
            r matches Ok(a) ==> a.wf(),
    {
        if bytes.len() != ADDRESS_LEN {
            return Err(AddressError::WrongLength);
        }
        match encode_address(bytes) {
            Ok(bech32) => Self::from_decoded(bech32, Some(slice_to_vec(bytes))),
            Err(e) => Err(e),
        }
    }

    /// Decodes a bech32 text and keeps it beside the bytes it stands for.
    pub fn from_bech32_string(bech32: String) -> (r: Result<Self, AddressError>)
        ensures
            address_result_view(r) == address_of(bech32@, bech32_decoded(bech32@)),
            r matches Ok(a) ==> a.wf(),
    {
        let decoded = match decode_bech32(bech32.as_str()) {
            Ok(data) => Some(data),
            Err(_) => None,
        };
        Self::from_decoded(bech32, decoded)
    }

    /// Reads an address text as a record stores it, with or without the
    /// legacy marker in front.
    pub fn from_stored(stored: &str) -> (r: Result<Self, AddressError>)
        ensures
            address_result_view(r) == address_of(
                without_marker(stored@),
                bech32_decoded(without_marker(stored@)),
            ),
            r matches Ok(a) ==> a.wf(),
    {
        let text = match strip_prefix(stored, "bech32:") {
            Some(rest) => rest,
            None => stored,
        };
        Self::from_bech32_string(text.to_owned())
    }

    /// The bech32 text.
    pub fn to_bech32_str(&self) -> (r: &str)
        ensures
            r@ == self@.text,
    {
        self.bech32.as_str()
    }

    /// A fresh copy of the bech32 text.
    pub fn to_bech32_string(&self) -> (r: String)
        ensures
            r@ == self@.text,
    {
        self.bech32.clone()
    }

    /// The raw bytes.
    pub fn as_bytes(&self) -> (r: &[u8])
        ensures
            r@ == self@.bytes,
    {
        self.address.as_slice()
    }

    /// A copy of this address.
    pub fn duplicate(&self) -> (r: Self)
        ensures
            r@ == self@,
    {
        Bech32Address { address: self.address.clone(), bech32: self.bech32.clone() }
    }
}

} // verus!
