use vstd::prelude::*;
use vstd::utf8::encode_utf8;
use base64::Engine;

verus! {

// ---------------------------------------------------------------------------
// Base64, standard alphabet with canonical padding (RFC 4648, section 4).
// ---------------------------------------------------------------------------

/// The character that the standard base64 alphabet gives to a six-bit value.
pub open spec fn base64_symbol(v: int) -> char {
    if v < 26 {
        (v + 65) as char
    } else if v < 52 {
        (v - 26 + 97) as char
    } else if v < 62 {
        (v - 52 + 48) as char
    } else if v == 62 {
        '+'
    } else {
        '/'
    }
}

/// The standard, padded base64 text of `b`: each group of three bytes becomes
/// four symbols, and a final group of one or two bytes is padded with `=`.
pub open spec fn base64_encoding(b: Seq<u8>) -> Seq<char>
    decreases b.len(),
{
    if b.len() == 0 {
        seq![]
    } else {
        let x = b[0] as int;
        let y = if b.len() > 1 { b[1] as int } else { 0 };
        let z = if b.len() > 2 { b[2] as int } else { 0 };
        let c0 = base64_symbol(x / 4);
        let c1 = base64_symbol((x % 4) * 16 + y / 16);
        let c2 = base64_symbol((y % 16) * 4 + z / 64);
        let c3 = base64_symbol(z % 64);
        if b.len() == 1 {
            seq![c0, c1, '=', '=']
        } else if b.len() == 2 {
            seq![c0, c1, c2, '=']
        } else {
            seq![c0, c1, c2, c3] + base64_encoding(b.subrange(3, b.len() as int))
        }
    }
}

/// Why standard base64 decoding refused its input; the variants and their
/// fields are those of `base64::DecodeError`.
#[derive(Clone, Copy, Debug, PartialEq, Eq, Structural)]
pub enum Base64Error {
    /// A byte that is not a base64 symbol: its offset and the byte.
    InvalidByte(usize, u8),
    /// An input whose count of symbols cannot encode whole bytes.
    InvalidLength(usize),
    /// A last symbol with bits set that no byte uses: its offset and the byte.
    InvalidLastSymbol(usize, u8),
    /// Padding that is absent or not canonical.
    InvalidPadding,
}

/// The digit character of a value below ten.
pub open spec fn digit_char(d: nat) -> char {
    (d + 48) as char
}

/// The decimal text of `n`, without sign or leading zeros.
pub open spec fn decimal(n: nat) -> Seq<char>
    decreases n,
{
    if n < 10 {
        seq![digit_char(n)]
    } else {
        decimal(n / 10).push(digit_char(n % 10))
    }
}

impl Base64Error {
    /// The text that `base64::DecodeError` displays for this error.
    pub open spec fn text(self) -> Seq<char> {
        match self {
            Base64Error::InvalidByte(index, byte) => "Invalid symbol "@ + decimal(byte as nat)
                + ", offset "@ + decimal(index as nat) + "."@,
            Base64Error::InvalidLength(len) => "Invalid input length: "@ + decimal(len as nat),
            Base64Error::InvalidLastSymbol(index, byte) => "Invalid last symbol "@ + decimal(
                byte as nat,
            ) + ", offset "@ + decimal(index as nat) + "."@,
            Base64Error::InvalidPadding => "Invalid padding"@,
        }
    }
}

/// What `base64::engine::general_purpose::STANDARD.decode` returns for the
/// input bytes: the decoded bytes or the reason it refused them.
pub uninterp spec fn base64_decoding(input: Seq<u8>) -> Result<Seq<u8>, Base64Error>;

/// Decoding `input` gave `r` as canonical base64 decoding does: it succeeds
/// exactly on the UTF-8 bytes of the standard encoding of some bytes, and then
/// gives those bytes.
pub open spec fn canonical_decoding(input: Seq<u8>, r: Result<Vec<u8>, Base64Error>) -> bool {
    &&& (r matches Ok(bytes) ==> encode_utf8(base64_encoding(bytes@)) == input)
    &&& forall|b: Seq<u8>| #[trigger] encode_utf8(base64_encoding(b)) == input ==> (r matches Ok(
        bytes,
    ) && bytes@ == b)
}

/// `base64::engine::general_purpose::STANDARD.decode`: decodes standard
/// base64. Claims that it succeeds exactly on the standard, padded encoding
/// (`base64_encoding`) of some bytes and then gives those bytes: the STANDARD
/// engine requires canonical padding and refuses set trailing bits, so every
/// other input is refused. Which error comes out, and where, is given by name
/// only (`base64_decoding`).
#[verifier::external_body]
pub(crate) fn base64_decode(input: &[u8]) -> (r: Result<Vec<u8>, Base64Error>)
    ensures
        match r {
            Ok(bytes) => base64_decoding(input@) == Ok::<Seq<u8>, Base64Error>(bytes@),
            Err(e) => base64_decoding(input@) == Err::<Seq<u8>, Base64Error>(e),
        },
        canonical_decoding(input@, r),
{
    match base64::engine::general_purpose::STANDARD.decode(input) {
        Ok(bytes) => Ok(bytes),
        Err(base64::DecodeError::InvalidByte(i, b)) => Err(Base64Error::InvalidByte(i, b)),
        Err(base64::DecodeError::InvalidLength(n)) => Err(Base64Error::InvalidLength(n)),
        Err(base64::DecodeError::InvalidLastSymbol(i, b)) => Err(Base64Error::InvalidLastSymbol(i, b)),
        Err(base64::DecodeError::InvalidPadding) => Err(Base64Error::InvalidPadding),
    }
}

/// Standard base64 decoding of the UTF-8 bytes of `text` gives `bytes`.
pub open spec fn decodes_to(text: Seq<char>, bytes: Seq<u8>) -> bool {
    base64_decoding(encode_utf8(text)) == Ok::<Seq<u8>, Base64Error>(bytes)
}

/// The longest input that `base64_encode` takes: the length of its output,
/// four symbols per started group of three bytes, must fit in a `usize`,
/// or the outside encoder panics.
pub open spec fn base64_encodable(len: nat) -> bool {
    len / 3 * 4 + 4 <= usize::MAX
}

/// `base64::engine::general_purpose::STANDARD.encode`: standard base64 with
/// padding. Claims that the text is the RFC 4648 encoding written out in
/// `base64_encoding`, and that `STANDARD.decode` gives the bytes back from
/// that text (the crate is a correct RFC 4648 codec, and decoding accepts
/// canonical padding, which is what encoding writes).
#[verifier::external_body]
pub(crate) fn base64_encode(bytes: &[u8]) -> (text: String)
    requires
        base64_encodable(bytes@.len()),
    ensures
        text@ == base64_encoding(bytes@),
        decodes_to(text@, bytes@),
{
    base64::engine::general_purpose::STANDARD.encode(bytes)
}

/// `<base64::DecodeError as Display>::fmt` through `to_string`: the message
/// of a decoding error, as that impl writes it.
#[verifier::external_body]
pub(crate) fn base64_error_text(e: &Base64Error) -> (text: String)
    ensures
        text@ == e.text(),
{
    let outside = match *e {
        Base64Error::InvalidByte(i, b) => base64::DecodeError::InvalidByte(i, b),
        Base64Error::InvalidLength(n) => base64::DecodeError::InvalidLength(n),
        Base64Error::InvalidLastSymbol(i, b) => base64::DecodeError::InvalidLastSymbol(i, b),
        Base64Error::InvalidPadding => base64::DecodeError::InvalidPadding,
    };
    outside.to_string()
}

// ---------------------------------------------------------------------------
// PBKDF2 with HMAC-SHA256.
// ---------------------------------------------------------------------------

/// The 32-byte key that PBKDF2 with HMAC-SHA256 derives from a password and a
/// salt in the given number of rounds.
pub uninterp spec fn pbkdf2_hmac_sha256_key(password: Seq<u8>, salt: Seq<u8>, rounds: u32) -> Seq<u8>;

/// `pbkdf2::pbkdf2::<Hmac<Sha256>>` into a 32-byte buffer. The key is given by
/// name only. That function fails only when the PRF refuses the password as a
/// key, and `hmac` accepts keys of every length, so the buffer is always
/// filled; its result is therefore not inspected.
#[verifier::external_body]
pub(crate) fn pbkdf2_sha256(password: &[u8], salt: &[u8], rounds: u32) -> (key: [u8; 32])
    ensures
        key@ == pbkdf2_hmac_sha256_key(password@, salt@, rounds),
{
    let mut key = [0u8; 32];
    let _ = pbkdf2::pbkdf2::<hmac::Hmac<sha2::Sha256>>(password, salt, rounds, &mut key);
    key
}

} // verus!
