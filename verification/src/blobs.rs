//! Blob payloads: binary data crosses to and from the frontend as standard
//! base64 text.

use vstd::prelude::*;
use vstd::utf8::{decode_utf8, encode_utf8};
use crate::codec::{
    base64_decode, base64_decoding, base64_encodable, base64_encode, base64_encoding,
    base64_error_text,
};
use crate::session::{database_of, PluginSession};
use crate::text::joined;

verus! {

/// The bytes that a base64 blob payload holds, or the error text of a payload
/// that is not standard base64.
pub open spec fn blob_decoding(text: Seq<char>) -> Result<Seq<u8>, Seq<char>> {
    match base64_decoding(encode_utf8(text)) {
        Ok(bytes) => Ok(bytes),
        Err(e) => Err("base64 decode error: "@ + e.text()),
    }
}

/// The bytes, or the error text, of a decoding outcome.
pub open spec fn bytes_outcome_view(r: Result<Vec<u8>, String>) -> Result<Seq<u8>, Seq<char>> {
    match r {
        Ok(b) => Ok(b@),
        Err(m) => Err(m@),
    }
}

/// The payload decodes exactly when it is the standard base64 encoding of
/// some bytes, and then to those bytes.
pub open spec fn decodes_canonically(text: Seq<char>, r: Result<Vec<u8>, String>) -> bool {
    &&& (r matches Ok(bytes) ==> base64_encoding(bytes@) == text)
    &&& forall|b: Seq<u8>| #[trigger] base64_encoding(b) == text ==> (r matches Ok(bytes) && bytes@ == b)
}

/// Decodes the base64 payload of a blob to save. It decodes exactly when the
/// payload is the standard encoding of its bytes, so encoding the bytes again
/// (as a blob request does) gives the payload back.
pub fn decode_blob_data(data_b64: &str) -> (r: Result<Vec<u8>, String>)
    ensures
        bytes_outcome_view(r) == blob_decoding(data_b64@),
        decodes_canonically(data_b64@, r),
{
    let decoded = base64_decode(data_b64.as_bytes());
    proof {
        broadcast use vstd::utf8::encode_utf8_decode_utf8;
        if decoded is Ok {
            let bytes = decoded->Ok_0;
            assert(decode_utf8(encode_utf8(base64_encoding(bytes@))) == decode_utf8(encode_utf8(data_b64@)));
        }
        assert forall|b: Seq<u8>| #[trigger] base64_encoding(b) == data_b64@ implies (decoded matches Ok(bytes) && bytes@ == b) by {
            assert(encode_utf8(base64_encoding(b)) == encode_utf8(data_b64@));
        }
    }
    match decoded {
        Ok(bytes) => Ok(bytes),
        Err(e) => {
            let text = base64_error_text(&e);
            Err(joined("base64 decode error: ", text.as_str()))
        },
    }
}

/// What saving a blob needs before it touches the database: the payload is
/// decoded first, so a bad payload is reported even while no database is
/// open; then the open database.
pub fn prepare_blob_save<'a, D, T, L, R>(
    session: &'a PluginSession<D, T, L, R>,
    data_b64: &str,
) -> (r: Result<(&'a D, Vec<u8>), String>)
    ensures
        match r {
            Ok((db, bytes)) => blob_decoding(data_b64@) == Ok::<Seq<u8>, Seq<char>>(bytes@)
                && base64_encoding(bytes@) == data_b64@
                && database_of(session.state) == Ok::<D, Seq<char>>(*db),
            Err(m) => match blob_decoding(data_b64@) {
                Err(e) => m@ == e,
                Ok(_) => database_of(session.state) == Err::<D, Seq<char>>(m@),
            },
        },
{
    let bytes = match decode_blob_data(data_b64) {
        Ok(b) => b,
        Err(m) => return Err(m),
    };
    match session.database() {
        Ok(db) => Ok((db, bytes)),
        Err(m) => Err(m),
    }
}

/// The error of a blob lookup that found nothing under the digest.
pub open spec fn blob_not_found_message(digest: Seq<char>) -> Seq<char> {
    "Blob not found: "@ + digest
}

/// The base64 text handed back for a blob's content. Decoding it as a blob
/// payload gives the same bytes back.
pub fn encode_blob_content(bytes: &[u8]) -> (text: String)
    requires
        base64_encodable(bytes@.len()),
    ensures
        text@ == base64_encoding(bytes@),
        blob_decoding(text@) == Ok::<Seq<u8>, Seq<char>>(bytes@),
{
    base64_encode(bytes)
}

/// The answer to a blob request: the base64 text of the content found under
/// `digest`, or `"Blob not found: <digest>"` when there is none.
pub fn blob_data_response(digest: &str, content: Option<&[u8]>) -> (r: Result<String, String>)
    requires
        content matches Some(c) ==> base64_encodable(c@.len()),
    ensures
        match content {
            Some(c) => r matches Ok(t) && t@ == base64_encoding(c@),
            None => r matches Err(m) && m@ == blob_not_found_message(digest@),
        },
{
    match content {
        Some(c) => Ok(encode_blob_content(c)),
        None => Err(joined("Blob not found: ", digest)),
    }
}

} // verus!
