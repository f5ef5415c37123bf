//! Text utilities shared by the resolver and the decryption pipeline:
//! decoding raw bytes into text and dropping a final character.

use vstd::prelude::*;
use vstd::string::StrSliceExecFns;
use vstd::utf8::{decode_utf8, valid_utf8};

verus! {

/// The text with its final character removed; empty text stays empty.
pub open spec fn drop_last_char(s: Seq<char>) -> Seq<char> {
    if s.len() == 0 {
        s
    } else {
        s.take(s.len() - 1)
    }
}

/// A result of text or an error, seen as a sequence of characters.
pub open spec fn text_result<E>(r: Result<String, E>) -> Result<Seq<char>, E> {
    match r {
        Ok(s) => Ok(s@),
        Err(e) => Err(e),
    }
}

/// Relies on `String::from_utf8`: it succeeds exactly on valid UTF-8 input,
/// and then returns that input decoded.
#[verifier::external_body]
pub(crate) fn bytes_to_text(bytes: Vec<u8>) -> (r: Option<String>)
    ensures
        r is Some <==> valid_utf8(bytes@),
        r matches Some(s) ==> s@ == decode_utf8(bytes@),
{
    match String::from_utf8(bytes) {
        Ok(s) => Some(s),
        Err(_) => None,
    }
}

/// The text with its final character removed; empty text stays empty.
pub fn strip_last_char(s: &str) -> (r: String)
    ensures
        r@ == drop_last_char(s@),
{
    let n: usize = s.unicode_len();
    if n == 0 {
        let empty = String::new();
        proof {
            assert(empty@ =~= drop_last_char(s@));
        }
        empty
    } else {
        let sub = s.substring_char(0, n - 1);
        proof {
            assert(sub@ =~= drop_last_char(s@));
        }
        sub.to_owned()
    }
}

} // verus!
