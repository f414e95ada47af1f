use vstd::prelude::*;

verus! {

/// The text that a byte sequence reads as under UTF-8, or `None` where the
/// bytes are not valid UTF-8.
pub uninterp spec fn utf8_text(b: Seq<u8>) -> Option<Seq<char>>;

/// Relies on `String::from_utf8`: it returns the text exactly when the bytes
/// are valid UTF-8, and the answer depends on the bytes alone.
#[verifier::external_body]
pub(crate) fn text_of_bytes(b: &Vec<u8>) -> (r: Option<String>)
    ensures
        match r {
            Some(s) => utf8_text(b@) == Some(s@),
            None => utf8_text(b@) is None,
        },
{
    String::from_utf8(b.clone()).ok()
}

} // verus!
