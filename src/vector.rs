use vstd::prelude::*;
use vstd::utf8::{decode_utf8, valid_utf8};

verus! {

/// Relies on std::str::from_utf8: it accepts exactly the valid UTF-8 byte
/// sequences, and the text it returns is those bytes read as characters.
#[verifier::external_body]
pub(crate) fn text_of<'a>(b: &'a [u8]) -> (r: Option<&'a str>)
    ensures
        r is Some <==> valid_utf8(b@),
        r is Some ==> r->0@ == decode_utf8(b@),
{
    match std::str::from_utf8(b) {
        Ok(s) => Some(s),
        Err(_) => None,
    }
}

/// A value handed over by the engine. The vector is its sole owner and
/// releases it exactly once, when the vector goes out of scope.
pub struct RocksDBVector {
    inner: Vec<u8>,
}

impl View for RocksDBVector {
    type V = Seq<u8>;

    closed spec fn view(&self) -> Seq<u8> {
        self.inner@
    }
}

impl RocksDBVector {
    /// Takes ownership of an engine buffer of which the first `val_len`
    /// bytes are the value.
    pub fn from_c(val: Vec<u8>, val_len: usize) -> (r: RocksDBVector)
        requires
            val_len <= val@.len(),
        ensures
            r@ == val@.subrange(0, val_len as int),
    {
        let mut inner = val;
        inner.truncate(val_len);
        RocksDBVector { inner }
    }

    /// The bytes of the value, borrowed for as long as the vector lives.
    pub fn as_slice(&self) -> (r: &[u8])
        ensures
            r@ == self@,
    {
        self.inner.as_slice()
    }

    /// The value read as UTF-8 text, or nothing when its bytes are not
    /// valid UTF-8.
    pub fn to_utf8(&self) -> (r: Option<&str>)
        ensures
            r is Some <==> valid_utf8(self@),
            r is Some ==> r->0@ == decode_utf8(self@),
    {
        text_of(self.inner.as_slice())
    }
}

} // verus!
