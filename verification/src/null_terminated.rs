//! Conversion to null-terminated UTF-8 C strings.
use vstd::prelude::*;
use vstd::utf8::encode_utf8;

verus! {

/// The bytes of the null-terminated UTF-8 encoding of `chars`.
pub open spec fn null_terminated_utf8(chars: Seq<char>) -> Seq<u8> {
    encode_utf8(chars).push(0u8)
}

/// Copies `bytes` followed by a null byte into a new buffer.
fn with_nul(bytes: &[u8]) -> (r: Vec<u8>)
    ensures
        r@ == bytes@.push(0u8),
{
    let mut v: Vec<u8> = Vec::new();
    let mut i: usize = 0;
    while i < bytes.len()
        invariant
            i <= bytes.len(),
            v@ == bytes@.subrange(0, i as int),
        decreases bytes.len() - i,
    {
        v.push(bytes[i]);
        i = i + 1;
    }
    v.push(0);
    proof {
        assert(bytes@.subrange(0, bytes@.len() as int) =~= bytes@);
    }
    v
}

/// Conversion of a string to a buffer that C functions can read.
pub trait ToNullTerminatedString {
    /// The characters of the string.
    spec fn chars_spec(&self) -> Seq<char>;

    /// Produce a utf8-encoded buffer that is terminated with a null.
    fn to_null_terminated_utf8(&self) -> (r: Vec<u8>)
        ensures
            r@ == null_terminated_utf8(self.chars_spec()),
    ;
}

impl<'a> ToNullTerminatedString for &'a str {
    open spec fn chars_spec(&self) -> Seq<char> {
        (*self)@
    }

    fn to_null_terminated_utf8(&self) -> (r: Vec<u8>) {
        with_nul(self.as_bytes())
    }
}

impl ToNullTerminatedString for String {
    open spec fn chars_spec(&self) -> Seq<char> {
        self@
    }

    fn to_null_terminated_utf8(&self) -> (r: Vec<u8>) {
        with_nul(self.as_str().as_bytes())
    }
}

} // verus!
