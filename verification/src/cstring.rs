//! Owned and borrowed null-terminated byte strings.
use vstd::prelude::*;
use vstd::string::StringSliceAdditionalSpecFns;

verus! {

/// Whether no byte of `bytes` is null.
pub open spec fn has_no_nul(bytes: Seq<u8>) -> bool {
    forall|i: int| 0 <= i < bytes.len() ==> bytes[i] != 0u8
}

/// Whether `bytes` is a C string: it ends in its only null byte.
pub open spec fn is_nul_terminated(bytes: Seq<u8>) -> bool {
    &&& bytes.len() > 0
    &&& bytes.last() == 0u8
    &&& has_no_nul(bytes.drop_last())
}

/// An owned null-terminated string, without interior nulls.
pub struct CString {
    v: Vec<u8>,
}

impl CString {
    /// The bytes, including the terminating null.
    pub closed spec fn bytes_spec(&self) -> Seq<u8> {
        self.v@
    }

    /// Copies the UTF-8 bytes of `s` and a terminating null, or returns `None` when `s` holds a
    /// null character.
    pub fn new(s: &str) -> (r: Option<CString>)
        ensures
            r is Some <==> has_no_nul(s.spec_bytes()),
            r matches Some(c) ==> c.bytes_spec() == s.spec_bytes().push(0u8),
    {
        let bytes = s.as_bytes();
        let mut i: usize = 0;
        while i < bytes.len()
            invariant
                i <= bytes.len(),
                bytes@ == s.spec_bytes(),
                has_no_nul(bytes@.subrange(0, i as int)),
            decreases bytes.len() - i,
        {
            if bytes[i] == 0 {
                return None;
            }
            i = i + 1;
            proof {
                assert forall|j: int| 0 <= j < i implies bytes@.subrange(0, i as int)[j] != 0u8 by {
                    if j < i - 1 {
                        assert(bytes@.subrange(0, i as int)[j] == bytes@.subrange(0, i - 1)[j]);
                    }
                }
            }
        }
        let mut v: Vec<u8> = Vec::new();
        let mut k: usize = 0;
        while k < bytes.len()
            invariant
                k <= bytes.len(),
                v@ == bytes@.subrange(0, k as int),
            decreases bytes.len() - k,
        {
            v.push(bytes[k]);
            k = k + 1;
        }
        v.push(0);
        proof {
            assert(bytes@.subrange(0, bytes@.len() as int) =~= bytes@);
        }
        Some(CString { v })
    }

    /// The bytes, including the terminating null, to hand to a C function.
    pub fn as_bytes_with_nul(&self) -> (r: &[u8])
        ensures
            r@ == self.bytes_spec(),
    {
        self.v.as_slice()
    }

    /// Borrows the string as a `CStr`.
    pub fn as_c_str(&self) -> (r: CStr<'_>)
        ensures
            r.bytes_spec() == self.bytes_spec(),
    {
        CStr { bytes: self.v.as_slice() }
    }
}

/// A borrowed null-terminated string.
pub struct CStr<'a> {
    bytes: &'a [u8],
}

impl<'a> CStr<'a> {
    /// The bytes, including the terminating null.
    pub closed spec fn bytes_spec(&self) -> Seq<u8> {
        self.bytes@
    }

    /// Borrows `s` as a C string when it ends in its only null byte, or returns `None`.
    pub fn from_bytes_with_nul(s: &'a [u8]) -> (r: Option<CStr<'a>>)
        requires
            s@.len() > 0,
        ensures
            r is Some <==> is_nul_terminated(s@),
            r matches Some(c) ==> c.bytes_spec() == s@,
    {
        let n = s.len();
        let mut i: usize = 0;
        while i < n - 1
            invariant
                n == s@.len(),
                n > 0,
                i <= n - 1,
                has_no_nul(s@.subrange(0, i as int)),
            decreases n - 1 - i,
        {
            if s[i] == 0 {
                proof {
                    assert(s@.drop_last()[i as int] == 0u8);
                }
                return None;
            }
            i = i + 1;
            proof {
                assert forall|j: int| 0 <= j < i implies s@.subrange(0, i as int)[j] != 0u8 by {
                    if j < i - 1 {
                        assert(s@.subrange(0, i as int)[j] == s@.subrange(0, i - 1)[j]);
                    }
                }
            }
        }
        proof {
            assert(s@.subrange(0, n - 1) =~= s@.drop_last());
        }
        if s[n - 1] != 0 {
            return None;
        }
        Some(CStr { bytes: s })
    }

    /// The bytes, including the terminating null, to hand to a C function.
    pub fn to_bytes_with_nul(&self) -> (r: &'a [u8])
        ensures
            r@ == self.bytes_spec(),
    {
        self.bytes
    }
}

/// The bytes of a `CString` are a C string: appending a null to bytes that hold none gives bytes
/// that end in their only null.
pub proof fn lemma_cstring_bytes_are_nul_terminated(bytes: Seq<u8>)
    requires
        has_no_nul(bytes),
    ensures
        is_nul_terminated(bytes.push(0u8)),
{
    assert(bytes.push(0u8).drop_last() =~= bytes);
}

} // verus!
