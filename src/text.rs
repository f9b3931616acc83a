use vstd::prelude::*;
use vstd::string::StringSliceAdditionalSpecFns;
use vstd::utf8::{encode_utf8, encode_scalar, is_scalar, char_is_scalar, char_u32_cast};

use crate::error::AgcError;

verus! {

/// True when no byte of `b` is NUL.
pub open spec fn no_nul(b: Seq<u8>) -> bool {
    forall|i: int| 0 <= i < b.len() ==> b[i] != 0u8
}

/// True when no character of `s` is U+0000.
pub open spec fn no_nul_char(s: Seq<char>) -> bool {
    forall|i: int| 0 <= i < s.len() ==> s[i] != '\0'
}

/// The UTF-8 encoding of a scalar holds a NUL byte exactly when the scalar is 0.
proof fn lemma_scalar_nul(c: u32)
    requires
        is_scalar(c),
    ensures
        no_nul(encode_scalar(c)) <==> c != 0,
{
    let b = encode_scalar(c);
    assert(c <= 0x7F ==> ((c & 0x7F) == 0 <==> c == 0)) by (bit_vector);
    assert(forall|y: u8| #![auto] (0xC0u8 | y) != 0u8) by (bit_vector);
    assert(forall|y: u8| #![auto] (0xE0u8 | y) != 0u8) by (bit_vector);
    assert(forall|y: u8| #![auto] (0xF0u8 | y) != 0u8) by (bit_vector);
    assert(forall|y: u8| #![auto] (0x80u8 | y) != 0u8) by (bit_vector);
    if c <= 0x7F {
        assert(b[0] == (c & 0x7F) as u8);
        assert((c & 0x7F) <= 0x7F) by (bit_vector);
    }
}

/// A text's UTF-8 encoding holds a NUL byte exactly when the text holds the
/// character U+0000.
pub proof fn lemma_nul_byte_iff_nul_char(s: Seq<char>)
    ensures
        no_nul(encode_utf8(s)) <==> no_nul_char(s),
    decreases s.len(),
{
    if s.len() > 0 {
        char_is_scalar(s[0]);
        let head = encode_scalar(s[0] as u32);
        let rest = s.drop_first();
        lemma_nul_byte_iff_nul_char(rest);
        lemma_scalar_nul(s[0] as u32);
        let all = encode_utf8(s);
        assert(all == head + encode_utf8(rest));
        if no_nul(all) {
            assert forall|i: int| 0 <= i < s.len() implies s[i] != '\0' by {
                if i == 0 {
                    assert(no_nul(head)) by {
                        assert forall|j: int| 0 <= j < head.len() implies head[j] != 0u8 by {
                            assert(all[j] == head[j]);
                        }
                    }
                } else {
                    assert(no_nul(encode_utf8(rest))) by {
                        assert forall|j: int| 0 <= j < encode_utf8(rest).len() implies encode_utf8(
                            rest,
                        )[j] != 0u8 by {
                            assert(all[head.len() + j] == encode_utf8(rest)[j]);
                        }
                    }
                    assert(s[i] == rest[i - 1]);
                }
            }
        }
        if no_nul_char(s) {
            assert(s[0] != '\0');
            char_u32_cast(s[0], s[0] as u32);
            char_u32_cast('\0', '\0' as u32);
            assert(s[0] as u32 != 0);
            assert forall|i: int| 0 <= i < rest.len() implies rest[i] != '\0' by {
                assert(rest[i] == s[i + 1]);
            }
            assert forall|j: int| 0 <= j < all.len() implies all[j] != 0u8 by {
                if j < head.len() {
                    assert(all[j] == head[j]);
                } else {
                    assert(all[j] == encode_utf8(rest)[j - head.len()]);
                }
            }
        }
    }
}

/// Converts `s` into the NUL-terminated bytes that the engine reads.
///
/// Succeeds exactly when the UTF-8 bytes of `s` hold no NUL; the result is
/// those bytes followed by one terminating NUL.
pub fn to_c_text(s: &str) -> (r: Result<Vec<u8>, AgcError>)
    ensures
        r is Ok <==> no_nul(s.spec_bytes()),
        r is Ok <==> no_nul_char(s@),
        r matches Ok(b) ==> b@ == s.spec_bytes().push(0u8),
        r matches Err(e) ==> (e matches AgcError::Encoding { text } && text@ == s@),
{
    proof {
        lemma_nul_byte_iff_nul_char(s@);
    }
    let bytes = s.as_bytes();
    let mut out: Vec<u8> = Vec::new();
    let mut i: usize = 0;
    while i < bytes.len()
        invariant
            bytes@ == s.spec_bytes(),
            no_nul(s.spec_bytes()) <==> no_nul_char(s@),
            i <= bytes@.len(),
            out@ == bytes@.subrange(0, i as int),
            no_nul(out@),
        decreases bytes.len() - i,
    {
        if bytes[i] == 0u8 {
            assert(!no_nul(s.spec_bytes()));
            return Err(AgcError::Encoding { text: s.to_owned() });
        }
        out.push(bytes[i]);
        i = i + 1;
    }
    assert(out@ == bytes@);
    out.push(0u8);
    Ok(out)
}

/// Converts an optional name; `None` stays `None` and stands for "no filter".
pub fn to_c_text_opt(s: Option<&str>) -> (r: Result<Option<Vec<u8>>, AgcError>)
    ensures
        s is None ==> r == Ok::<Option<Vec<u8>>, AgcError>(None),
        s matches Some(t) ==> {
            &&& (r is Ok <==> no_nul(t.spec_bytes()))
            &&& (r is Ok <==> no_nul_char(t@))
            &&& (r matches Ok(o) ==> (o matches Some(b) && b@ == t.spec_bytes().push(0u8)))
            &&& (r matches Err(e) ==> (e matches AgcError::Encoding { text } && text@ == t@))
        },
{
    match s {
        None => Ok(None),
        Some(t) => match to_c_text(t) {
            Ok(b) => Ok(Some(b)),
            Err(e) => Err(e),
        },
    }
}

} // verus!
