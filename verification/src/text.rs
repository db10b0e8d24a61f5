//! Byte- and string-level helpers the typed wrappers share: byte and string
//! equality, and a UTF-8 validity check proved against the reference
//! definition of the encoding.

use vstd::prelude::*;
use vstd::string::StringSliceAdditionalSpecFns;
use vstd::utf8::codepoint_width_2;
use vstd::utf8::codepoint_width_3;
use vstd::utf8::codepoint_width_4;
use vstd::utf8::is_continuation_byte;
use vstd::utf8::length_of_first_scalar;
use vstd::utf8::partial_valid_partial_invalid_utf8;
use vstd::utf8::partial_valid_utf8;
use vstd::utf8::partial_valid_utf8_extend;
use vstd::utf8::valid_first_scalar;
use vstd::utf8::valid_leading_and_continuation_bytes_first_codepoint;
use vstd::utf8::valid_utf8;

verus! {

/// Whether two byte slices hold the same bytes.
pub fn bytes_eq(a: &[u8], b: &[u8]) -> (r: bool)
    ensures
        r == (a@ == b@),
{
    if a.len() != b.len() {
        return false;
    }
    let n: usize = a.len();
    let mut i: usize = 0;
    while i < n
        invariant
            n == a@.len() == b@.len(),
            0 <= i <= n,
            forall|j: int| 0 <= j < i ==> a@[j] == b@[j],
        decreases n - i,
    {
        if a[i] != b[i] {
            return false;
        }
        i += 1;
    }
    proof {
        assert(a@ =~= b@);
    }
    true
}

/// Whether two strings hold the same characters.
pub fn str_eq(a: &str, b: &str) -> (r: bool)
    ensures
        r == (a@ == b@),
{
    let r = bytes_eq(a.as_bytes(), b.as_bytes());
    proof {
        if a.spec_bytes() == b.spec_bytes() {
            vstd::utf8::encode_utf8_decode_utf8(a@);
            vstd::utf8::encode_utf8_decode_utf8(b@);
        }
    }
    r
}

/// A two-byte encoding with a lead byte of at least 0xc2 decodes above the
/// one-byte range and far below the surrogate range.
proof fn lemma_width_2_in_range(b0: u8, b1: u8)
    requires
        0xc2 <= b0 <= 0xdf,
        is_continuation_byte(b1),
    ensures
        0x80 <= codepoint_width_2(b0, b1) < 0xd800,
{
    assert(0x80 <= ((((b0 & 0x1f) as u32) << 6) | ((b1 & 0x3f) as u32)) < 0xd800)
        by (bit_vector)
        requires
            0xc2 <= b0 <= 0xdf && 0x80 <= b1 <= 0xbf,
    ;
}

/// A two-byte encoding with lead byte 0xc0 or 0xc1 decodes below 0x80, so it
/// is overlong.
proof fn lemma_width_2_overlong(b0: u8, b1: u8)
    requires
        0xc0 <= b0 <= 0xc1,
        is_continuation_byte(b1),
    ensures
        codepoint_width_2(b0, b1) < 0x80,
{
    assert(((((b0 & 0x1f) as u32) << 6) | ((b1 & 0x3f) as u32)) < 0x80)
        by (bit_vector)
        requires
            0xc0 <= b0 <= 0xc1 && 0x80 <= b1 <= 0xbf,
    ;
}

/// A three-byte encoding whose second byte clears the 0xe0 (overlong) and
/// 0xed (surrogate) corners decodes into the valid three-byte range.
proof fn lemma_width_3_in_range(b0: u8, b1: u8, b2: u8)
    requires
        0xe0 <= b0 <= 0xef,
        is_continuation_byte(b1),
        is_continuation_byte(b2),
        b0 == 0xe0 ==> b1 >= 0xa0,
        b0 == 0xed ==> b1 <= 0x9f,
    ensures
        0x800 <= codepoint_width_3(b0, b1, b2),
        !(0xd800 <= codepoint_width_3(b0, b1, b2) <= 0xdfff),
{
    assert(0x800 <= ((((b0 & 0x0f) as u32) << 12) | (((b1 & 0x3f) as u32) << 6) | ((b2
        & 0x3f) as u32)) && !(0xd800 <= ((((b0 & 0x0f) as u32) << 12) | (((b1
        & 0x3f) as u32) << 6) | ((b2 & 0x3f) as u32)) <= 0xdfff))
        by (bit_vector)
        requires
            0xe0 <= b0 <= 0xef && 0x80 <= b1 <= 0xbf && 0x80 <= b2 <= 0xbf && (b0 == 0xe0 ==> b1
                >= 0xa0) && (b0 == 0xed ==> b1 <= 0x9f),
    ;
}

/// A three-byte encoding with lead byte 0xe0 and a second byte below 0xa0
/// decodes below 0x800, so it is overlong.
proof fn lemma_width_3_overlong(b0: u8, b1: u8, b2: u8)
    requires
        b0 == 0xe0,
        is_continuation_byte(b1),
        b1 < 0xa0,
        is_continuation_byte(b2),
    ensures
        codepoint_width_3(b0, b1, b2) < 0x800,
{
    assert(((((b0 & 0x0f) as u32) << 12) | (((b1 & 0x3f) as u32) << 6) | ((b2
        & 0x3f) as u32)) < 0x800)
        by (bit_vector)
        requires
            b0 == 0xe0 && 0x80 <= b1 <= 0x9f && 0x80 <= b2 <= 0xbf,
    ;
}

/// A three-byte encoding with lead byte 0xed and a second byte of at least
/// 0xa0 decodes into the surrogate range.
proof fn lemma_width_3_surrogate(b0: u8, b1: u8, b2: u8)
    requires
        b0 == 0xed,
        is_continuation_byte(b1),
        b1 >= 0xa0,
        is_continuation_byte(b2),
    ensures
        0xd800 <= codepoint_width_3(b0, b1, b2) <= 0xdfff,
{
    assert(0xd800 <= ((((b0 & 0x0f) as u32) << 12) | (((b1 & 0x3f) as u32) << 6) | ((b2
        & 0x3f) as u32)) <= 0xdfff)
        by (bit_vector)
        requires
            b0 == 0xed && 0xa0 <= b1 <= 0xbf && 0x80 <= b2 <= 0xbf,
    ;
}

/// A four-byte encoding whose second byte clears the 0xf0 (overlong) and 0xf4
/// (out-of-range) corners decodes into the valid four-byte range.
proof fn lemma_width_4_in_range(b0: u8, b1: u8, b2: u8, b3: u8)
    requires
        0xf0 <= b0 <= 0xf4,
        is_continuation_byte(b1),
        is_continuation_byte(b2),
        is_continuation_byte(b3),
        b0 == 0xf0 ==> b1 >= 0x90,
        b0 == 0xf4 ==> b1 <= 0x8f,
    ensures
        0x10000 <= codepoint_width_4(b0, b1, b2, b3) <= 0x10ffff,
{
    assert(0x10000 <= ((((b0 & 0x07) as u32) << 18) | (((b1 & 0x3f) as u32) << 12) | (((b2
        & 0x3f) as u32) << 6) | ((b3 & 0x3f) as u32)) <= 0x10ffff)
        by (bit_vector)
        requires
            0xf0 <= b0 <= 0xf4 && 0x80 <= b1 <= 0xbf && 0x80 <= b2 <= 0xbf && 0x80 <= b3 <= 0xbf
                && (b0 == 0xf0 ==> b1 >= 0x90) && (b0 == 0xf4 ==> b1 <= 0x8f),
    ;
}

/// A four-byte encoding with lead byte 0xf0 and a second byte below 0x90
/// decodes below 0x10000, so it is overlong.
proof fn lemma_width_4_overlong(b0: u8, b1: u8, b2: u8, b3: u8)
    requires
        b0 == 0xf0,
        is_continuation_byte(b1),
        b1 < 0x90,
        is_continuation_byte(b2),
        is_continuation_byte(b3),
    ensures
        codepoint_width_4(b0, b1, b2, b3) < 0x10000,
{
    assert(((((b0 & 0x07) as u32) << 18) | (((b1 & 0x3f) as u32) << 12) | (((b2
        & 0x3f) as u32) << 6) | ((b3 & 0x3f) as u32)) < 0x10000)
        by (bit_vector)
        requires
            b0 == 0xf0 && 0x80 <= b1 <= 0x8f && 0x80 <= b2 <= 0xbf && 0x80 <= b3 <= 0xbf,
    ;
}

/// A four-byte encoding with a lead byte above 0xf4, or with lead byte 0xf4
/// and a second byte of at least 0x90, decodes above 0x10ffff.
proof fn lemma_width_4_out_of_range(b0: u8, b1: u8, b2: u8, b3: u8)
    requires
        0xf4 <= b0 <= 0xf7,
        is_continuation_byte(b1),
        b0 == 0xf4 ==> b1 >= 0x90,
        is_continuation_byte(b2),
        is_continuation_byte(b3),
    ensures
        codepoint_width_4(b0, b1, b2, b3) > 0x10ffff,
{
    assert(((((b0 & 0x07) as u32) << 18) | (((b1 & 0x3f) as u32) << 12) | (((b2
        & 0x3f) as u32) << 6) | ((b3 & 0x3f) as u32)) > 0x10ffff)
        by (bit_vector)
        requires
            0xf4 <= b0 <= 0xf7 && 0x80 <= b1 <= 0xbf && (b0 == 0xf4 ==> b1 >= 0x90) && 0x80 <= b2
                <= 0xbf && 0x80 <= b3 <= 0xbf,
    ;
}

/// Whether a byte is a UTF-8 continuation byte.
fn is_cont(b: u8) -> (r: bool)
    ensures
        r == is_continuation_byte(b),
{
    0x80 <= b && b <= 0xbf
}

/// Whether the bytes form a valid UTF-8 encoding, held to the reference
/// definition of the encoding: every scalar well formed, no overlong
/// encodings, no surrogates, no out-of-range values, no truncated tail.
pub fn is_valid_utf8(v: &[u8]) -> (r: bool)
    ensures
        r == valid_utf8(v@),
{
    let n: usize = v.len();
    let mut i: usize = 0;
    while i < n
        invariant
            n == v@.len(),
            0 <= i <= n,
            partial_valid_utf8(v@, i as int),
        decreases n - i,
    {
        let ghost s = v@.subrange(i as int, n as int);
        let b0 = v[i];
        if b0 < 0x80 {
            proof {
                assert(s[0] == v@[i as int]);
                assert(valid_first_scalar(s));
                assert(length_of_first_scalar(s) == 1);
                partial_valid_utf8_extend(v@, i as int);
            }
            i += 1;
        } else if b0 < 0xc2 {
            // A stray continuation byte, or an overlong two-byte lead (0xc0, 0xc1).
            proof {
                assert(s[0] == v@[i as int]);
                if 0xc0 <= b0 && s.len() >= 2 && is_continuation_byte(s[1]) {
                    lemma_width_2_overlong(b0, s[1]);
                    assert(!valid_first_scalar(s));
                } else {
                    assert(!valid_leading_and_continuation_bytes_first_codepoint(s));
                }
                assert(!valid_utf8(s));
                partial_valid_partial_invalid_utf8(v@, i as int);
            }
            return false;
        } else if b0 < 0xe0 {
            if i + 1 >= n || !is_cont(v[i + 1]) {
                proof {
                    assert(s[0] == v@[i as int]);
                    assert(s.len() >= 2 ==> s[1] == v@[i as int + 1]);
                    assert(!valid_leading_and_continuation_bytes_first_codepoint(s));
                    assert(!valid_utf8(s));
                    partial_valid_partial_invalid_utf8(v@, i as int);
                }
                return false;
            }
            proof {
                assert(s[0] == v@[i as int] && s[1] == v@[i as int + 1]);
                lemma_width_2_in_range(b0, s[1]);
                assert(valid_first_scalar(s));
                assert(length_of_first_scalar(s) == 2);
                partial_valid_utf8_extend(v@, i as int);
            }
            i += 2;
        } else if b0 < 0xf0 {
            if n - i < 3 {
                proof {
                    assert(s[0] == v@[i as int]);
                    assert(s.len() >= 2 ==> s[1] == v@[i as int + 1]);
                    assert(!valid_leading_and_continuation_bytes_first_codepoint(s));
                    assert(!valid_utf8(s));
                    partial_valid_partial_invalid_utf8(v@, i as int);
                }
                return false;
            }
            let b1 = v[i + 1];
            let b2 = v[i + 2];
            proof {
                assert(s[0] == v@[i as int] && s[1] == v@[i as int + 1] && s[2] == v@[i as int
                    + 2]);
            }
            if !is_cont(b1) || !is_cont(b2) {
                proof {
                    assert(!valid_leading_and_continuation_bytes_first_codepoint(s));
                    assert(!valid_utf8(s));
                    partial_valid_partial_invalid_utf8(v@, i as int);
                }
                return false;
            }
            if b0 == 0xe0 && b1 < 0xa0 {
                proof {
                    lemma_width_3_overlong(b0, b1, b2);
                    assert(!valid_first_scalar(s));
                    assert(!valid_utf8(s));
                    partial_valid_partial_invalid_utf8(v@, i as int);
                }
                return false;
            }
            if b0 == 0xed && b1 >= 0xa0 {
                proof {
                    lemma_width_3_surrogate(b0, b1, b2);
                    assert(!valid_first_scalar(s));
                    assert(!valid_utf8(s));
                    partial_valid_partial_invalid_utf8(v@, i as int);
                }
                return false;
            }
            proof {
                lemma_width_3_in_range(b0, b1, b2);
                assert(valid_first_scalar(s));
                assert(length_of_first_scalar(s) == 3);
                partial_valid_utf8_extend(v@, i as int);
            }
            i += 3;
        } else if b0 < 0xf5 {
            if n - i < 4 {
                proof {
                    assert(s[0] == v@[i as int]);
                    assert(s.len() >= 2 ==> s[1] == v@[i as int + 1]);
                    assert(s.len() >= 3 ==> s[2] == v@[i as int + 2]);
                    assert(!valid_leading_and_continuation_bytes_first_codepoint(s));
                    assert(!valid_utf8(s));
                    partial_valid_partial_invalid_utf8(v@, i as int);
                }
                return false;
            }
            let b1 = v[i + 1];
            let b2 = v[i + 2];
            let b3 = v[i + 3];
            proof {
                assert(s[0] == v@[i as int] && s[1] == v@[i as int + 1] && s[2] == v@[i as int + 2]
                    && s[3] == v@[i as int + 3]);
            }
            if !is_cont(b1) || !is_cont(b2) || !is_cont(b3) {
                proof {
                    assert(!valid_leading_and_continuation_bytes_first_codepoint(s));
                    assert(!valid_utf8(s));
                    partial_valid_partial_invalid_utf8(v@, i as int);
                }
                return false;
            }
            if b0 == 0xf0 && b1 < 0x90 {
                proof {
                    lemma_width_4_overlong(b0, b1, b2, b3);
                    assert(!valid_first_scalar(s));
                    assert(!valid_utf8(s));
                    partial_valid_partial_invalid_utf8(v@, i as int);
                }
                return false;
            }
            if b0 == 0xf4 && b1 >= 0x90 {
                proof {
                    lemma_width_4_out_of_range(b0, b1, b2, b3);
                    assert(!valid_first_scalar(s));
                    assert(!valid_utf8(s));
                    partial_valid_partial_invalid_utf8(v@, i as int);
                }
                return false;
            }
            proof {
                lemma_width_4_in_range(b0, b1, b2, b3);
                assert(valid_first_scalar(s));
                assert(length_of_first_scalar(s) == 4);
                partial_valid_utf8_extend(v@, i as int);
            }
            i += 4;
        } else {
            // Lead bytes 0xf5 through 0xff can never begin a scalar in range.
            proof {
                assert(s[0] == v@[i as int]);
                if b0 <= 0xf7 && s.len() >= 4 && is_continuation_byte(s[1])
                    && is_continuation_byte(s[2]) && is_continuation_byte(s[3]) {
                    lemma_width_4_out_of_range(b0, s[1], s[2], s[3]);
                    assert(!valid_first_scalar(s));
                } else {
                    assert(s.len() >= 2 ==> s[1] == v@[i as int + 1]);
                    assert(s.len() >= 3 ==> s[2] == v@[i as int + 2]);
                    assert(s.len() >= 4 ==> s[3] == v@[i as int + 3]);
                    assert(!valid_leading_and_continuation_bytes_first_codepoint(s)
                        || !valid_first_scalar(s));
                }
                assert(!valid_utf8(s));
                partial_valid_partial_invalid_utf8(v@, i as int);
            }
            return false;
        }
    }
    proof {
        assert(v@.subrange(0, n as int) =~= v@);
    }
    true
}

} // verus!
