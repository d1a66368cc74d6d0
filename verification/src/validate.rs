//! Verified UTF-8 validation of byte buffers.
//!
//! A buffer received off the wire may or may not be valid UTF-8. The
//! validator below decides this, and on failure reports the byte offset of
//! the first invalid sequence, matching the offset a caller needs for
//! precise diagnostics.

use vstd::prelude::*;
use vstd::utf8::*;

verus! {

/// The one error this crate raises: a byte buffer that is not valid UTF-8.
///
/// `valid_up_to` is the length of the longest prefix of the buffer that is
/// valid UTF-8 and ends on a character boundary; the sequence starting at
/// that offset is not a well-formed scalar encoding.
#[derive(Clone, Copy, PartialEq, Eq, Structural, Debug)]
pub struct Utf8Error {
    pub valid_up_to: usize,
}

/// Holds when `k` is the offset of the first invalid sequence of `bytes`:
/// everything before `k` is valid UTF-8, and no well-formed scalar encoding
/// starts at `k`.
pub open spec fn first_invalid_at(bytes: Seq<u8>, k: int) -> bool {
    &&& 0 <= k < bytes.len()
    &&& partial_valid_utf8(bytes, k)
    &&& !valid_first_scalar(bytes.subrange(k, bytes.len() as int))
}

/// A buffer with an invalid sequence at `k` is not valid UTF-8 as a whole.
proof fn lemma_invalid_here(bytes: Seq<u8>, k: int)
    requires
        0 <= k < bytes.len(),
        partial_valid_utf8(bytes, k),
        !valid_first_scalar(bytes.subrange(k, bytes.len() as int)),
    ensures
        first_invalid_at(bytes, k),
        !valid_utf8(bytes),
{
    let tail = bytes.subrange(k, bytes.len() as int);
    assert(tail.len() > 0);
    assert(!valid_utf8(tail));
    partial_valid_partial_invalid_utf8(bytes, k);
}

/// A well-formed scalar encoding at the head of `a` is still well-formed at
/// the head of any extension of `a`.
proof fn lemma_valid_first_scalar_extend(a: Seq<u8>, b: Seq<u8>)
    requires
        valid_first_scalar(a),
        a.len() <= b.len(),
        forall|j: int| 0 <= j < a.len() ==> a[j] == b[j],
    ensures
        valid_first_scalar(b),
{
    if is_leading_byte_width_1(a[0]) {
        assert(a.len() >= 1);
    } else if is_leading_byte_width_2(a[0]) {
        assert(a.len() >= 2);
    } else if is_leading_byte_width_3(a[0]) {
        assert(a.len() >= 3);
    } else {
        assert(a.len() >= 4);
    }
    assert(decode_first_codepoint(b) == decode_first_codepoint(a));
    assert(length_of_first_codepoint(b) == length_of_first_codepoint(a));
}

/// No valid prefix of `bytes` extends past an invalid sequence.
proof fn lemma_no_valid_prefix_past_invalid(bytes: Seq<u8>, k1: int, k2: int)
    requires
        k1 < k2 <= bytes.len(),
        first_invalid_at(bytes, k1),
    ensures
        !partial_valid_utf8(bytes, k2),
{
    if partial_valid_utf8(bytes, k2) {
        let s = bytes.subrange(0, k2);
        assert(s.subrange(0, k1) =~= bytes.subrange(0, k1));
        if !valid_utf8(s.subrange(k1, s.len() as int)) {
            partial_valid_partial_invalid_utf8(s, k1);
        }
        let mid = s.subrange(k1, s.len() as int);
        assert(mid =~= bytes.subrange(k1, k2));
        assert(mid.len() > 0);
        assert(valid_first_scalar(mid));
        let tail = bytes.subrange(k1, bytes.len() as int);
        assert(forall|j: int| 0 <= j < mid.len() ==> mid[j] == tail[j]);
        lemma_valid_first_scalar_extend(mid, tail);
    }
}

/// The offset of the first invalid sequence of a buffer is uniquely
/// determined: the error of a failed validation identifies one exact
/// position.
pub proof fn lemma_first_invalid_unique(bytes: Seq<u8>, k1: int, k2: int)
    requires
        first_invalid_at(bytes, k1),
        first_invalid_at(bytes, k2),
    ensures
        k1 == k2,
{
    if k1 < k2 {
        lemma_no_valid_prefix_past_invalid(bytes, k1, k2);
    }
    if k2 < k1 {
        lemma_no_valid_prefix_past_invalid(bytes, k2, k1);
    }
}

/// Decides whether `v` is valid UTF-8; on failure the error carries the
/// offset of the first invalid sequence.
pub fn validate_utf8(v: &[u8]) -> (r: Result<(), Utf8Error>)
    ensures
        r is Ok <==> valid_utf8(v@),
        r matches Err(e) ==> first_invalid_at(v@, e.valid_up_to as int),
{
    let n: usize = v.len();
    let mut i: usize = 0;
    while i < n
        invariant
            i <= n,
            n == v@.len(),
            partial_valid_utf8(v@, i as int),
        decreases n - i,
    {
        let ghost tail = v@.subrange(i as int, n as int);
        proof {
            assert(tail.len() == n - i);
            assert forall|j: int| 0 <= j < tail.len() implies tail[j] == v@[i + j] by {}
        }
        let b0: u8 = v[i];
        if b0 < 0x80 {
            // One-byte encoding: the byte itself is the scalar.
            proof {
                assert(b0 & 0x7f == b0) by (bit_vector)
                    requires
                        b0 < 0x80,
                ;
                assert(valid_first_scalar(tail));
                assert(length_of_first_scalar(tail) == 1);
                partial_valid_utf8_extend(v@, i as int);
            }
            i = i + 1;
        } else if b0 < 0xc0 {
            // A continuation byte cannot begin a scalar.
            proof {
                lemma_invalid_here(v@, i as int);
            }
            return Err(Utf8Error { valid_up_to: i });
        } else if b0 < 0xe0 {
            // Two-byte encoding.
            if n - i < 2 {
                proof {
                    lemma_invalid_here(v@, i as int);
                }
                return Err(Utf8Error { valid_up_to: i });
            }
            let b1: u8 = v[i + 1];
            let c: u32 = (((b0 & 0x1f) as u32) << 6u32) | ((b1 & 0x3f) as u32);
            proof {
                assert(c == codepoint_width_2(b0, b1));
            }
            if b1 < 0x80 || b1 > 0xbf || c < 0x80 || (0xd800 <= c && c <= 0xdfff) {
                proof {
                    lemma_invalid_here(v@, i as int);
                }
                return Err(Utf8Error { valid_up_to: i });
            }
            proof {
                assert(valid_first_scalar(tail));
                assert(length_of_first_scalar(tail) == 2);
                partial_valid_utf8_extend(v@, i as int);
            }
            i = i + 2;
        } else if b0 < 0xf0 {
            // Three-byte encoding.
            if n - i < 3 {
                proof {
                    lemma_invalid_here(v@, i as int);
                }
                return Err(Utf8Error { valid_up_to: i });
            }
            let b1: u8 = v[i + 1];
            let b2: u8 = v[i + 2];
            let c: u32 = (((b0 & 0x0f) as u32) << 12u32) | (((b1 & 0x3f) as u32) << 6u32) | ((b2
                & 0x3f) as u32);
            proof {
                assert(c == codepoint_width_3(b0, b1, b2));
            }
            if b1 < 0x80 || b1 > 0xbf || b2 < 0x80 || b2 > 0xbf || c < 0x800 || (0xd800 <= c && c
                <= 0xdfff) {
                proof {
                    lemma_invalid_here(v@, i as int);
                }
                return Err(Utf8Error { valid_up_to: i });
            }
            proof {
                assert(valid_first_scalar(tail));
                assert(length_of_first_scalar(tail) == 3);
                partial_valid_utf8_extend(v@, i as int);
            }
            i = i + 3;
        } else if b0 < 0xf8 {
            // Four-byte encoding.
            if n - i < 4 {
                proof {
                    lemma_invalid_here(v@, i as int);
                }
                return Err(Utf8Error { valid_up_to: i });
            }
            let b1: u8 = v[i + 1];
            let b2: u8 = v[i + 2];
            let b3: u8 = v[i + 3];
            let c: u32 = (((b0 & 0x07) as u32) << 18u32) | (((b1 & 0x3f) as u32) << 12u32) | (((b2
                & 0x3f) as u32) << 6u32) | ((b3 & 0x3f) as u32);
            proof {
                assert(c == codepoint_width_4(b0, b1, b2, b3));
            }
            if b1 < 0x80 || b1 > 0xbf || b2 < 0x80 || b2 > 0xbf || b3 < 0x80 || b3 > 0xbf || c
                < 0x10000 || c > 0x10ffff {
                proof {
                    lemma_invalid_here(v@, i as int);
                }
                return Err(Utf8Error { valid_up_to: i });
            }
            proof {
                assert(valid_first_scalar(tail));
                assert(length_of_first_scalar(tail) == 4);
                partial_valid_utf8_extend(v@, i as int);
            }
            i = i + 4;
        } else {
            // 0xf8..=0xff never begins a scalar encoding.
            proof {
                lemma_invalid_here(v@, i as int);
            }
            return Err(Utf8Error { valid_up_to: i });
        }
    }
    proof {
        assert(v@.subrange(0, n as int) =~= v@);
    }
    Ok(())
}

} // verus!
