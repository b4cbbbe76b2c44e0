//! Well-formedness of encoded payloads.
//!
//! Every payload crossing the worker boundary (task, completion, heartbeat,
//! execution history) is one encoded protocol message: a sequence of fields,
//! each a tag varint (field number and wire type) followed by the value bytes
//! the wire type dictates. The core never interprets field contents; the one
//! decode-level check it owns is that a payload is well-formed at the wire
//! level, and every decode-taking operation rejects a payload that is not,
//! with a distinguished error, touching no other state.
//!
//! Varints are LEB128: continuation bytes carry the high bit, at most ten
//! bytes, and a ten-byte varint must fit in 64 bits (final byte at most 1).

use vstd::prelude::*;

verus! {

/// The largest field number a tag may carry (29 bits).
pub const MAX_FIELD_NUMBER: u64 = 0x1FFFFFFF;

/// Length in bytes of the varint starting at `i + k`, counting the `k` bytes
/// already scanned, when `s[i..]` begins with a well-formed varint.
pub open spec fn varint_len_from(s: Seq<u8>, i: int, k: int) -> Option<int>
    decreases 10 - k,
{
    if k < 0 || k >= 10 || i + k < 0 || i + k >= s.len() {
        None
    } else if s[i + k] < 0x80 {
        if k == 9 && s[i + k] >= 2 {
            None
        } else {
            Some(k + 1)
        }
    } else {
        varint_len_from(s, i, k + 1)
    }
}

/// Length in bytes of the varint starting at `i`, if one starts there.
pub open spec fn varint_len(s: Seq<u8>, i: int) -> Option<int> {
    varint_len_from(s, i, 0)
}

/// Value of the `len`-byte varint starting at `i`: little-endian base 128 of
/// the low seven bits of each byte.
pub open spec fn varint_val(s: Seq<u8>, i: int, len: int) -> nat
    decreases len,
{
    if len <= 0 {
        0
    } else {
        (s[i] as nat) % 128 + 128 * varint_val(s, i + 1, len - 1)
    }
}

/// A well-formed varint takes between one and ten bytes and ends inside `s`.
pub proof fn lemma_varint_len_from_bounds(s: Seq<u8>, i: int, k: int, n: int)
    requires
        varint_len_from(s, i, k) == Some(n),
    ensures
        k + 1 <= n <= 10,
        i + n <= s.len(),
    decreases 10 - k,
{
    if !(k < 0 || k >= 10 || i + k < 0 || i + k >= s.len()) {
        if s[i + k] >= 0x80 {
            lemma_varint_len_from_bounds(s, i, k + 1, n);
        }
    }
}

/// `s` holds well-formed fields from position `i` to its end: each field is a
/// tag varint whose field number is in range and whose wire type is varint
/// (0), 64-bit (1), length-delimited (2) or 32-bit (5), followed by the value
/// bytes that wire type dictates, all inside `s`.
pub open spec fn fields_valid_from(s: Seq<u8>, i: int) -> bool
    decreases s.len() - i,
    via fields_valid_from_decreases
{
    if i == s.len() {
        true
    } else if i < 0 || i > s.len() {
        false
    } else {
        match varint_len(s, i) {
            None => false,
            Some(n) => {
                let tag = varint_val(s, i, n);
                let field_number = tag / 8;
                let wire_type = tag % 8;
                if !(1 <= field_number && field_number <= MAX_FIELD_NUMBER) {
                    false
                } else if wire_type == 0 {
                    match varint_len(s, i + n) {
                        None => false,
                        Some(m) => fields_valid_from(s, i + n + m),
                    }
                } else if wire_type == 1 {
                    i + n + 8 <= s.len() && fields_valid_from(s, i + n + 8)
                } else if wire_type == 5 {
                    i + n + 4 <= s.len() && fields_valid_from(s, i + n + 4)
                } else if wire_type == 2 {
                    match varint_len(s, i + n) {
                        None => false,
                        Some(m) => {
                            let l = varint_val(s, i + n, m) as int;
                            i + n + m + l <= s.len() && fields_valid_from(s, i + n + m + l)
                        },
                    }
                } else {
                    false
                }
            },
        }
    }
}

#[via_fn]
proof fn fields_valid_from_decreases(s: Seq<u8>, i: int) {
    if 0 <= i && i < s.len() {
        if let Some(n) = varint_len(s, i) {
            lemma_varint_len_from_bounds(s, i, 0, n);
            if let Some(m) = varint_len(s, i + n) {
                lemma_varint_len_from_bounds(s, i + n, 0, m);
            }
        }
    }
}

/// `s` is one well-formed encoded protocol message.
pub open spec fn wire_valid(s: Seq<u8>) -> bool {
    fields_valid_from(s, 0)
}

/// Relies on `prost::encoding::decode_varint`: reads one LEB128 varint of at
/// most ten bytes from the front of the slice and advances the slice past it;
/// a ten-byte varint whose final byte exceeds 1 (a 64-bit overflow), a byte
/// run of ten or more continuation bytes, and a slice ending mid-varint are
/// all rejected. On success the pair holds the value and the length of the
/// slice remaining after the varint.
#[verifier::external_body]
fn decode_varint_prefix(bytes: &Vec<u8>, start: usize) -> (r: Option<(u64, usize)>)
    requires
        start <= bytes@.len(),
    ensures
        match r {
            Some(pair) => {
                &&& pair.1 <= bytes@.len() - start
                &&& varint_len(bytes@, start as int) == Some(
                    bytes@.len() - start - pair.1,
                )
                &&& pair.0 as nat == varint_val(
                    bytes@,
                    start as int,
                    bytes@.len() - start - pair.1,
                )
            },
            None => varint_len(bytes@, start as int) is None,
        },
{
    let mut slice: &[u8] = &bytes[start..];
    match prost::encoding::decode_varint(&mut slice) {
        Ok(v) => Some((v, slice.len())),
        Err(_) => None,
    }
}

/// Reads the varint starting at `pos`, returning its value and the position
/// just past it.
fn read_varint(bytes: &Vec<u8>, pos: usize) -> (r: Option<(u64, usize)>)
    requires
        pos <= bytes@.len(),
    ensures
        match r {
            Some(pair) => {
                &&& pos < pair.1 <= bytes@.len()
                &&& varint_len(bytes@, pos as int) == Some(pair.1 - pos)
                &&& pair.0 as nat == varint_val(bytes@, pos as int, pair.1 - pos)
            },
            None => varint_len(bytes@, pos as int) is None,
        },
{
    match decode_varint_prefix(bytes, pos) {
        None => None,
        Some((v, rem)) => {
            proof {
                lemma_varint_len_from_bounds(
                    bytes@,
                    pos as int,
                    0,
                    bytes@.len() - pos - rem,
                );
            }
            let next = bytes.len() - rem;
            Some((v, next))
        },
    }
}

/// Checks that `bytes` is one well-formed encoded protocol message.
///
/// This is the decode-level acceptance test every decode-taking operation of
/// the worker applies before acting on a payload.
pub fn payload_well_formed(bytes: &Vec<u8>) -> (b: bool)
    ensures
        b == wire_valid(bytes@),
{
    let mut pos: usize = 0;
    loop
        invariant
            pos <= bytes@.len(),
            wire_valid(bytes@) == fields_valid_from(bytes@, pos as int),
        decreases bytes@.len() - pos,
    {
        if pos == bytes.len() {
            return true;
        }
        let (tag, after_tag) = match read_varint(bytes, pos) {
            None => {
                return false;
            },
            Some(p) => p,
        };
        let field_number = tag >> 3;
        let wire_type = tag & 7;
        proof {
            assert(tag >> 3 == tag / 8) by (bit_vector);
            assert(tag & 7 == tag % 8) by (bit_vector);
        }
        if field_number < 1 || field_number > MAX_FIELD_NUMBER {
            return false;
        }
        if wire_type == 0 {
            match read_varint(bytes, after_tag) {
                None => {
                    return false;
                },
                Some((_v, after_val)) => {
                    pos = after_val;
                },
            }
        } else if wire_type == 1 {
            if bytes.len() - after_tag < 8 {
                return false;
            }
            pos = after_tag + 8;
        } else if wire_type == 5 {
            if bytes.len() - after_tag < 4 {
                return false;
            }
            pos = after_tag + 4;
        } else if wire_type == 2 {
            let (len_val, after_len) = match read_varint(bytes, after_tag) {
                None => {
                    return false;
                },
                Some(p) => p,
            };
            let remaining = bytes.len() - after_len;
            if len_val > remaining as u64 {
                return false;
            }
            pos = after_len + len_val as usize;
        } else {
            return false;
        }
    }
}

} // verus!
