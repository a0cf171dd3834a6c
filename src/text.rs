//! Key text as a script hands it over: bytes that should be UTF-8, read one
//! character at a time, with each malformed byte skipped.
use vstd::prelude::*;

verus! {

/// Whether `b` is a UTF-8 continuation byte.
pub open spec fn is_cont(b: u8) -> bool {
    0x80 <= b && b <= 0xBF
}

/// Whether `b1` may follow the lead byte `b0` of a three-byte sequence
/// (no overlong forms, no surrogates).
pub open spec fn second_ok3(b0: u8, b1: u8) -> bool {
    if b0 == 0xE0 {
        0xA0 <= b1 && b1 <= 0xBF
    } else if b0 == 0xED {
        0x80 <= b1 && b1 <= 0x9F
    } else {
        is_cont(b1)
    }
}

/// Whether `b1` may follow the lead byte `b0` of a four-byte sequence
/// (no overlong forms, nothing past U+10FFFF).
pub open spec fn second_ok4(b0: u8, b1: u8) -> bool {
    if b0 == 0xF0 {
        0x90 <= b1 && b1 <= 0xBF
    } else if b0 == 0xF4 {
        0x80 <= b1 && b1 <= 0x8F
    } else {
        is_cont(b1)
    }
}

/// Length of the well-formed UTF-8 sequence that starts at `i`, or zero
/// when the byte there starts none.
pub open spec fn width(s: Seq<u8>, i: int) -> nat {
    if i < 0 || i >= s.len() {
        0
    } else if s[i] < 0x80 {
        1
    } else if 0xC2 <= s[i] && s[i] <= 0xDF {
        if i + 1 < s.len() && is_cont(s[i + 1]) {
            2
        } else {
            0
        }
    } else if 0xE0 <= s[i] && s[i] <= 0xEF {
        if i + 2 < s.len() && second_ok3(s[i], s[i + 1]) && is_cont(s[i + 2]) {
            3
        } else {
            0
        }
    } else if 0xF0 <= s[i] && s[i] <= 0xF4 {
        if i + 3 < s.len() && second_ok4(s[i], s[i + 1]) && is_cont(s[i + 2]) && is_cont(
            s[i + 3],
        ) {
            4
        } else {
            0
        }
    } else {
        0
    }
}

/// The code point that the sequence at `i` encodes.
pub open spec fn scalar(s: Seq<u8>, i: int) -> int {
    let w = width(s, i);
    if w == 1 {
        s[i] as int
    } else if w == 2 {
        (s[i] - 0xC0) * 64 + (s[i + 1] - 0x80)
    } else if w == 3 {
        (s[i] - 0xE0) * 4096 + (s[i + 1] - 0x80) * 64 + (s[i + 2] - 0x80)
    } else {
        (s[i] - 0xF0) * 262144 + (s[i + 1] - 0x80) * 4096 + (s[i + 2] - 0x80) * 64 + (s[i
            + 3] - 0x80)
    }
}

/// Whether `x` is a Unicode scalar value, that is a `char`.
pub open spec fn is_scalar(x: int) -> bool {
    0 <= x <= 0x10FFFF && !(0xD800 <= x <= 0xDFFF)
}

/// The code points of `s` from `i` on: each well-formed sequence gives its
/// code point, and each byte that starts none is skipped.
pub open spec fn decoded_from(s: Seq<u8>, i: int) -> Seq<int>
    decreases s.len() - i,
{
    if i < 0 || i >= s.len() {
        Seq::empty()
    } else if width(s, i) == 0 {
        decoded_from(s, i + 1)
    } else {
        seq![scalar(s, i)] + decoded_from(s, i + width(s, i))
    }
}

/// The code points of characters `cs`.
pub open spec fn code_points(cs: Seq<char>) -> Seq<int> {
    cs.map_values(|c: char| c as int)
}

/// Relies on `char::from_u32`: the character with code point `x`, or `None`
/// when `x` is no Unicode scalar value.
#[verifier::external_body]
fn char_from_scalar(x: u32) -> (r: Option<char>)
    ensures
        r matches Some(c) ==> c as int == x as int,
        is_scalar(x as int) ==> r is Some,
{
    char::from_u32(x)
}

proof fn lemma_scalar_valid(s: Seq<u8>, i: int)
    requires
        width(s, i) > 0,
    ensures
        is_scalar(scalar(s, i)),
{
}

/// Width and code point of the sequence at `i`.
fn sequence_at(bytes: &[u8], i: usize) -> (r: (usize, u32))
    requires
        i < bytes@.len(),
    ensures
        r.0 == width(bytes@, i as int),
        r.0 > 0 ==> r.1 as int == scalar(bytes@, i as int),
{
    let n = bytes.len();
    let b0 = bytes[i];
    if b0 < 0x80 {
        (1, b0 as u32)
    } else if 0xC2 <= b0 && b0 <= 0xDF {
        if n - i > 1 && 0x80 <= bytes[i + 1] && bytes[i + 1] <= 0xBF {
            (2, (b0 as u32 - 0xC0) * 64 + (bytes[i + 1] as u32 - 0x80))
        } else {
            (0, 0)
        }
    } else if 0xE0 <= b0 && b0 <= 0xEF {
        if n - i > 2 {
            let b1 = bytes[i + 1];
            let b2 = bytes[i + 2];
            let ok1 = if b0 == 0xE0 {
                0xA0 <= b1 && b1 <= 0xBF
            } else if b0 == 0xED {
                0x80 <= b1 && b1 <= 0x9F
            } else {
                0x80 <= b1 && b1 <= 0xBF
            };
            if ok1 && 0x80 <= b2 && b2 <= 0xBF {
                (3, (b0 as u32 - 0xE0) * 4096 + (b1 as u32 - 0x80) * 64 + (b2 as u32 - 0x80))
            } else {
                (0, 0)
            }
        } else {
            (0, 0)
        }
    } else if 0xF0 <= b0 && b0 <= 0xF4 {
        if n - i > 3 {
            let b1 = bytes[i + 1];
            let b2 = bytes[i + 2];
            let b3 = bytes[i + 3];
            let ok1 = if b0 == 0xF0 {
                0x90 <= b1 && b1 <= 0xBF
            } else if b0 == 0xF4 {
                0x80 <= b1 && b1 <= 0x8F
            } else {
                0x80 <= b1 && b1 <= 0xBF
            };
            if ok1 && 0x80 <= b2 && b2 <= 0xBF && 0x80 <= b3 && b3 <= 0xBF {
                (
                    4,
                    (b0 as u32 - 0xF0) * 262144 + (b1 as u32 - 0x80) * 4096 + (b2 as u32 - 0x80)
                        * 64 + (b3 as u32 - 0x80),
                )
            } else {
                (0, 0)
            }
        } else {
            (0, 0)
        }
    } else {
        (0, 0)
    }
}

/// The characters of `bytes` read as UTF-8, skipping each byte that starts
/// no well-formed sequence.
pub fn decode_skipping(bytes: &[u8]) -> (r: Vec<char>)
    ensures
        code_points(r@) == decoded_from(bytes@, 0),
{
    let n = bytes.len();
    let mut out: Vec<char> = Vec::new();
    let mut i: usize = 0;
    while i < n
        invariant
            n == bytes@.len(),
            i <= n,
            code_points(out@) + decoded_from(bytes@, i as int) == decoded_from(bytes@, 0),
        decreases n - i,
    {
        let (w, x) = sequence_at(bytes, i);
        if w == 0 {
            i = i + 1;
        } else {
            proof {
                lemma_scalar_valid(bytes@, i as int);
            }
            match char_from_scalar(x) {
                Some(c) => {
                    let ghost before = out@;
                    out.push(c);
                    assert(code_points(out@) =~= code_points(before).push(x as int));
                    assert(code_points(out@) + decoded_from(bytes@, (i + w) as int)
                        =~= code_points(before) + decoded_from(bytes@, i as int));
                },
                None => {},
            }
            i = i + w;
        }
    }
    assert(decoded_from(bytes@, n as int) == Seq::<int>::empty());
    assert(code_points(out@) =~= code_points(out@) + decoded_from(bytes@, n as int));
    out
}

} // verus!
