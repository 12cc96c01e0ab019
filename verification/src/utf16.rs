//! UTF-16: validity, decoding and encoding.
//!
//! The path crossing the boundary arrives as UTF-16 code units, and error
//! messages travel back the same way.  The specification functions here say
//! what a valid code-unit sequence is and which characters it stands for; the
//! executable codec is proved against them.

use vstd::arithmetic::div_mod::lemma_fundamental_div_mod;
use vstd::pervasive::unreached;
use vstd::prelude::*;
use vstd::utf8::{char_is_scalar, char_u32_cast};

verus! {

/// A code unit opening a surrogate pair.
pub open spec fn is_high_surrogate(u: u16) -> bool {
    0xD800 <= u && u <= 0xDBFF
}

/// A code unit closing a surrogate pair.
pub open spec fn is_low_surrogate(u: u16) -> bool {
    0xDC00 <= u && u <= 0xDFFF
}

/// The Unicode scalar value that a surrogate pair stands for.
pub open spec fn combined_scalar(hi: u16, lo: u16) -> u32 {
    (0x10000 + (hi - 0xD800) * 0x400 + (lo - 0xDC00)) as u32
}

/// A sequence of code units is valid UTF-16 when every high surrogate is
/// followed by a low surrogate and no low surrogate stands on its own.
pub open spec fn is_valid_utf16(s: Seq<u16>) -> bool
    decreases s.len(),
{
    if s.len() == 0 {
        true
    } else if is_high_surrogate(s[0]) {
        if s.len() >= 2 {
            is_low_surrogate(s[1]) && is_valid_utf16(s.skip(2))
        } else {
            false
        }
    } else if is_low_surrogate(s[0]) {
        false
    } else {
        is_valid_utf16(s.skip(1))
    }
}

/// The characters a code-unit sequence stands for; meaningful on valid
/// sequences, where each unit or surrogate pair yields one character.
pub open spec fn decode_utf16(s: Seq<u16>) -> Seq<char>
    decreases s.len(),
{
    if s.len() == 0 {
        Seq::empty()
    } else if is_high_surrogate(s[0]) {
        if s.len() >= 2 {
            seq![combined_scalar(s[0], s[1]) as char] + decode_utf16(s.skip(2))
        } else {
            Seq::empty()
        }
    } else {
        seq![(s[0] as u32) as char] + decode_utf16(s.skip(1))
    }
}

/// The code units encoding one character: itself below 0x10000, a surrogate
/// pair above.
pub open spec fn encode_char_utf16(c: char) -> Seq<u16> {
    let u = c as u32;
    if u < 0x10000 {
        seq![u as u16]
    } else {
        seq![
            (0xD800 + (u - 0x10000) / 0x400) as u16,
            (0xDC00 + (u - 0x10000) % 0x400) as u16,
        ]
    }
}

/// The UTF-16 encoding of a character sequence.
pub open spec fn encode_utf16(cs: Seq<char>) -> Seq<u16>
    decreases cs.len(),
{
    if cs.len() == 0 {
        Seq::empty()
    } else {
        encode_char_utf16(cs[0]) + encode_utf16(cs.skip(1))
    }
}

/// Relies on char::from_u32: `Some` exactly for Unicode scalar values (below
/// the surrogate range, or above it and at most the largest code point), and
/// then the character with that value.
#[verifier::external_body]
fn char_from_u32(u: u32) -> (r: Option<char>)
    ensures
        r is Some <==> (u < 0xD800 || (0xE000 <= u && u <= 0x10FFFF)),
        r matches Some(c) ==> c == (u as char) && c as u32 == u,
{
    char::from_u32(u)
}

/// Relies on String::push: appends exactly one character at the end.
#[verifier::external_body]
fn push_char(s: &mut String, c: char)
    ensures
        final(s)@ == old(s)@.push(c),
{
    s.push(c);
}

/// Appending a character encodes as the encoding of the prefix followed by
/// the encoding of that character.
pub proof fn lemma_encode_utf16_push(cs: Seq<char>, c: char)
    ensures
        encode_utf16(cs.push(c)) == encode_utf16(cs) + encode_char_utf16(c),
    decreases cs.len(),
{
    if cs.len() == 0 {
        assert(cs.push(c) =~= seq![c]);
        assert(seq![c].skip(1) =~= Seq::<char>::empty());
        assert(seq![c][0] == c);
        assert(encode_utf16(seq![c]) == encode_char_utf16(c) + encode_utf16(
            Seq::<char>::empty(),
        ));
        assert(encode_utf16(Seq::<char>::empty()) == Seq::<u16>::empty());
        assert(encode_char_utf16(c) + Seq::<u16>::empty() =~= encode_char_utf16(c));
        assert(encode_utf16(cs) + encode_char_utf16(c) =~= encode_char_utf16(c));
    } else {
        lemma_encode_utf16_push(cs.skip(1), c);
        assert(cs.push(c).skip(1) =~= cs.skip(1).push(c));
        assert(cs.push(c)[0] == cs[0]);
        assert(cs.push(c).len() == cs.len() + 1);
        assert(encode_utf16(cs.push(c)) == encode_char_utf16(cs[0]) + encode_utf16(
            cs.skip(1).push(c),
        ));
        assert(encode_utf16(cs) == encode_char_utf16(cs[0]) + encode_utf16(cs.skip(1)));
        assert(encode_char_utf16(cs[0]) + (encode_utf16(cs.skip(1)) + encode_char_utf16(c)) =~= (
        encode_char_utf16(cs[0]) + encode_utf16(cs.skip(1))) + encode_char_utf16(c));
    }
}

/// Law: every character sequence encodes to valid UTF-16, and decoding the
/// encoding yields the sequence back.
pub proof fn lemma_utf16_round_trip(cs: Seq<char>)
    ensures
        is_valid_utf16(encode_utf16(cs)),
        decode_utf16(encode_utf16(cs)) == cs,
    decreases cs.len(),
{
    if cs.len() == 0 {
        assert(decode_utf16(encode_utf16(cs)) =~= cs);
    } else {
        let c = cs[0];
        let u = c as u32;
        char_is_scalar(c);
        char_u32_cast(c, u);
        lemma_utf16_round_trip(cs.skip(1));
        let e = encode_utf16(cs);
        let ec = encode_char_utf16(c);
        let etail = encode_utf16(cs.skip(1));
        assert(e == ec + etail);
        if u < 0x10000 {
            assert(ec == seq![u as u16]);
            assert(e[0] == (u as u16));
            assert(e.skip(1) =~= etail);
            assert((e[0] as u32) == u);
            assert(!is_high_surrogate(e[0]) && !is_low_surrogate(e[0]));
            assert(decode_utf16(e) == seq![(e[0] as u32) as char] + decode_utf16(e.skip(1)));
            assert(seq![c] + cs.skip(1) =~= cs);
        } else {
            let v = (u - 0x10000) as int;
            assert(v <= 0xFFFFF);
            assert(v / 0x400 <= 0x3FF && 0 <= v / 0x400) by (nonlinear_arith)
                requires
                    0 <= v <= 0xFFFFF,
            ;
            assert(0 <= v % 0x400 < 0x400) by (nonlinear_arith);
            lemma_fundamental_div_mod(v, 0x400);
            assert(e[0] == ec[0] && e[1] == ec[1]);
            assert(is_high_surrogate(e[0]));
            assert(is_low_surrogate(e[1]));
            assert(e.skip(2) =~= etail);
            assert(combined_scalar(e[0], e[1]) == u);
            assert(decode_utf16(e) == seq![combined_scalar(e[0], e[1]) as char] + decode_utf16(
                e.skip(2),
            ));
            assert(seq![c] + cs.skip(1) =~= cs);
        }
    }
}

/// Decode a UTF-16 code-unit sequence: the decoded string when it is valid,
/// nothing when a surrogate stands unpaired.
pub fn utf16_to_string(units: &[u16]) -> (r: Option<String>)
    ensures
        r is Some <==> is_valid_utf16(units@),
        r matches Some(s) ==> s@ == decode_utf16(units@),
{
    let ghost full: Seq<u16> = units@;
    let n: usize = units.len();
    let mut out: String = String::new();
    let mut i: usize = 0;
    proof {
        assert(full.skip(0) =~= full);
        assert(Seq::<char>::empty() + decode_utf16(full) =~= decode_utf16(full));
    }
    while i < n
        invariant
            i <= n,
            n == full.len(),
            full == units@,
            is_valid_utf16(full) <==> is_valid_utf16(full.skip(i as int)),
            is_valid_utf16(full.skip(i as int)) ==> decode_utf16(full) == out@ + decode_utf16(
                full.skip(i as int),
            ),
        decreases n - i,
    {
        let ghost rest = full.skip(i as int);
        proof {
            assert(rest.len() == n - i);
            assert(rest[0] == full[i as int]);
        }
        let u = units[i];
        if 0xD800 <= u && u <= 0xDBFF {
            if i + 1 == n {
                proof {
                    assert(!is_valid_utf16(rest));
                }
                return None;
            }
            let u2 = units[i + 1];
            proof {
                assert(rest[1] == full[i as int + 1]);
            }
            if !(0xDC00 <= u2 && u2 <= 0xDFFF) {
                proof {
                    assert(!is_valid_utf16(rest));
                }
                return None;
            }
            let scalar: u32 = 0x10000 + ((u - 0xD800) as u32) * 0x400 + ((u2 - 0xDC00) as u32);
            proof {
                assert(scalar == combined_scalar(u, u2));
            }
            let c = match char_from_u32(scalar) {
                Some(c) => c,
                None => unreached(),
            };
            push_char(&mut out, c);
            proof {
                assert(rest.skip(2) =~= full.skip(i as int + 2));
                assert(is_valid_utf16(rest) <==> is_valid_utf16(full.skip(i as int + 2)));
                assert(decode_utf16(rest) == seq![combined_scalar(rest[0], rest[1]) as char]
                    + decode_utf16(rest.skip(2)));
                assert(is_valid_utf16(full.skip(i as int + 2)) ==> decode_utf16(full) == out@
                    + decode_utf16(full.skip(i as int + 2)));
            }
            i = i + 2;
        } else if 0xDC00 <= u && u <= 0xDFFF {
            proof {
                assert(!is_valid_utf16(rest));
            }
            return None;
        } else {
            let c = match char_from_u32(u as u32) {
                Some(c) => c,
                None => unreached(),
            };
            push_char(&mut out, c);
            proof {
                assert(rest.skip(1) =~= full.skip(i as int + 1));
                assert(is_valid_utf16(rest) <==> is_valid_utf16(full.skip(i as int + 1)));
                assert(decode_utf16(rest) == seq![(rest[0] as u32) as char] + decode_utf16(
                    rest.skip(1),
                ));
                assert(is_valid_utf16(full.skip(i as int + 1)) ==> decode_utf16(full) == out@
                    + decode_utf16(full.skip(i as int + 1)));
            }
            i = i + 1;
        }
    }
    proof {
        assert(full.skip(n as int) =~= Seq::<u16>::empty());
        assert(out@ + Seq::<char>::empty() =~= out@);
    }
    Some(out)
}

/// Encode a string as UTF-16 code units.
pub fn str_to_utf16(s: &str) -> (r: Vec<u16>)
    ensures
        r@ == encode_utf16(s@),
{
    let n: usize = s.unicode_len();
    let mut out: Vec<u16> = Vec::new();
    let mut i: usize = 0;
    proof {
        assert(s@.take(0) =~= Seq::<char>::empty());
    }
    while i < n
        invariant
            i <= n,
            n == s@.len(),
            out@ == encode_utf16(s@.take(i as int)),
        decreases n - i,
    {
        let c = s.get_char(i);
        let u: u32 = c as u32;
        proof {
            char_is_scalar(c);
            lemma_encode_utf16_push(s@.take(i as int), c);
            assert(s@.take(i as int).push(c) =~= s@.take(i as int + 1));
        }
        if u < 0x10000 {
            out.push(u as u16);
            proof {
                assert(encode_char_utf16(c) == seq![u as u16]);
                assert(out@ =~= encode_utf16(s@.take(i as int + 1)));
            }
        } else {
            let v: u32 = u - 0x10000;
            proof {
                assert(v <= 0xFFFFF);
                assert(v / 0x400 <= 0x3FF && 0 <= v / 0x400) by (nonlinear_arith)
                    requires
                        v <= 0xFFFFF,
                ;
                assert(0 <= v % 0x400 < 0x400) by (nonlinear_arith);
            }
            let hi: u32 = 0xD800 + v / 0x400;
            let lo: u32 = 0xDC00 + v % 0x400;
            out.push(hi as u16);
            out.push(lo as u16);
            proof {
                assert(encode_char_utf16(c)[0] == (hi as u16));
                assert(encode_char_utf16(c)[1] == (lo as u16));
                assert(out@ =~= encode_utf16(s@.take(i as int + 1)));
            }
        }
        i = i + 1;
    }
    proof {
        assert(s@.take(n as int) =~= s@);
    }
    out
}

} // verus!
