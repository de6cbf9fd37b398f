//! Rendering numbers as text for the diagnostic path.
//!
//! The fault and uptime reports are emitted through a low-level byte sink
//! (a UART or a semihosting channel), so all rendering here produces bytes.
//! `digits` is the specification: the usual positional notation, most
//! significant digit first, no leading zeroes, lower-case letters for the
//! digits past nine.

use vstd::arithmetic::div_mod::{lemma_basic_div, lemma_div_decreases, lemma_div_non_zero, lemma_mod_bound, lemma_small_mod};
use vstd::prelude::*;

verus! {

/// The glyph (ASCII byte) of a single digit value.
pub open spec fn glyph(d: nat) -> u8 {
    if d < 10 {
        (0x30 + d) as u8
    } else {
        (0x57 + d) as u8
    }
}

/// The digits of `v` in the given base, most significant first. (A base
/// under two has no positional notation; the sequence is empty for it.)
pub open spec fn digits(v: nat, base: nat) -> Seq<u8>
    decreases v,
{
    if base < 2 {
        Seq::empty()
    } else if v < base {
        seq![glyph(v)]
    } else {
        proof {
            lemma_div_decreases(v as int, base as int);
        }
        digits(v / base, base).push(glyph(v % base))
    }
}

/// The glyph of one digit value, as executable code.
fn glyph_byte(d: u64) -> (r: u8)
    requires
        d < 16,
    ensures
        r == glyph(d as nat),
{
    if d < 10 {
        0x30 + (d as u8)
    } else {
        0x57 + (d as u8)
    }
}

/// Render `v` in the given base, most significant digit first.
fn render_digits(v: u64, base: u64) -> (r: Vec<u8>)
    requires
        2 <= base <= 16,
    ensures
        r@ == digits(v as nat, base as nat),
{
    let mut out: Vec<u8> = Vec::new();
    proof {
        lemma_mod_bound(v as int, base as int);
    }
    let g = glyph_byte(v % base);
    out.push(g);
    let mut x: u64 = v / base;
    proof {
        if x == 0 {
            if v >= base {
                lemma_div_non_zero(v as int, base as int);
            }
            lemma_small_mod(v as nat, base as nat);
            assert(out@ =~= digits(v as nat, base as nat));
        } else {
            if v < base {
                lemma_basic_div(v as int, base as int);
            }
            assert(digits(v as nat, base as nat) =~= digits(x as nat, base as nat) + out@);
        }
    }
    while x > 0
        invariant
            2 <= base <= 16,
            x == 0 ==> out@ == digits(v as nat, base as nat),
            x > 0 ==> digits(v as nat, base as nat) == digits(x as nat, base as nat) + out@,
        decreases x,
    {
        let ghost out_prev = out@;
        let ghost xp = x as nat;
        proof {
            lemma_mod_bound(x as int, base as int);
        }
        let g = glyph_byte(x % base);
        out.insert(0, g);
        let next: u64 = x / base;
        proof {
            let b = base as nat;
            assert(out@ =~= seq![glyph(xp % b)] + out_prev);
            if next > 0 {
                if x < base {
                    lemma_basic_div(x as int, base as int);
                }
                assert(digits(xp, b) =~= digits(xp / b, b) + seq![glyph(xp % b)]);
                assert(digits(v as nat, b) =~= digits(next as nat, b) + out@);
            } else {
                if x >= base {
                    lemma_div_non_zero(x as int, base as int);
                }
                lemma_small_mod(xp, b);
                assert(digits(xp, b) =~= seq![glyph(xp)]);
                assert(out@ =~= digits(v as nat, b));
            }
        }
        x = next;
    }
    out
}

/// The bytes of an ASCII character sequence, one byte per character.
pub open spec fn ascii_bytes(s: Seq<char>) -> Seq<u8> {
    Seq::new(s.len(), |i: int| s[i] as u8)
}

/// Append the bytes of an ASCII string.
pub fn push_ascii(out: &mut Vec<u8>, s: &str)
    requires
        vstd::utf8::is_ascii_chars(s@),
    ensures
        final(out)@ == old(out)@ + ascii_bytes(s@),
{
    let mut b = s.as_bytes_vec();
    out.append(&mut b);
    proof {
        broadcast use vstd::string::is_ascii_spec_bytes;

        assert(vstd::string::is_ascii(s));
        assert(out@ =~= old(out)@ + ascii_bytes(s@));
    }
}

/// Render `v` in decimal.
pub fn dec_bytes(v: u64) -> (r: Vec<u8>)
    ensures
        r@ == digits(v as nat, 10),
{
    render_digits(v, 10)
}

/// Render `v` in lower-case hexadecimal.
pub fn hex_bytes(v: u64) -> (r: Vec<u8>)
    ensures
        r@ == digits(v as nat, 16),
{
    render_digits(v, 16)
}

} // verus!
