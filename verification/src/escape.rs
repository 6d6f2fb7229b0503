//! Diagnostic rendering of raw header bytes as a quoted byte-string literal.
//!
//! Printable ASCII (0x20 through 0x7e) passes through literally; every other
//! byte becomes a `\xHH` escape with two lowercase hex digits. The rendering
//! is for diagnostics only and is not a wire format.
use vstd::prelude::*;

verus! {

/// The lowercase hex digit for a nibble.
pub open spec fn hex_digit(n: u8) -> char
    recommends
        n < 16,
{
    if n < 10 {
        (0x30 + n) as char
    } else {
        (0x57 + n) as char
    }
}

/// Rendering of a single byte: printable ASCII stands for itself, anything
/// else is a two-lowercase-hex-digit escape.
pub open spec fn escape_byte(b: u8) -> Seq<char> {
    if 0x20 <= b && b < 0x7f {
        seq![b as char]
    } else {
        seq!['\\', 'x', hex_digit(b / 16), hex_digit(b % 16)]
    }
}

/// Rendering of a byte sequence: each byte's rendering, in order.
pub open spec fn escape_bytes(bs: Seq<u8>) -> Seq<char>
    decreases bs.len(),
{
    if bs.len() == 0 {
        Seq::empty()
    } else {
        escape_bytes(bs.drop_last()) + escape_byte(bs.last())
    }
}

/// The full quoted form: `b"` before the escaped bytes, `"` after.
pub open spec fn byte_string_rendering(bs: Seq<u8>) -> Seq<char> {
    seq!['b', '"'] + escape_bytes(bs) + seq!['"']
}

/// The lowercase hex digit for a nibble, as executable code.
fn hex_char(n: u8) -> (c: char)
    requires
        n < 16,
    ensures
        c == hex_digit(n),
{
    if n < 10 {
        (0x30 + n) as char
    } else {
        (0x57 + n) as char
    }
}

/// Renders a byte slice as a quoted byte-string literal.
pub fn render_byte_string(bs: &[u8]) -> (r: String)
    ensures
        r@ == byte_string_rendering(bs@),
{
    let mut s = String::new();
    s.push('b');
    s.push('"');
    let n: usize = bs.len();
    let mut i: usize = 0;
    while i < n
        invariant
            n == bs@.len(),
            0 <= i <= n,
            s@ == seq!['b', '"'] + escape_bytes(bs@.take(i as int)),
        decreases n - i,
    {
        let b = bs[i];
        if 0x20 <= b && b < 0x7f {
            s.push(b as char);
        } else {
            s.push('\\');
            s.push('x');
            s.push(hex_char(b / 16));
            s.push(hex_char(b % 16));
        }
        proof {
            assert(bs@.take(i + 1 as int).drop_last() =~= bs@.take(i as int));
            assert(bs@.take(i + 1 as int).last() == bs@[i as int]);
            assert(s@ =~= seq!['b', '"'] + escape_bytes(bs@.take(i + 1 as int)));
        }
        i += 1;
    }
    s.push('"');
    proof {
        assert(bs@.take(n as int) =~= bs@);
        assert(s@ =~= byte_string_rendering(bs@));
    }
    s
}

} // verus!
