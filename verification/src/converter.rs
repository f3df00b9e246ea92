//! Converts buffer contents into the display strings the renderer shows:
//! hexadecimal rows and printable-ASCII rows, chunked into lines.

use crate::hex::hex_char_of;
use crate::hex::spec_hex_char;
use vstd::prelude::*;
use vstd::slice::slice_subrange;
use vstd::string::StringExecFns;

verus! {

/// Relies on String::push: appends exactly the given character.
#[verifier::external_body]
fn push_char(s: &mut String, c: char)
    ensures
        final(s)@ == old(s)@.push(c),
{
    s.push(c);
}

/// The character shown for a byte in the ASCII panel: the byte itself for
/// printable ASCII, a dot for control characters and beyond.
pub open spec fn spec_printable_char(num: u8) -> char {
    if 0x20 <= num < 0x7f {
        num as char
    } else {
        '.'
    }
}

/// Two uppercase hexadecimal digits for one byte.
pub open spec fn spec_hex_pair(b: u8) -> Seq<char> {
    seq![spec_hex_char(b as int / 16), spec_hex_char(b as int % 16)]
}

/// A row of hexadecimal byte pairs separated by single spaces.
pub open spec fn spec_hex_line(bytes: Seq<u8>) -> Seq<char>
    decreases bytes.len(),
{
    if bytes.len() == 0 {
        Seq::<char>::empty()
    } else if bytes.len() == 1 {
        spec_hex_pair(bytes[0])
    } else {
        spec_hex_line(bytes.drop_last()) + seq![' '] + spec_hex_pair(bytes.last())
    }
}

/// A row of printable characters, one per byte.
pub open spec fn spec_ascii_line(bytes: Seq<u8>) -> Seq<char> {
    bytes.map_values(|b: u8| spec_printable_char(b))
}

/// The left margin of every display line: eight cells of padding and one
/// separating space.
pub open spec fn spec_line_prefix() -> Seq<char> {
    seq![' ', ' ', ' ', ' ', ' ', ' ', ' ', ' ', ' ']
}

/// One way of turning a byte chunk into a display string.
pub trait ConverterTrait {
    /// The characters the conversion yields for the given bytes.
    spec fn spec_convert(bytes: Seq<u8>) -> Seq<char>;

    /// Converts one chunk of bytes into its display string.
    fn convert(buf: &[u8]) -> (r: String)
        ensures
            r@ == Self::spec_convert(buf@),
    ;
}

/// Conversion into hexadecimal byte pairs.
pub struct ForHex;

/// Conversion into printable ASCII.
pub struct ForAscii;

impl ConverterTrait for ForHex {
    open spec fn spec_convert(bytes: Seq<u8>) -> Seq<char> {
        spec_hex_line(bytes)
    }

    fn convert(buf: &[u8]) -> (r: String)
        ensures
            r@ == spec_hex_line(buf@),
    {
        let mut hex = String::new();
        let mut i: usize = 0;
        while i < buf.len()
            invariant
                i <= buf@.len(),
                hex@ == spec_hex_line(buf@.take(i as int)),
            decreases buf@.len() - i,
        {
            if i > 0 {
                push_char(&mut hex, ' ');
            }
            let b = *vstd::slice::slice_index_get(buf, i);
            push_char(&mut hex, hex_char_of(b / 16));
            push_char(&mut hex, hex_char_of(b % 16));
            proof {
                let t = buf@.take(i + 1);
                assert(t.drop_last() =~= buf@.take(i as int));
                assert(t.last() == buf@[i as int]);
                if i > 0 {
                    assert(hex@ =~= spec_hex_line(t.drop_last()) + seq![' '] + spec_hex_pair(
                        t.last(),
                    ));
                } else {
                    assert(hex@ =~= spec_hex_pair(t.last()));
                }
            }
            i = i + 1;
        }
        proof {
            assert(buf@.take(buf@.len() as int) =~= buf@);
        }
        hex
    }
}

impl ConverterTrait for ForAscii {
    open spec fn spec_convert(bytes: Seq<u8>) -> Seq<char> {
        spec_ascii_line(bytes)
    }

    fn convert(buf: &[u8]) -> (r: String)
        ensures
            r@ == spec_ascii_line(buf@),
    {
        let mut res = String::new();
        let mut i: usize = 0;
        while i < buf.len()
            invariant
                i <= buf@.len(),
                res@ == spec_ascii_line(buf@.take(i as int)),
            decreases buf@.len() - i,
        {
            let b = *vstd::slice::slice_index_get(buf, i);
            push_char(&mut res, Converter::to_printable_char(b));
            proof {
                assert(res@ =~= spec_ascii_line(buf@.take(i + 1)));
            }
            i = i + 1;
        }
        proof {
            assert(buf@.take(buf@.len() as int) =~= buf@);
        }
        res
    }
}

/// Turns buffer contents into renderable rows.
pub struct Converter;

impl Converter {
    /// Cuts the buffer into chunks of `len` bytes (the last one may be
    /// shorter) and converts each chunk into one prefixed display line.
    pub fn convert_to_lines<F: ConverterTrait>(buf: &[u8], len: usize) -> (r: Vec<String>)
        requires
            len >= 1,
        ensures
            r@.len() == (buf@.len() + len - 1) / (len as int),
            forall|k: int|
                0 <= k < r@.len() ==> r@[k]@ == spec_line_prefix() + F::spec_convert(
                    buf@.subrange(
                        k * len,
                        if (k + 1) * len <= buf@.len() {
                            (k + 1) * len
                        } else {
                            buf@.len() as int
                        },
                    ),
                ),
    {
        let mut vec: Vec<String> = Vec::new();
        let mut start: usize = 0;
        proof {
            assert((0 + len - 1) / (len as int) == 0) by (nonlinear_arith)
                requires
                    len >= 1,
            ;
        }
        while start < buf.len()
            invariant
                len >= 1,
                start <= buf@.len(),
                start % len == 0 || start == buf@.len(),
                vec@.len() == (start + len - 1) / (len as int),
                forall|k: int|
                    0 <= k < vec@.len() ==> vec@[k]@ == spec_line_prefix() + F::spec_convert(
                        buf@.subrange(
                            k * len,
                            if (k + 1) * len <= buf@.len() {
                                (k + 1) * len
                            } else {
                                buf@.len() as int
                            },
                        ),
                    ),
            decreases buf@.len() - start,
        {
            let end = if len > buf.len() - start {
                buf.len()
            } else {
                start + len
            };
            let chunk = slice_subrange(buf, start, end);
            let converted = F::convert(chunk);
            let mut line = String::from_str("         ");
            line.append(converted.as_str());
            vec.push(line);
            proof {
                reveal_strlit("         ");
                assert("         "@ =~= spec_line_prefix());
                let n = buf@.len() as int;
                let s = start as int;
                let l = len as int;
                let k = vec@.len() - 1;
                assert(k == (s + l - 1) / l);
                assert(k * l == s && (k + 1) * l == s + l && (s + l) % l == 0)
                    by (nonlinear_arith)
                    requires
                        l >= 1,
                        s >= 0,
                        s % l == 0,
                        k == (s + l - 1) / l,
                ;
                if end == start + len {
                    assert((end + l - 1) / l == k + 1) by (nonlinear_arith)
                        requires
                            l >= 1,
                            end == s + l,
                            s % l == 0,
                            k * l == s,
                            (k + 1) * l == s + l,
                    ;
                } else {
                    assert(end == n && s < n && n < s + l);
                    assert((n + l - 1) / l == k + 1) by (nonlinear_arith)
                        requires
                            l >= 1,
                            k * l == s,
                            s < n < s + l,
                    ;
                }
                assert(vec@[k]@ == spec_line_prefix() + F::spec_convert(
                    buf@.subrange(
                        k * l,
                        if (k + 1) * l <= n {
                            (k + 1) * l
                        } else {
                            n
                        },
                    ),
                ));
            }
            start = end;
        }
        vec
    }

    /// The character shown for `num` in the ASCII panel: control bytes and
    /// anything past the printable range become a dot.
    pub fn to_printable_char(num: u8) -> (r: char)
        ensures
            r == spec_printable_char(num),
    {
        if num <= 0x1f {
            '.'
        } else if num >= 0x7f {
            '.'
        } else {
            num as char
        }
    }
}

} // verus!
