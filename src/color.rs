//! 8-bit RGBA colors and their hex notation.
use vstd::prelude::*;
use vstd::string::StringSliceAdditionalSpecFns;

verus! {

/// A hex color string could not be parsed.
#[derive(Clone, Copy, Debug, PartialEq, Eq, Structural)]
pub struct ColorParseError;

/// An 8-bit-per-channel RGBA color.
#[derive(Clone, Copy, Debug, PartialEq, Eq, Structural)]
pub struct Color {
    pub r: u8,
    pub g: u8,
    pub b: u8,
    pub a: u8,
}

/// Value of a hex digit of either case.
pub open spec fn hexdigit_spec(c: char) -> Option<u8> {
    if '0' <= c <= '9' {
        Some((c as u32 - '0' as u32) as u8)
    } else if 'a' <= c <= 'f' {
        Some((c as u32 - 'a' as u32 + 10) as u8)
    } else if 'A' <= c <= 'F' {
        Some((c as u32 - 'A' as u32 + 10) as u8)
    } else {
        None
    }
}

/// The bytes after any leading `#`.
pub open spec fn strip_hashes(b: Seq<u8>) -> Seq<u8>
    decreases b.len(),
{
    if b.len() > 0 && b[0] == 35 {
        strip_hashes(b.drop_first())
    } else {
        b
    }
}

pub open spec fn all_hex(d: Seq<u8>) -> bool {
    forall|i: int| 0 <= i < d.len() ==> (#[trigger] hexdigit_spec(d[i] as char)) is Some
}

/// The number a string of hex digits denotes.
pub open spec fn hex_number(d: Seq<u8>) -> nat
    decreases d.len(),
{
    if d.len() == 0 {
        0
    } else {
        hex_number(d.drop_last()) * 16 + hexdigit_spec(d.last() as char)->Some_0 as nat
    }
}

/// The color a string of six (RRGGBB) or eight (RRGGBBAA) hex digits denotes.
pub open spec fn color_of_digits(d: Seq<u8>) -> Color {
    let n = hex_number(d);
    if d.len() == 6 {
        Color { r: (n / 0x10000 % 256) as u8, g: (n / 0x100 % 256) as u8, b: (n % 256) as u8, a: 255 }
    } else {
        Color {
            r: (n / 0x100_0000 % 256) as u8,
            g: (n / 0x10000 % 256) as u8,
            b: (n / 0x100 % 256) as u8,
            a: (n % 256) as u8,
        }
    }
}

pub open spec fn pow16(k: nat) -> nat
    decreases k,
{
    if k == 0 {
        1
    } else {
        16 * pow16((k - 1) as nat)
    }
}

/// Parses one hex digit of either case.
pub fn parse_hexdigit(digit: char) -> (r: Result<u8, ColorParseError>)
    ensures
        r matches Ok(v) ==> hexdigit_spec(digit) == Some(v),
        r is Err ==> hexdigit_spec(digit) is None,
{
    if digit >= '0' && digit <= '9' {
        Ok((digit as u32 - '0' as u32) as u8)
    } else if digit >= 'a' && digit <= 'f' {
        Ok((digit as u32 - 'a' as u32 + 10) as u8)
    } else if digit >= 'A' && digit <= 'F' {
        Ok((digit as u32 - 'A' as u32 + 10) as u8)
    } else {
        Err(ColorParseError)
    }
}

impl Color {
    /// #000000FF
    pub fn black() -> (r: Self)
        ensures
            r == (Color { r: 0, g: 0, b: 0, a: 255 }),
    {
        Color { r: 0, g: 0, b: 0, a: 255 }
    }

    /// #FF0000FF
    pub fn red() -> (r: Self)
        ensures
            r == (Color { r: 255, g: 0, b: 0, a: 255 }),
    {
        Color { r: 255, g: 0, b: 0, a: 255 }
    }

    /// #00FF00FF
    pub fn green() -> (r: Self)
        ensures
            r == (Color { r: 0, g: 255, b: 0, a: 255 }),
    {
        Color { r: 0, g: 255, b: 0, a: 255 }
    }

    /// #FFFF00FF
    pub fn yellow() -> (r: Self)
        ensures
            r == (Color { r: 255, g: 255, b: 0, a: 255 }),
    {
        Color { r: 255, g: 255, b: 0, a: 255 }
    }

    /// #0000FFFF
    pub fn blue() -> (r: Self)
        ensures
            r == (Color { r: 0, g: 0, b: 255, a: 255 }),
    {
        Color { r: 0, g: 0, b: 255, a: 255 }
    }

    /// #8000FFFF
    pub fn purple() -> (r: Self)
        ensures
            r == (Color { r: 128, g: 0, b: 255, a: 255 }),
    {
        Color { r: 128, g: 0, b: 255, a: 255 }
    }

    /// #00FFFFFF
    pub fn cyan() -> (r: Self)
        ensures
            r == (Color { r: 0, g: 255, b: 255, a: 255 }),
    {
        Color { r: 0, g: 255, b: 255, a: 255 }
    }

    /// #FFFFFFFF
    pub fn white() -> (r: Self)
        ensures
            r == (Color { r: 255, g: 255, b: 255, a: 255 }),
    {
        Color { r: 255, g: 255, b: 255, a: 255 }
    }

    /// #FF00FFFF
    pub fn magenta() -> (r: Self)
        ensures
            r == (Color { r: 255, g: 0, b: 255, a: 255 }),
    {
        Color { r: 255, g: 0, b: 255, a: 255 }
    }

    /// A fully opaque color.
    pub fn rgb(r: u8, g: u8, b: u8) -> (c: Self)
        ensures
            c == (Color { r, g, b, a: 255 }),
    {
        Color { r, g, b, a: 255 }
    }

    pub fn rgba(r: u8, g: u8, b: u8, a: u8) -> (c: Self)
        ensures
            c == (Color { r, g, b, a }),
    {
        Color { r, g, b, a }
    }

    /// The channels in RGBA order.
    pub fn to_array(&self) -> (r: [u8; 4])
        ensures
            r@ == seq![self.r, self.g, self.b, self.a],
    {
        [self.r, self.g, self.b, self.a]
    }

    /// Parses `RRGGBB` or `RRGGBBAA` hex notation, after any leading `#`; six digits give an
    /// opaque color. Anything else fails.
    pub fn hex(s: &str) -> (r: Result<Self, ColorParseError>)
        ensures
            ({
                let d = strip_hashes(s.spec_bytes());
                &&& r is Ok <==> (all_hex(d) && (d.len() == 6 || d.len() == 8))
                &&& r matches Ok(c) ==> c == color_of_digits(d)
            }),
    {
        let bytes = s.as_bytes();
        let mut start: usize = 0;
        assert(bytes@.skip(0) =~= bytes@);
        while start < bytes.len() && bytes[start] == 35
            invariant
                start <= bytes@.len(),
                strip_hashes(bytes@) == strip_hashes(bytes@.skip(start as int)),
            decreases bytes@.len() - start,
        {
            assert(bytes@.skip(start as int).drop_first() =~= bytes@.skip(start + 1));
            start = start + 1;
        }
        let ghost d = bytes@.skip(start as int);
        assert(strip_hashes(bytes@) == d);
        let blen = bytes.len();
        let len = blen - start;
        if len != 6 && len != 8 {
            return Err(ColorParseError);
        }
        let mut val: u64 = 0;
        let mut i: usize = 0;
        proof {
            reveal_with_fuel(pow16, 9);
        }
        while i < len
            invariant
                len == d.len(),
                len <= 8,
                start + len == blen,
                blen == bytes@.len(),
                d == bytes@.skip(start as int),
                d == strip_hashes(s.spec_bytes()),
                i <= len,
                val == hex_number(d.take(i as int)),
                val < pow16(i as nat),
                pow16(8) == 0x1_0000_0000,
                forall|k: int| 0 <= k < i ==> (#[trigger] hexdigit_spec(d[k] as char)) is Some,
            decreases len - i,
        {
            let digit = parse_hexdigit(bytes[start + i] as char);
            match digit {
                Ok(v) => {
                    assert(d.take(i + 1).drop_last() =~= d.take(i as int));
                    assert(d[i as int] == bytes@[start + i]);
                    proof {
                        lemma_pow16_monotone(i as nat, 8);
                        assert(val * 16 + v < 16 * pow16(i as nat)) by (nonlinear_arith)
                            requires
                                val < pow16(i as nat),
                                v < 16,
                        ;
                    }
                    val = val * 16 + v as u64;
                    i = i + 1;
                },
                Err(e) => {
                    assert(d[i as int] == bytes@[start + i]);
                    assert(hexdigit_spec(d[i as int] as char) is None);
                    assert(!all_hex(d));
                    return Err(e);
                },
            }
        }
        assert(d.take(len as int) =~= d);
        if len == 6 {
            Ok(Color { r: (val / 0x10000 % 256) as u8, g: (val / 0x100 % 256) as u8, b: (val % 256) as u8, a: 255 })
        } else {
            Ok(
                Color {
                    r: (val / 0x100_0000 % 256) as u8,
                    g: (val / 0x10000 % 256) as u8,
                    b: (val / 0x100 % 256) as u8,
                    a: (val % 256) as u8,
                },
            )
        }
    }
}

impl std::str::FromStr for Color {
    type Err = ColorParseError;

    /// Parses hex notation, as `Color::hex` does.
    fn from_str(s: &str) -> Result<Self, Self::Err> {
        Color::hex(s)
    }
}

proof fn lemma_pow16_monotone(i: nat, j: nat)
    requires
        i <= j,
    ensures
        pow16(i) <= pow16(j),
    decreases j,
{
    if i < j {
        lemma_pow16_monotone(i, (j - 1) as nat);
    }
}

} // verus!
