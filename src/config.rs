//! Host configuration: program path, clock rates and the two display colours.
use vstd::prelude::*;
use vstd::string::StrSliceExecFns;

verus! {

/// Default processor clock in Hz.
pub const DEFAULT_CLOCK_HZ: u64 = 500;

/// Default display refresh rate in Hz.
pub const DEFAULT_REFRESH_HZ: u64 = 60;

/// Why a colour could not be read.
#[derive(Debug, Clone, Copy, PartialEq, Eq, Structural)]
pub enum ColorError {
    /// Fewer than six characters are left after the prefixes.
    TooShort,
    /// One of the six characters is no hexadecimal digit.
    InvalidDigit,
}

/// `s` without its leading `#` characters.
pub open spec fn strip_hashes(s: Seq<char>) -> Seq<char>
    decreases s.len(),
{
    if s.len() > 0 && s[0] == '#' {
        strip_hashes(s.skip(1))
    } else {
        s
    }
}

/// `s` without its leading `0x` pairs.
pub open spec fn strip_0x(s: Seq<char>) -> Seq<char>
    decreases s.len(),
{
    if s.len() >= 2 && s[0] == '0' && s[1] == 'x' {
        strip_0x(s.skip(2))
    } else {
        s
    }
}

/// The value of hexadecimal digit `c`, either case.
pub open spec fn hex_value(c: char) -> Option<u8> {
    if '0' <= c <= '9' {
        Some((c as u32 - '0' as u32) as u8)
    } else if 'a' <= c <= 'f' {
        Some((c as u32 - 'a' as u32 + 10) as u8)
    } else if 'A' <= c <= 'F' {
        Some((c as u32 - 'A' as u32 + 10) as u8)
    } else {
        None
    }
}

/// The byte written by the two hexadecimal digits at `k` and `k + 1`.
pub open spec fn hex_byte(t: Seq<char>, k: int) -> u8 {
    (hex_value(t[k])->0 * 16 + hex_value(t[k + 1])->0) as u8
}

/// What `rgb_from_hex` gives for `s`: after any leading `#` characters and
/// then any leading `0x` pairs, six hexadecimal digits give red, green and
/// blue; what follows them is ignored.
pub open spec fn parse_color(s: Seq<char>) -> Result<(u8, u8, u8), ColorError> {
    let t = strip_0x(strip_hashes(s));
    if t.len() < 6 {
        Err(ColorError::TooShort)
    } else if exists|k: int| 0 <= k < 6 && hex_value(#[trigger] t[k]) is None {
        Err(ColorError::InvalidDigit)
    } else {
        Ok((hex_byte(t, 0), hex_byte(t, 2), hex_byte(t, 4)))
    }
}

/// The value of hexadecimal digit `c`, if it is one.
fn hex_digit(c: char) -> (r: Option<u8>)
    ensures
        r == hex_value(c),
{
    if '0' <= c && c <= '9' {
        Some((c as u32 - '0' as u32) as u8)
    } else if 'a' <= c && c <= 'f' {
        Some((c as u32 - 'a' as u32 + 10) as u8)
    } else if 'A' <= c && c <= 'F' {
        Some((c as u32 - 'A' as u32 + 10) as u8)
    } else {
        None
    }
}

/// Reads a colour written as six hexadecimal digits, such as `#FF8000` or
/// `0xff8000`.
pub fn rgb_from_hex(hex: &str) -> (r: Result<(u8, u8, u8), ColorError>)
    ensures
        r == parse_color(hex@),
{
    let ghost s = hex@;
    let len = hex.unicode_len();
    let mut k: usize = 0;
    assert(s.skip(0) =~= s);
    while k < len && hex.get_char(k) == '#'
        invariant
            s == hex@,
            len == s.len(),
            k <= len,
            strip_hashes(s) == strip_hashes(s.skip(k as int)),
        decreases len - k,
    {
        assert(s.skip(k as int).skip(1) =~= s.skip(k + 1));
        k += 1;
    }
    assert(strip_hashes(s.skip(k as int)) == s.skip(k as int));
    while len - k >= 2 && hex.get_char(k) == '0' && hex.get_char(k + 1) == 'x'
        invariant
            s == hex@,
            len == s.len(),
            k <= len,
            strip_0x(strip_hashes(s)) == strip_0x(s.skip(k as int)),
        decreases len - k,
    {
        assert(s.skip(k as int).skip(2) =~= s.skip(k + 2));
        k += 2;
    }
    let ghost t = s.skip(k as int);
    assert(strip_0x(t) == t);
    if len - k < 6 {
        return Err(ColorError::TooShort);
    }
    let mut digits: Vec<u8> = Vec::new();
    let mut j: usize = 0;
    while j < 6
        invariant
            s == hex@,
            len == s.len(),
            k + 6 <= len,
            t == s.skip(k as int),
            strip_0x(strip_hashes(s)) == t,
            j <= 6,
            digits@.len() == j,
            forall|m: int| 0 <= m < j ==> hex_value(t[m]) == Some(#[trigger] digits@[m]),
        decreases 6 - j,
    {
        assert(t[j as int] == s[k + j]);
        match hex_digit(hex.get_char(k + j)) {
            None => {
                assert(hex_value(t[j as int]) is None);
                return Err(ColorError::InvalidDigit);
            },
            Some(d) => {
                digits.push(d);
            },
        }
        j += 1;
    }
    assert forall|m: int| 0 <= m < 6 implies hex_value(#[trigger] t[m]) is Some by {
        assert(hex_value(t[m]) == Some(digits@[m]));
    }
    let red = digits[0] * 16 + digits[1];
    let green = digits[2] * 16 + digits[3];
    let blue = digits[4] * 16 + digits[5];
    Ok((red, green, blue))
}

/// The 0RGB pixel value of a colour.
pub open spec fn rgb_value(r: u8, g: u8, b: u8) -> u32 {
    (r * 0x10000 + g * 0x100 + b) as u32
}

/// Packs a colour into one 0RGB pixel value.
pub fn from_u8_rgb(r: u8, g: u8, b: u8) -> (v: u32)
    ensures
        v == rgb_value(r, g, b),
{
    let (r, g, b) = (r as u32, g as u32, b as u32);
    assert((r << 16u32) | (g << 8u32) | b == r * 0x10000 + g * 0x100 + b) by (bit_vector)
        requires
            r < 256,
            g < 256,
            b < 256,
    ;
    (r << 16) | (g << 8) | b
}

/// How the host runs the machine.
pub struct Config {
    /// Path of the program to load.
    pub rom_file_path: String,
    /// Processor clock in Hz.
    pub clock_hz: u64,
    /// Display refresh rate in Hz.
    pub refresh_hz: u64,
    /// Colour of pixels that are off.
    pub color1: (u8, u8, u8),
    /// Colour of pixels that are on.
    pub color2: (u8, u8, u8),
}

impl Config {
    /// The default configuration for the program at `rom_file_path`: 500 Hz,
    /// 60 Hz refresh, black and white.
    pub fn new(rom_file_path: String) -> (r: Self)
        ensures
            r.rom_file_path == rom_file_path,
            r.clock_hz == DEFAULT_CLOCK_HZ,
            r.refresh_hz == DEFAULT_REFRESH_HZ,
            r.color1 == (0x00u8, 0x00u8, 0x00u8),
            r.color2 == (0xFFu8, 0xFFu8, 0xFFu8),
    {
        Config {
            rom_file_path,
            clock_hz: DEFAULT_CLOCK_HZ,
            refresh_hz: DEFAULT_REFRESH_HZ,
            color1: (0x00, 0x00, 0x00),
            color2: (0xFF, 0xFF, 0xFF),
        }
    }

    /// This configuration with processor clock `clock`.
    pub fn clock_hz(self, clock: u64) -> (r: Self)
        ensures
            r == (Config { clock_hz: clock, ..self }),
    {
        Config { clock_hz: clock, ..self }
    }

    /// This configuration with refresh rate `refresh_rate_hz`.
    pub fn refresh_hz(self, refresh_rate_hz: u64) -> (r: Self)
        ensures
            r == (Config { refresh_hz: refresh_rate_hz, ..self }),
    {
        Config { refresh_hz: refresh_rate_hz, ..self }
    }

    /// This configuration with `color` for pixels that are off.
    pub fn color1(self, color: (u8, u8, u8)) -> (r: Self)
        ensures
            r == (Config { color1: color, ..self }),
    {
        Config { color1: color, ..self }
    }

    /// This configuration with `color` for pixels that are on.
    pub fn color2(self, color: (u8, u8, u8)) -> (r: Self)
        ensures
            r == (Config { color2: color, ..self }),
    {
        Config { color2: color, ..self }
    }
}

} // verus!
