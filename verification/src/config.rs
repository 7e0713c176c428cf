//! Zone configuration: the per-corner settings, their defaults, the hex
//! overlay-color notation, and the rule that every zone must carry at least
//! one of an enter or an exit command.

use vstd::prelude::*;

verus! {

use crate::COLOR_RED;

/// Where on an output a zone's regions are anchored.
#[derive(Clone, Copy, Debug, PartialEq, Eq, Structural)]
pub enum Location {
    TopLeft,
    TopRight,
    BottomRight,
    BottomLeft,
    Left,
    Right,
    Top,
    Bottom,
}

/// Selects the outputs a zone is instantiated on, by description.
#[derive(Clone, Debug, PartialEq)]
pub struct OutputConfig {
    /// A regular expression matched against an output's description;
    /// absent means the zone goes on every output.
    pub description: Option<String>,
}

/// One configured corner/edge zone.
///
/// `timeout_ms` selects the zone's mode: a positive value debounces
/// enter/leave churn over that window, zero dispatches every sample at once
/// and enables flick detection. `flick_activation_speed` is in thousandths
/// of a pixel per millisecond.
#[derive(Clone, Debug, PartialEq)]
pub struct CornerConfig {
    pub output: Option<OutputConfig>,
    pub enter_command: Vec<String>,
    pub exit_command: Vec<String>,
    pub flick_command: Vec<String>,
    pub locations: Vec<Location>,
    pub size: u8,
    pub margin: i8,
    pub timeout_ms: u16,
    pub flick_activation_speed: u32,
    pub color: u32,
}

/// What kept a configuration from being used.
#[derive(Clone, Debug, PartialEq)]
pub enum ConfigError {
    /// The overlay color is not `#` followed by six to eight hex digits.
    InvalidHexColor,
    /// The named zone has neither an enter nor an exit command.
    MissingCommand { zone: String },
}

pub fn default_locations() -> (r: Vec<Location>)
    ensures
        r@ =~= seq![Location::BottomRight, Location::BottomLeft],
{
    let mut v: Vec<Location> = Vec::new();
    v.push(Location::BottomRight);
    v.push(Location::BottomLeft);
    v
}

pub fn default_size() -> (r: u8)
    ensures
        r == 10,
{
    10
}

pub fn default_margin() -> (r: i8)
    ensures
        r == 20,
{
    20
}

pub fn default_timeout_ms() -> (r: u16)
    ensures
        r == 250,
{
    250
}

pub fn default_color() -> (r: u32)
    ensures
        r == COLOR_RED,
{
    COLOR_RED
}

pub fn default_command() -> (r: Vec<String>)
    ensures
        r@.len() == 0,
{
    Vec::new()
}

/// The characters accepted as digits of a hex color.
pub open spec fn is_hex_digit(c: char) -> bool {
    ||| ('0' as u32) <= (c as u32) <= ('9' as u32)
    ||| ('a' as u32) <= (c as u32) <= ('f' as u32)
    ||| ('A' as u32) <= (c as u32) <= ('F' as u32)
}

/// The numeric value of one hex digit.
pub open spec fn hex_digit_val(c: char) -> int {
    if ('0' as u32) <= (c as u32) <= ('9' as u32) {
        (c as u32) - ('0' as u32)
    } else if ('a' as u32) <= (c as u32) <= ('f' as u32) {
        (c as u32) - ('a' as u32) + 10
    } else {
        (c as u32) - ('A' as u32) + 10
    }
}

/// The value of a big-endian sequence of hex digits.
pub open spec fn hex_value(digits: Seq<char>) -> int
    decreases digits.len(),
{
    if digits.len() == 0 {
        0
    } else {
        16 * hex_value(digits.drop_last()) + hex_digit_val(digits.last())
    }
}

/// A well-formed color: `#` followed by six to eight hex digits.
pub open spec fn valid_hex_color(s: Seq<char>) -> bool {
    &&& 7 <= s.len() <= 9
    &&& s[0] == '#'
    &&& forall|i: int| 1 <= i < s.len() ==> is_hex_digit(#[trigger] s[i])
}

/// The ARGB value a well-formed color denotes: six-digit colors get an
/// opaque alpha channel, anything that already sets alpha is kept as is.
pub open spec fn hex_color_value(s: Seq<char>) -> int {
    let v = hex_value(s.subrange(1, s.len() as int));
    if v <= 0xFF_FF_FF {
        v + 0xFF_00_00_00
    } else {
        v
    }
}

pub open spec fn pow16(n: nat) -> int
    decreases n,
{
    if n == 0 {
        1
    } else {
        16 * pow16((n - 1) as nat)
    }
}

proof fn lemma_pow16_pos(n: nat)
    ensures
        pow16(n) >= 1,
    decreases n,
{
    if n > 0 {
        lemma_pow16_pos((n - 1) as nat);
    }
}

proof fn lemma_pow16_le(a: nat, b: nat)
    requires
        a <= b,
    ensures
        pow16(a) <= pow16(b),
    decreases b,
{
    if a < b {
        lemma_pow16_le(a, (b - 1) as nat);
        lemma_pow16_pos((b - 1) as nat);
    }
}

proof fn lemma_hex_value_bound(digits: Seq<char>)
    requires
        forall|i: int| 0 <= i < digits.len() ==> is_hex_digit(#[trigger] digits[i]),
    ensures
        0 <= hex_value(digits) < pow16(digits.len()),
    decreases digits.len(),
{
    if digits.len() > 0 {
        lemma_hex_value_bound(digits.drop_last());
    }
}

fn hex_digit_value(c: char) -> (r: Option<u8>)
    ensures
        r is Some <==> is_hex_digit(c),
        r is Some ==> r->Some_0 as int == hex_digit_val(c),
{
    let v = c as u32;
    if ('0' as u32) <= v && v <= ('9' as u32) {
        Some((v - ('0' as u32)) as u8)
    } else if ('a' as u32) <= v && v <= ('f' as u32) {
        Some((v - ('a' as u32) + 10) as u8)
    } else if ('A' as u32) <= v && v <= ('F' as u32) {
        Some((v - ('A' as u32) + 10) as u8)
    } else {
        None
    }
}

/// Parses an overlay color written as `#RRGGBB`, `#RRGGBBAA`, or any other
/// run of six to eight hex digits after the `#`; colors without an alpha
/// channel are made fully opaque.
pub fn from_hex(value: &str) -> (r: Result<u32, ConfigError>)
    ensures
        r is Ok <==> valid_hex_color(value@),
        r is Ok ==> r->Ok_0 as int == hex_color_value(value@),
        r is Err ==> r->Err_0 == ConfigError::InvalidHexColor,
{
    let n: usize = value.unicode_len();
    if n < 7 || n > 9 {
        return Err(ConfigError::InvalidHexColor);
    }
    if value.get_char(0) != '#' {
        return Err(ConfigError::InvalidHexColor);
    }
    let mut acc: u64 = 0;
    let mut i: usize = 1;
    while i < n
        invariant
            1 <= i <= n,
            n == value@.len(),
            7 <= n <= 9,
            value@[0] == '#',
            forall|j: int| 1 <= j < i ==> is_hex_digit(#[trigger] value@[j]),
            acc == hex_value(value@.subrange(1, i as int)),
        decreases n - i,
    {
        let c = value.get_char(i);
        match hex_digit_value(c) {
            Option::None => {
                return Err(ConfigError::InvalidHexColor);
            },
            Option::Some(d) => {
                proof {
                    lemma_hex_value_bound(value@.subrange(1, i as int));
                    lemma_pow16_le((i - 1) as nat, 8);
                    reveal_with_fuel(pow16, 10);
                    assert(pow16(8) == 0x1_0000_0000);
                }
                acc = acc * 16 + (d as u64);
                proof {
                    let s1 = value@.subrange(1, (i + 1) as int);
                    assert(s1.drop_last() =~= value@.subrange(1, i as int));
                    assert(s1.last() == value@[i as int]);
                }
                i = i + 1;
            },
        }
    }
    proof {
        lemma_hex_value_bound(value@.subrange(1, n as int));
        lemma_pow16_le((n - 1) as nat, 8);
        reveal_with_fuel(pow16, 10);
        assert(pow16(8) == 0x1_0000_0000);
        assert(value@.subrange(1, n as int) =~= value@.subrange(1, value@.len() as int));
    }
    let acc32: u32 = acc as u32;
    if acc32 <= 0xFF_FF_FF {
        proof {
            assert(acc32 | 0xFF_00_00_00u32 == acc32 + 0xFF_00_00_00) by (bit_vector)
                requires
                    acc32 <= 0xFF_FF_FFu32,
            ;
        }
        Ok(acc32 | 0xFF_00_00_00)
    } else {
        Ok(acc32)
    }
}

/// A zone that can act: at least one of enter or exit command is configured.
pub open spec fn config_has_command(c: CornerConfig) -> bool {
    c.enter_command@.len() > 0 || c.exit_command@.len() > 0
}

/// Checks every named zone for the one rule the core imposes on
/// configurations, and strips the names off the accepted set.
///
/// The error carries the name of the first zone, in the given order, that
/// has neither an enter nor an exit command.
pub fn validate_configs(entries: Vec<(String, CornerConfig)>) -> (r: Result<
    Vec<CornerConfig>,
    ConfigError,
>)
    ensures
        r is Ok <==> (forall|i: int|
            0 <= i < entries@.len() ==> config_has_command(#[trigger] entries@[i].1)),
        r is Ok ==> r->Ok_0@ =~= entries@.map_values(|e: (String, CornerConfig)| e.1),
        r is Err ==> exists|i: int|
            {
                &&& 0 <= i < entries@.len()
                &&& !config_has_command(#[trigger] entries@[i].1)
                &&& (forall|j: int| 0 <= j < i ==> config_has_command(#[trigger] entries@[j].1))
                &&& r->Err_0 == (ConfigError::MissingCommand { zone: entries@[i].0 })
            },
{
    let mut idx: usize = 0;
    while idx < entries.len()
        invariant
            idx <= entries@.len(),
            forall|j: int| 0 <= j < idx ==> config_has_command(#[trigger] entries@[j].1),
        decreases entries@.len() - idx,
    {
        let e = &entries[idx];
        if e.1.enter_command.len() == 0 && e.1.exit_command.len() == 0 {
            let zone = e.0.clone();
            return Err(ConfigError::MissingCommand { zone });
        }
        idx = idx + 1;
    }
    let ghost orig = entries@;
    let mut rest = entries;
    let mut out: Vec<CornerConfig> = Vec::new();
    while rest.len() > 0
        invariant
            out@.len() + rest@.len() == orig.len(),
            rest@ =~= orig.subrange(out@.len() as int, orig.len() as int),
            forall|i: int| 0 <= i < out@.len() ==> out@[i] == orig[i].1,
        decreases rest@.len(),
    {
        let e = rest.remove(0);
        out.push(e.1);
    }
    proof {
        assert(out@ =~= orig.map_values(|e: (String, CornerConfig)| e.1));
    }
    Ok(out)
}

} // verus!
