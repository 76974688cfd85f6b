//! Configuration values that the tiling system reads.
//!
//! These are the parts of the user configuration that the tiling logic
//! depends on: layout kinds, animation easing, border colors and the border
//! section.
//! Colors are held as 8-bit channels, which is the precision of every hex
//! color that a configuration can spell.

use vstd::prelude::*;

use crate::search::{first_index, position_first};
use crate::text::{eq_ignore_ascii_case, eq_ignore_case};

verus! {

/// Animation easing curves.
#[derive(Debug, Clone, Copy, PartialEq, Eq, Structural)]
pub enum EasingType {
    /// Constant speed.
    Linear,
    /// Slow start.
    EaseIn,
    /// Slow end.
    EaseOut,
    /// Slow start and end.
    EaseInOut,
    /// Physics-based spring.
    Spring,
}

/// How the windows of a workspace are arranged.
#[derive(Debug, Clone, Copy, PartialEq, Eq, Structural)]
pub enum LayoutType {
    /// Recursive binary splits that alternate direction.
    Dwindle,
    /// One window fills the workspace.
    Monocle,
    /// Equal splits along the longer side.
    Split,
    /// Equal splits stacked vertically.
    SplitVertical,
    /// Equal splits side by side.
    SplitHorizontal,
    /// A master area beside a stack.
    Master,
    /// A grid of cells.
    Grid,
    /// Windows are not tiled.
    Floating,
}

/// A workspace of the configuration.
#[derive(Debug, Clone)]
pub struct WorkspaceConfig {
    /// Name of the workspace.
    pub name: String,
    /// The screen it belongs on ("main", "secondary", a display name).
    pub screen: String,
    /// Its layout.
    pub layout: LayoutType,
}

/// An RGBA color with 8-bit channels.
#[derive(Debug, Clone, Copy, PartialEq, Eq, Structural)]
pub struct Rgba {
    /// Red channel.
    pub r: u8,
    /// Green channel.
    pub g: u8,
    /// Blue channel.
    pub b: u8,
    /// Alpha channel.
    pub a: u8,
}

/// The value of a hexadecimal digit character.
pub open spec fn hex_digit_value(c: char) -> Option<int> {
    if '0' <= c && c <= '9' {
        Some(c as int - 48)
    } else if 'a' <= c && c <= 'f' {
        Some(c as int - 87)
    } else if 'A' <= c && c <= 'F' {
        Some(c as int - 55)
    } else {
        None
    }
}

/// The digits of a hex color: the text after an optional leading `#`.
pub open spec fn hex_color_digits(s: Seq<char>) -> Seq<char> {
    if s.len() > 0 && s[0] == '#' {
        s.drop_first()
    } else {
        s
    }
}

/// Whether every character of `d` is a hexadecimal digit.
pub open spec fn all_hex_digits(d: Seq<char>) -> bool {
    forall|i: int| 0 <= i < d.len() ==> (#[trigger] hex_digit_value(d[i])) is Some
}

/// The value of the hexadecimal digit at position `i` of `d`.
pub open spec fn digit_at(d: Seq<char>, i: int) -> int {
    hex_digit_value(d[i])->0
}

/// The byte spelled by the two hexadecimal digits at `i` and `i + 1`.
pub open spec fn byte_at(d: Seq<char>, i: int) -> u8 {
    (digit_at(d, i) * 16 + digit_at(d, i + 1)) as u8
}

/// The color that a hex color string denotes.
///
/// Accepted forms, each with an optional leading `#`: `RGB` (each digit
/// doubled, opaque), `RRGGBB` (opaque) and `RRGGBBAA`.
pub open spec fn parse_hex_color_spec(s: Seq<char>) -> Option<Rgba> {
    let d = hex_color_digits(s);
    if !all_hex_digits(d) {
        None
    } else if d.len() == 3 {
        Some(
            Rgba {
                r: (digit_at(d, 0) * 17) as u8,
                g: (digit_at(d, 1) * 17) as u8,
                b: (digit_at(d, 2) * 17) as u8,
                a: 255,
            },
        )
    } else if d.len() == 6 {
        Some(Rgba { r: byte_at(d, 0), g: byte_at(d, 2), b: byte_at(d, 4), a: 255 })
    } else if d.len() == 8 {
        Some(Rgba { r: byte_at(d, 0), g: byte_at(d, 2), b: byte_at(d, 4), a: byte_at(d, 6) })
    } else {
        None
    }
}

/// The value of one hexadecimal digit character.
fn hex_digit(c: char) -> (r: Option<u8>)
    ensures
        r matches Some(v) ==> hex_digit_value(c) == Some(v as int),
        r is None ==> hex_digit_value(c) is None,
{
    if '0' <= c && c <= '9' {
        Some((c as u32 - 48) as u8)
    } else if 'a' <= c && c <= 'f' {
        Some((c as u32 - 87) as u8)
    } else if 'A' <= c && c <= 'F' {
        Some((c as u32 - 55) as u8)
    } else {
        None
    }
}

/// Parses a hex color string (`#RGB`, `#RRGGBB` or `#RRGGBBAA`).
pub fn parse_hex_color(hex: &str) -> (r: Option<Rgba>)
    ensures
        r == parse_hex_color_spec(hex@),
{
    let len = hex.unicode_len();
    let start: usize = if len > 0 && hex.get_char(0) == '#' {
        1
    } else {
        0
    };
    let ghost d = hex_color_digits(hex@);
    assert(d =~= hex@.subrange(start as int, len as int));
    let mut digits: Vec<u8> = Vec::new();
    let mut i = start;
    while i < len
        invariant
            start <= i <= len,
            len == hex@.len(),
            d == hex@.subrange(start as int, len as int),
            d == hex_color_digits(hex@),
            digits.len() == i - start,
            forall|j: int|
                0 <= j < digits.len() ==> hex_digit_value(d[j]) == Some(#[trigger] digits[j] as int),
        decreases len - i,
    {
        let c = hex.get_char(i);
        assert(d[i - start] == c);
        match hex_digit(c) {
            Some(v) => {
                digits.push(v);
            },
            None => {
                assert(!all_hex_digits(d)) by {
                    assert(hex_digit_value(d[i - start]) is None);
                }
                return None;
            },
        }
        i = i + 1;
    }
    assert forall|j: int| 0 <= j < d.len() implies (#[trigger] hex_digit_value(d[j])) is Some by {
        assert(hex_digit_value(d[j]) == Some(digits[j] as int));
    }
    let n = digits.len();
    if n == 3 {
        Some(Rgba { r: digits[0] * 17, g: digits[1] * 17, b: digits[2] * 17, a: 255 })
    } else if n == 6 {
        Some(
            Rgba {
                r: digits[0] * 16 + digits[1],
                g: digits[2] * 16 + digits[3],
                b: digits[4] * 16 + digits[5],
                a: 255,
            },
        )
    } else if n == 8 {
        Some(
            Rgba {
                r: digits[0] * 16 + digits[1],
                g: digits[2] * 16 + digits[3],
                b: digits[4] * 16 + digits[5],
                a: digits[6] * 16 + digits[7],
            },
        )
    } else {
        None
    }
}

/// A border color as configured: solid, gradient or glow.
#[derive(Debug, Clone)]
pub enum BorderColor {
    /// A single hex color.
    Solid(String),
    /// A two-color gradient with an optional angle.
    Gradient {
        /// Start color (hex).
        from: String,
        /// End color (hex).
        to: String,
        /// Gradient angle in degrees, rounded down to a whole degree (135
        /// when absent). The direction depends only on the quarter turn the
        /// angle lies in, and every quarter turn starts at a whole degree, so
        /// a fractional angle such as 44.5 is given as 44 and -0.5 as -1.
        angle: Option<i64>,
    },
    /// A glow effect in a hex color.
    Glow(String),
}

/// A rule that matches windows by their owning application or title.
#[derive(Debug, Clone, Default)]
pub struct WindowRule {
    /// Bundle identifier to match.
    pub app_id: Option<String>,
    /// Application name to match.
    pub app_name: Option<String>,
    /// Window title to match.
    pub title: Option<String>,
}

/// The border section of the configuration.
#[derive(Debug, Clone, Default)]
pub struct BordersConfig {
    /// Whether borders are rendered.
    pub enabled: bool,
    /// Windows that never get a border.
    pub ignore: Vec<WindowRule>,
}

} // verus!

verus! {

/// The three-digit form of a color means each digit doubled.
pub proof fn law_short_hex_expands(a: char, b: char, c: char)
    ensures
        parse_hex_color_spec(seq!['#', a, b, c]) == parse_hex_color_spec(
            seq!['#', a, a, b, b, c, c],
        ),
{
    let s = seq!['#', a, b, c];
    let l = seq!['#', a, a, b, b, c, c];
    let d = hex_color_digits(s);
    let e = hex_color_digits(l);
    assert(d =~= seq![a, b, c]);
    assert(e =~= seq![a, a, b, b, c, c]);
    if all_hex_digits(d) {
        assert(hex_digit_value(a) is Some);
        assert(hex_digit_value(b) is Some);
        assert(hex_digit_value(c) is Some);
        assert(all_hex_digits(e)) by {
            assert forall|i: int| 0 <= i < e.len() implies (#[trigger] hex_digit_value(e[i])) is Some by {
                assert(e[i] == a || e[i] == b || e[i] == c);
            }
        }
        assert(digit_at(d, 0) * 17 == digit_at(e, 0) * 16 + digit_at(e, 1));
        assert(digit_at(d, 1) * 17 == digit_at(e, 2) * 16 + digit_at(e, 3));
        assert(digit_at(d, 2) * 17 == digit_at(e, 4) * 16 + digit_at(e, 5));
    } else {
        let i = choose|i: int| 0 <= i < d.len() && !(#[trigger] hex_digit_value(d[i]) is Some);
        assert(!all_hex_digits(e)) by {
            assert(d[i] == e[2 * i]);
            assert(!(hex_digit_value(e[2 * i]) is Some));
        }
    }
}

/// A color with an alpha channel keeps all four channels as written.
pub proof fn law_long_hex_channels(s: Seq<char>)
    requires
        parse_hex_color_spec(s) is Some,
        hex_color_digits(s).len() == 8,
    ensures
        parse_hex_color_spec(s)->0.a == byte_at(hex_color_digits(s), 6),
        parse_hex_color_spec(s)->0.r == byte_at(hex_color_digits(s), 0),
{
}

/// Whether a per-screen gaps entry for screen `entry` applies to screen
/// `screen_name`: the names are equal up to ASCII case, or the entry is
/// "main" and the screen is the main one, or "secondary" and it is not.
pub open spec fn gaps_entry_applies(entry: Seq<char>, screen_name: Seq<char>, is_main_screen: bool) -> bool {
    ||| eq_ignore_case(entry, screen_name)
    ||| eq_ignore_case(entry, "main"@) && is_main_screen
    ||| eq_ignore_case(entry, "secondary"@) && !is_main_screen
}

/// Per-screen gaps entries that apply to a screen.
pub open spec fn gaps_entry_for(screen_name: Seq<char>, is_main_screen: bool) -> spec_fn(String) -> bool {
    |e: String| gaps_entry_applies(e@, screen_name, is_main_screen)
}

/// The per-screen gaps entry that a screen uses: the first that applies to
/// it, else the first entry; `None` without entries (the default gaps).
pub open spec fn gaps_entry_choice(entries: Seq<String>, screen_name: Seq<char>, is_main_screen: bool) -> Option<
    int,
> {
    match first_index(entries, gaps_entry_for(screen_name, is_main_screen)) {
        Some(i) => Some(i),
        None => if entries.len() > 0 {
            Some(0)
        } else {
            None
        },
    }
}

/// Chooses, among per-screen gaps entries given by their screen names, the
/// one that screen `screen_name` uses, as `gaps_entry_choice` describes.
pub fn choose_gaps_entry(entries: &Vec<String>, screen_name: &str, is_main_screen: bool) -> (r: Option<
    usize,
>)
    ensures
        match gaps_entry_choice(entries@, screen_name@, is_main_screen) {
            Some(i) => r == Some(i as usize),
            None => r is None,
        },
{
    let f = |e: &String| -> (b: bool)
        ensures
            b == gaps_entry_applies(e@, screen_name@, is_main_screen),
        {
            let b = eq_ignore_ascii_case(e.as_str(), screen_name) || (eq_ignore_ascii_case(
                e.as_str(),
                "main",
            ) && is_main_screen) || (eq_ignore_ascii_case(e.as_str(), "secondary") && !is_main_screen);
            b
        };
    match position_first(entries, &f, Ghost(gaps_entry_for(screen_name@, is_main_screen))) {
        Some(i) => Some(i),
        None => if entries.len() > 0 {
            Some(0)
        } else {
            None
        },
    }
}

} // verus!
