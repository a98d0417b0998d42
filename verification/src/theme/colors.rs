//! Colours, and the `#RRGGBB` notation they are configured in.

use crate::config::document::{ColorTable, ColorTableView};
use vstd::prelude::*;

verus! {

/// A colour of the theme: one of the named terminal colours that serve as
/// defaults, or an explicit red/green/blue triple.
#[derive(Debug, Clone, Copy, PartialEq, Eq, Structural)]
pub enum Color {
    White,
    Green,
    Grey,
    Red,
    Yellow,
    Rgb { r: u8, g: u8, b: u8 },
}

/// Whether `c` is one of `0-9`, `a-f`, `A-F`.
pub open spec fn is_hex_digit(c: char) -> bool {
    ('0' <= c && c <= '9') || ('a' <= c && c <= 'f') || ('A' <= c && c <= 'F')
}

/// The number that the hexadecimal digit `c` stands for.
pub open spec fn hex_value(c: char) -> int {
    if '0' <= c && c <= '9' {
        c as int - '0' as int
    } else if 'a' <= c && c <= 'f' {
        c as int - 'a' as int + 10
    } else {
        c as int - 'A' as int + 10
    }
}

/// Reads one hexadecimal digit.
pub fn hex_digit(c: char) -> (digit: Option<u8>)
    ensures
        digit == (if is_hex_digit(c) { Some(hex_value(c) as u8) } else { None::<u8> }),
        digit matches Some(d) ==> d < 16,
{
    if '0' <= c && c <= '9' {
        Some((c as u32 - '0' as u32) as u8)
    } else if 'a' <= c && c <= 'f' {
        Some((c as u32 - 'a' as u32 + 10) as u8)
    } else if 'A' <= c && c <= 'F' {
        Some((c as u32 - 'A' as u32 + 10) as u8)
    } else {
        None
    }
}

/// The byte written by the two hexadecimal digits of `text` at `at` and
/// `at + 1`, the first digit counting sixteen times.
pub open spec fn channel(text: Seq<char>, at: int) -> int {
    16 * hex_value(text[at]) + hex_value(text[at + 1])
}

/// The shape rule of a colour: exactly seven characters, a `#` and then six
/// hexadecimal digits in either case.
pub open spec fn is_hex_color(text: Seq<char>) -> bool {
    &&& text.len() == 7
    &&& text[0] == '#'
    &&& forall|i: int| 1 <= i < 7 ==> is_hex_digit(#[trigger] text[i])
}

/// The colour that `text` denotes: the triple of its three digit pairs where
/// `text` has the shape of a colour, and none otherwise.
pub open spec fn hex_color(text: Seq<char>) -> Option<Color> {
    if is_hex_color(text) {
        Some(
            Color::Rgb {
                r: channel(text, 1) as u8,
                g: channel(text, 3) as u8,
                b: channel(text, 5) as u8,
            },
        )
    } else {
        None
    }
}

/// Reads the two hexadecimal digits of `hex` at `at` and `at + 1` as a byte.
fn hex_pair(hex: &str, at: usize) -> (byte: Option<u8>)
    requires
        at + 1 < hex@.len(),
        at < usize::MAX,
    ensures
        byte == (if is_hex_digit(hex@[at as int]) && is_hex_digit(hex@[at + 1]) {
            Some(channel(hex@, at as int) as u8)
        } else {
            None::<u8>
        }),
        byte is Some ==> 0 <= channel(hex@, at as int) < 256,
{
    let high = hex_digit(hex.get_char(at))?;
    let low = hex_digit(hex.get_char(at + 1))?;
    Some(16 * high + low)
}

/// Reads a colour written as `#RRGGBB`.
///
/// The result is the colour's triple exactly when `hex` follows the shape
/// rule; a string of any other shape gives `None`.
pub fn hex_to_rgb(hex: &str) -> (color: Option<Color>)
    ensures
        color == hex_color(hex@),
{
    if hex.unicode_len() != 7 {
        return None;
    }
    if hex.get_char(0) != '#' {
        return None;
    }
    let r = hex_pair(hex, 1)?;
    let g = hex_pair(hex, 3)?;
    let b = hex_pair(hex, 5)?;
    Some(Color::Rgb { r, g, b })
}

/// The resolved theme: a colour for each of the six slots. Every slot but
/// the background always has a colour; a background of `None` leaves the
/// terminal's own background in place.
#[derive(Debug, Clone, Copy, PartialEq, Eq, Structural)]
pub struct ThemeColors {
    pub fg: Color,
    pub bg: Option<Color>,
    pub typed: Color,
    pub missing: Color,
    pub error: Color,
    pub accent: Color,
}

/// The colour that a field of the table gives, if it gives one: the field
/// must be present and follow the shape rule.
pub open spec fn slot(field: Option<Seq<char>>) -> Option<Color> {
    match field {
        Some(text) => hex_color(text),
        None => None,
    }
}

/// The colour of a slot that cannot stay empty: the field's colour, or
/// `fallback` where the field gives none.
pub open spec fn slot_or(field: Option<Seq<char>>, fallback: Color) -> Color {
    match slot(field) {
        Some(color) => color,
        None => fallback,
    }
}

/// The theme in which every slot has its default.
pub open spec fn default_theme() -> ThemeColors {
    ThemeColors {
        fg: Color::White,
        bg: None,
        typed: Color::Green,
        missing: Color::Grey,
        error: Color::Red,
        accent: Color::Yellow,
    }
}

/// The theme that a `colors` section resolves to, field by field.
pub open spec fn theme_of(table: ColorTableView) -> ThemeColors {
    ThemeColors {
        fg: slot_or(table.fg, Color::White),
        bg: slot(table.bg),
        typed: slot_or(table.typed, Color::Green),
        missing: slot_or(table.missing, Color::Grey),
        error: slot_or(table.error, Color::Red),
        accent: slot_or(table.accent, Color::Yellow),
    }
}

/// The theme that an optional `colors` section resolves to.
pub open spec fn resolved_theme(colors: Option<ColorTableView>) -> ThemeColors {
    match colors {
        Some(table) => theme_of(table),
        None => default_theme(),
    }
}

/// Resolves one field of the table.
fn resolve_slot(field: &Option<String>) -> (color: Option<Color>)
    ensures
        color == slot(field.deep_view()),
{
    match field {
        Some(text) => hex_to_rgb(text.as_str()),
        None => None,
    }
}

/// Resolves one field of the table for a slot that cannot stay empty.
fn resolve_slot_or(field: &Option<String>, fallback: Color) -> (color: Color)
    ensures
        color == slot_or(field.deep_view(), fallback),
{
    match resolve_slot(field) {
        Some(color) => color,
        None => fallback,
    }
}

impl ThemeColors {
    /// Resolves the theme from the `colors` section of the configuration.
    ///
    /// Each field that is present and follows the shape rule sets its slot;
    /// every other slot takes its default. An absent section gives the
    /// default theme.
    pub fn new(colors: Option<ColorTable>) -> (theme: ThemeColors)
        ensures
            theme == resolved_theme(colors.deep_view()),
    {
        match colors {
            Some(table) => ThemeColors {
                fg: resolve_slot_or(&table.fg, Color::White),
                bg: resolve_slot(&table.bg),
                typed: resolve_slot_or(&table.typed, Color::Green),
                missing: resolve_slot_or(&table.missing, Color::Grey),
                error: resolve_slot_or(&table.error, Color::Red),
                accent: resolve_slot_or(&table.accent, Color::Yellow),
            },
            None => ThemeColors::default(),
        }
    }
}

impl Default for ThemeColors {
    /// White text, green for what was typed, grey for what is still
    /// missing, red for errors, yellow accents, and no background.
    fn default() -> (theme: ThemeColors)
        ensures
            theme == default_theme(),
    {
        ThemeColors {
            fg: Color::White,
            bg: None,
            typed: Color::Green,
            missing: Color::Grey,
            error: Color::Red,
            accent: Color::Yellow,
        }
    }
}

/// The section in which no field is set.
pub open spec fn empty_table() -> ColorTableView {
    ColorTableView { fg: None, bg: None, typed: None, missing: None, error: None, accent: None }
}

/// Two hexadecimal digits always write a byte, so no triple is cut short.
pub proof fn lemma_channel_is_byte(text: Seq<char>, at: int)
    requires
        is_hex_digit(text[at]),
        is_hex_digit(text[at + 1]),
    ensures
        0 <= channel(text, at) < 256,
{
}

/// A string that follows the shape rule denotes exactly the triple that its
/// three digit pairs write, in either case of the letters, and a field that
/// holds it sets its slot to that triple.
pub proof fn lemma_valid_color_is_exact(text: Seq<char>, fallback: Color)
    requires
        is_hex_color(text),
    ensures
        hex_color(text) matches Some(Color::Rgb { r, g, b }) && r == 16 * hex_value(text[1])
            + hex_value(text[2]) && g == 16 * hex_value(text[3]) + hex_value(text[4]) && b == 16
            * hex_value(text[5]) + hex_value(text[6]),
        slot(Some(text)) == hex_color(text),
        slot_or(Some(text), fallback) == hex_color(text)->0,
{
    lemma_channel_is_byte(text, 1);
    lemma_channel_is_byte(text, 3);
    lemma_channel_is_byte(text, 5);
}

/// A string that breaks the shape rule denotes no colour, and a field that
/// holds it leaves its slot at the default.
pub proof fn lemma_invalid_color_defaults(text: Seq<char>, fallback: Color)
    requires
        !is_hex_color(text),
    ensures
        hex_color(text) is None,
        slot(Some(text)) is None,
        slot_or(Some(text), fallback) == fallback,
{
}

/// A string breaks the shape rule as soon as its length is not seven, its
/// first character is not `#`, or one of the other six is no hexadecimal
/// digit.
pub proof fn lemma_shape_violations(text: Seq<char>, at: int)
    ensures
        text.len() != 7 ==> !is_hex_color(text),
        text.len() > 0 && text[0] != '#' ==> !is_hex_color(text),
        1 <= at < 7 && !is_hex_digit(text[at]) ==> !is_hex_color(text),
{
}

/// An absent `colors` section and one in which no field is set resolve to
/// the same theme, the default one.
pub proof fn lemma_empty_table_is_absent()
    ensures
        resolved_theme(Some(empty_table())) == resolved_theme(None),
        resolved_theme(None) == default_theme(),
{
}

} // verus!
