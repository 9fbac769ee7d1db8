//! Packed colours and their text forms.

use vstd::prelude::*;

verus! {

/// A colour packed into the low 24 bits of a word as `0xRRGGBB`.
///
/// The top byte carries no meaning: two colours are the same colour when their
/// three channels agree.
#[derive(Clone, Copy, Debug)]
pub struct Color(pub u32);

impl View for Color {
    type V = (u8, u8, u8);

    /// The red, green and blue channels, in that order.
    open spec fn view(&self) -> (u8, u8, u8) {
        (
            ((self.0 / 0x1_0000) % 0x100) as u8,
            ((self.0 / 0x100) % 0x100) as u8,
            (self.0 % 0x100) as u8,
        )
    }
}

/// The colour with the given channels: red in the third byte, green in the
/// second, blue in the lowest.
pub open spec fn packed(red: u8, green: u8, blue: u8) -> Color {
    Color((red * 0x1_0000 + green * 0x100 + blue) as u32)
}

impl PartialEq for Color {
    /// Compares channel by channel; the top byte is ignored.
    fn eq(&self, other: &Color) -> (equal: bool) {
        let a: u32 = self.0;
        let b: u32 = other.0;
        assert((a & 0xff_ffff) == (b & 0xff_ffff) <==> (a / 0x1_0000) % 0x100 == (b / 0x1_0000)
            % 0x100 && (a / 0x100) % 0x100 == (b / 0x100) % 0x100 && a % 0x100 == b % 0x100)
            by (bit_vector);
        (a & 0xff_ffff) == (b & 0xff_ffff)
    }
}

impl Eq for Color {

}

impl vstd::std_specs::cmp::PartialEqSpecImpl for Color {
    open spec fn obeys_eq_spec() -> bool {
        true
    }

    open spec fn eq_spec(&self, other: &Color) -> bool {
        self@ == other@
    }
}

impl Color {
    /// Packs three channels into one colour.
    pub fn pack(red: u8, green: u8, blue: u8) -> (color: Color)
        ensures
            color == packed(red, green, blue),
            color@ == (red, green, blue),
    {
        let r: u32 = red as u32;
        let g: u32 = green as u32;
        let b: u32 = blue as u32;
        Color(r * 0x1_0000 + g * 0x100 + b)
    }

    /// Splits the colour into its red, green and blue channels.
    pub fn to_rgb(&self) -> (rgb: (u8, u8, u8))
        ensures
            rgb == self@,
    {
        let word: u32 = self.0;
        assert((word >> 16) & 0xff == (word / 0x1_0000) % 0x100) by (bit_vector);
        assert((word >> 8) & 0xff == (word / 0x100) % 0x100) by (bit_vector);
        assert(word & 0xff == word % 0x100) by (bit_vector);
        let r: u8 = ((word >> 16) & 0xff) as u8;
        let g: u8 = ((word >> 8) & 0xff) as u8;
        let b: u8 = (word & 0xff) as u8;
        (r, g, b)
    }
}

/// Whether hexadecimal digits above nine are written as capitals.
#[derive(Clone, Copy, Debug, PartialEq, Eq, Structural)]
pub enum HexCase {
    Upper,
    Lower,
}

/// The sixteen hexadecimal digits in the given case, by value.
pub open spec fn hex_digits(case: HexCase) -> Seq<char> {
    match case {
        HexCase::Upper => "0123456789ABCDEF"@,
        HexCase::Lower => "0123456789abcdef"@,
    }
}

/// The hexadecimal text of a channel triple.
///
/// When every channel is below sixteen the text is `#` and one digit per
/// channel.  Otherwise it is `#` and two digits per channel, a channel below
/// sixteen getting a leading zero.
pub open spec fn hex_text(rgb: (u8, u8, u8), case: HexCase) -> Seq<char> {
    let digits = hex_digits(case);
    let (r, g, b) = rgb;
    if r < 16 && g < 16 && b < 16 {
        seq!['#', digits[r as int], digits[g as int], digits[b as int]]
    } else {
        seq![
            '#',
            digits[r as int / 16],
            digits[r as int % 16],
            digits[g as int / 16],
            digits[g as int % 16],
            digits[b as int / 16],
            digits[b as int % 16],
        ]
    }
}

/// The decimal text of a channel, without leading zeros.
pub open spec fn decimal_text(channel: u8) -> Seq<char> {
    let digits = "0123456789"@;
    let n = channel as int;
    if n < 10 {
        seq![digits[n]]
    } else if n < 100 {
        seq![digits[n / 10], digits[n % 10]]
    } else {
        seq![digits[n / 100], digits[n / 10 % 10], digits[n % 10]]
    }
}

/// The decimal text of a channel triple: the three channels separated by a
/// comma and a space.
pub open spec fn rgb_text(rgb: (u8, u8, u8)) -> Seq<char> {
    decimal_text(rgb.0) + seq![',', ' '] + decimal_text(rgb.1) + seq![',', ' '] + decimal_text(
        rgb.2,
    )
}

/// The one-character slice of `table` at `index`.
fn digit_at(table: &'static str, index: u8) -> (digit: &'static str)
    requires
        table.is_ascii(),
        index < table@.len(),
    ensures
        digit@ == seq![table@[index as int]],
{
    let at: usize = index as usize;
    let digit = table.substring_ascii(at, at + 1);
    assert(digit@ =~= seq![table@[index as int]]);
    digit
}

/// Appends the decimal text of `channel` to `text`.
fn push_decimal(text: &mut String, channel: u8)
    ensures
        final(text)@ == old(text)@ + decimal_text(channel),
{
    let digits = "0123456789";
    proof {
        reveal_strlit("0123456789");
    }
    let ghost before = text@;
    if channel >= 100 {
        text.append(digit_at(digits, channel / 100));
    }
    if channel >= 10 {
        text.append(digit_at(digits, channel / 10 % 10));
    }
    text.append(digit_at(digits, channel % 10));
    assert(text@ =~= before + decimal_text(channel));
}

impl Color {
    /// Writes the colour as `#` and hexadecimal digits in the given case:
    /// three digits when every channel is below sixteen, six otherwise.
    pub fn to_hex(&self, case: HexCase) -> (text: String)
        ensures
            text@ == hex_text(self@, case),
    {
        let (r, g, b) = self.to_rgb();
        let digits = match case {
            HexCase::Upper => "0123456789ABCDEF",
            HexCase::Lower => "0123456789abcdef",
        };
        proof {
            reveal_strlit("0123456789ABCDEF");
            reveal_strlit("0123456789abcdef");
            reveal_strlit("#");
        }
        let mut text = String::from_str("#");
        if r < 16 && g < 16 && b < 16 {
            text.append(digit_at(digits, r));
            text.append(digit_at(digits, g));
            text.append(digit_at(digits, b));
        } else {
            text.append(digit_at(digits, r / 16));
            text.append(digit_at(digits, r % 16));
            text.append(digit_at(digits, g / 16));
            text.append(digit_at(digits, g % 16));
            text.append(digit_at(digits, b / 16));
            text.append(digit_at(digits, b % 16));
        }
        assert(text@ =~= hex_text(self@, case));
        text
    }

    /// Writes the colour as its three channels in decimal, separated by a
    /// comma and a space.
    pub fn to_rgb_string(&self) -> (text: String)
        ensures
            text@ == rgb_text(self@),
    {
        let (r, g, b) = self.to_rgb();
        proof {
            reveal_strlit(", ");
        }
        let mut text = String::new();
        push_decimal(&mut text, r);
        text.append(", ");
        push_decimal(&mut text, g);
        text.append(", ");
        push_decimal(&mut text, b);
        assert(text@ =~= rgb_text(self@));
        text
    }
}

/// The text forms in which a colour can be reported.
#[derive(Clone, Copy, Debug, PartialEq, Eq, Structural)]
pub enum Format {
    /// `#` and hexadecimal digits, capitals above nine.
    UpperHex,
    /// `#` and hexadecimal digits, small letters above nine.
    LowerHex,
    /// The three channels in decimal.
    Rgb,
}

/// The error for a format name that is neither `HEX` nor `RGB`.
#[derive(Clone, Copy, Debug, PartialEq, Eq, Structural)]
pub struct InvalidFormat;

/// The capital of a small ASCII letter; every other character is itself.
pub open spec fn ascii_upper(c: char) -> char {
    if 'a' <= c && c <= 'z' {
        ((c as int) - 32) as char
    } else {
        c
    }
}

/// Whether `text` spells `word`, which is given in capitals, when the case of
/// its ASCII letters is ignored.
pub open spec fn spells(text: Seq<char>, word: Seq<char>) -> bool {
    &&& text.len() == word.len()
    &&& forall|i: int| 0 <= i < text.len() ==> ascii_upper(#[trigger] text[i]) == word[i]
}

/// The format that a name selects, if any.
///
/// `HEX` and `RGB` are recognised in any mix of cases.  A hexadecimal format
/// has small digits when its name is written in small letters throughout, and
/// capital digits otherwise.
pub open spec fn format_named(name: Seq<char>) -> Option<Format> {
    if name == "hex"@ {
        Some(Format::LowerHex)
    } else if spells(name, "HEX"@) {
        Some(Format::UpperHex)
    } else if spells(name, "RGB"@) {
        Some(Format::Rgb)
    } else {
        None
    }
}

/// The text of a channel triple in the given format.
pub open spec fn format_text(rgb: (u8, u8, u8), format: Format) -> Seq<char> {
    match format {
        Format::UpperHex => hex_text(rgb, HexCase::Upper),
        Format::LowerHex => hex_text(rgb, HexCase::Lower),
        Format::Rgb => rgb_text(rgb),
    }
}

/// Whether `c` is the capital letter `capital` or its small form `small`.
fn is_letter(c: char, capital: char, small: char) -> (same: bool)
    requires
        'A' <= capital <= 'Z',
        small as int == capital as int + 32,
    ensures
        same == (ascii_upper(c) == capital),
{
    c == capital || c == small
}

impl Format {
    /// Reads a format name, ignoring the case of its letters.
    pub fn parse(name: &str) -> (parsed: Result<Format, InvalidFormat>)
        ensures
            parsed == match format_named(name@) {
                Some(format) => Ok::<Format, InvalidFormat>(format),
                None => Err(InvalidFormat),
            },
    {
        proof {
            reveal_strlit("hex");
            reveal_strlit("HEX");
            reveal_strlit("RGB");
        }
        if name.unicode_len() != 3 {
            return Err(InvalidFormat);
        }
        let first = name.get_char(0);
        let second = name.get_char(1);
        let third = name.get_char(2);
        if first == 'h' && second == 'e' && third == 'x' {
            assert(name@ =~= "hex"@);
            Ok(Format::LowerHex)
        } else if is_letter(first, 'H', 'h') && is_letter(second, 'E', 'e') && is_letter(
            third,
            'X',
            'x',
        ) {
            Ok(Format::UpperHex)
        } else if is_letter(first, 'R', 'r') && is_letter(second, 'G', 'g') && is_letter(
            third,
            'B',
            'b',
        ) {
            Ok(Format::Rgb)
        } else {
            Err(InvalidFormat)
        }
    }

    /// Writes `color` in this format.
    pub fn render(&self, color: Color) -> (text: String)
        ensures
            text@ == format_text(color@, *self),
    {
        match self {
            Format::UpperHex => color.to_hex(HexCase::Upper),
            Format::LowerHex => color.to_hex(HexCase::Lower),
            Format::Rgb => color.to_rgb_string(),
        }
    }
}

/// Packing three channels and splitting the colour again gives the same
/// three channels.
pub proof fn lemma_pack_then_split(red: u8, green: u8, blue: u8)
    ensures
        packed(red, green, blue)@ == (red, green, blue),
{
}

/// Splitting a colour and packing its channels again gives the same colour,
/// with the top byte cleared.
pub proof fn lemma_split_then_pack(color: Color)
    ensures
        packed(color@.0, color@.1, color@.2)@ == color@,
        packed(color@.0, color@.1, color@.2).0 == color.0 % 0x100_0000,
{
}

} // verus!
