//! Stream descriptions as text.

use crate::format::Format;
use crate::wire::StreamInfo;
use vstd::prelude::*;
use vstd::string::StringExecFns;

verus! {

/// The character that stands for a digit below ten.
pub open spec fn digit(d: nat) -> char {
    if d == 0 {
        '0'
    } else if d == 1 {
        '1'
    } else if d == 2 {
        '2'
    } else if d == 3 {
        '3'
    } else if d == 4 {
        '4'
    } else if d == 5 {
        '5'
    } else if d == 6 {
        '6'
    } else if d == 7 {
        '7'
    } else if d == 8 {
        '8'
    } else {
        '9'
    }
}

/// A number written in decimal, without leading zeros.
pub open spec fn decimal(n: nat) -> Seq<char>
    decreases n,
{
    if n < 10 {
        seq![digit(n)]
    } else {
        decimal(n / 10).push(digit(n % 10))
    }
}

fn digit_text(d: u16) -> (text: &'static str)
    requires
        d < 10,
    ensures
        text@ == seq![digit(d as nat)],
{
    proof {
        reveal_strlit("0");
        reveal_strlit("1");
        reveal_strlit("2");
        reveal_strlit("3");
        reveal_strlit("4");
        reveal_strlit("5");
        reveal_strlit("6");
        reveal_strlit("7");
        reveal_strlit("8");
        reveal_strlit("9");
    }
    match d {
        0 => "0",
        1 => "1",
        2 => "2",
        3 => "3",
        4 => "4",
        5 => "5",
        6 => "6",
        7 => "7",
        8 => "8",
        _ => "9",
    }
}

pub(crate) fn push_decimal(text: &mut String, n: u16)
    ensures
        final(text)@ == old(text)@ + decimal(n as nat),
    decreases n,
{
    if n >= 10 {
        push_decimal(text, n / 10);
    }
    text.append(digit_text(n % 10));
}

impl Format {
    /// The name of the format as it is written in texts.
    pub open spec fn name(self) -> Seq<char> {
        match self {
            Format::Luma8 => "Luma8"@,
            Format::Luma16 => "Luma16"@,
            Format::LumaA8 => "LumaA8"@,
            Format::LumaA16 => "LumaA16"@,
            Format::Rgb8 => "Rgb8"@,
            Format::Rgb16 => "Rgb16"@,
            Format::Rgba8 => "Rgba8"@,
            Format::Rgba16 => "Rgba16"@,
            Format::MJpeg => "MJpeg"@,
        }
    }

    /// The name of the format.
    pub fn as_str(self) -> (name: &'static str)
        ensures
            name@ == self.name(),
    {
        match self {
            Format::Luma8 => "Luma8",
            Format::Luma16 => "Luma16",
            Format::LumaA8 => "LumaA8",
            Format::LumaA16 => "LumaA16",
            Format::Rgb8 => "Rgb8",
            Format::Rgb16 => "Rgb16",
            Format::Rgba8 => "Rgba8",
            Format::Rgba16 => "Rgba16",
            Format::MJpeg => "MJpeg",
        }
    }
}

impl StreamInfo {
    /// The description as one line of text: id, width by height, format.
    pub open spec fn text(self) -> Seq<char> {
        "#"@ + decimal(self.id as nat) + ", WxH: "@ + decimal(self.width as nat) + "x"@ + decimal(
            self.height as nat,
        ) + ", Fmt: "@ + self.format.name()
    }

    /// Writes the description as one line of text, such as
    /// `#0, WxH: 640x480, Fmt: Rgb8`.
    pub fn to_string(&self) -> (text: String)
        ensures
            text@ == self.text(),
    {
        let mut text = String::new();
        text.append("#");
        push_decimal(&mut text, self.id);
        text.append(", WxH: ");
        push_decimal(&mut text, self.width);
        text.append("x");
        push_decimal(&mut text, self.height);
        text.append(", Fmt: ");
        text.append(self.format.as_str());
        text
    }
}

} // verus!
