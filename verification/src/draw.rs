//! The drawing requests that scripts may make, checked at the boundary.
//!
//! Each request is checked and, if it passes, turned into a `DrawCommand`
//! for the host to carry out. A request that fails its checks yields a
//! `Rejection` and no command: nothing is drawn, and the script is not
//! disturbed.

use vstd::prelude::*;

verus! {

/// A colour of four byte channels.
#[derive(Clone, Copy, Debug, PartialEq, Eq, Structural)]
pub struct Color {
    pub r: u8,
    pub g: u8,
    pub b: u8,
    pub a: u8,
}

/// A real number as a script gave it, kept as the bit pattern of its
/// double-precision form and handed to the host unchanged.
#[derive(Clone, Copy, Debug, PartialEq, Eq, Structural)]
pub struct Scalar {
    pub bits: u64,
}

/// Why a drawing request was turned down.
#[derive(Clone, Copy, Debug, PartialEq, Eq, Structural)]
pub enum Rejection {
    /// The text to draw is empty.
    EmptyText,
    /// The font size is below zero.
    NegativeFontSize { size: i64 },
    /// The colour does not have four channels.
    ColorLength { length: usize },
    /// The channel at `index` is no integer from 0 to 255.
    ColorChannel { index: usize },
}

/// What the host is asked to draw.
#[derive(Clone, Debug, PartialEq, Eq)]
pub enum DrawCommand {
    /// Paint the whole frame in one colour.
    Clear { color: Color },
    /// Draw a filled circle.
    Circle { x: Scalar, y: Scalar, radius: Scalar, color: Color },
    /// Draw text with its baseline starting at (`x`, `y`).
    Text { text: String, x: Scalar, y: Scalar, font_size: u64, color: Color },
}

/// What a drawing request comes to, as a value that contracts can speak of.
pub enum Drawing {
    Clear { color: Color },
    Circle { x: Scalar, y: Scalar, radius: Scalar, color: Color },
    Text { text: Seq<char>, x: Scalar, y: Scalar, font_size: u64, color: Color },
}

impl View for DrawCommand {
    type V = Drawing;

    open spec fn view(&self) -> Drawing {
        match *self {
            DrawCommand::Clear { color } => Drawing::Clear { color },
            DrawCommand::Circle { x, y, radius, color } => Drawing::Circle { x, y, radius, color },
            DrawCommand::Text { text, x, y, font_size, color } => Drawing::Text {
                text: text@,
                x,
                y,
                font_size,
                color,
            },
        }
    }
}

/// Whether a channel, as a script gave it, is an integer from 0 to 255.
/// `None` stands for an element that is no integer at all.
pub open spec fn is_byte(channel: Option<i64>) -> bool {
    channel matches Some(value) && 0 <= value <= 255
}

/// The outcome of checking a colour given as a sequence of channels: it has
/// to have four channels, each an integer from 0 to 255. Of several
/// failings the length is reported first, then the first channel at fault.
pub open spec fn checked_color(channels: Seq<Option<i64>>) -> Result<Color, Rejection> {
    if channels.len() != 4 {
        Err(Rejection::ColorLength { length: channels.len() as usize })
    } else if !is_byte(channels[0]) {
        Err(Rejection::ColorChannel { index: 0 })
    } else if !is_byte(channels[1]) {
        Err(Rejection::ColorChannel { index: 1 })
    } else if !is_byte(channels[2]) {
        Err(Rejection::ColorChannel { index: 2 })
    } else if !is_byte(channels[3]) {
        Err(Rejection::ColorChannel { index: 3 })
    } else {
        Ok(
            Color {
                r: channels[0]->0 as u8,
                g: channels[1]->0 as u8,
                b: channels[2]->0 as u8,
                a: channels[3]->0 as u8,
            },
        )
    }
}

/// The outcome of a request to paint the frame.
pub open spec fn checked_clear(channels: Seq<Option<i64>>) -> Result<Drawing, Rejection> {
    match checked_color(channels) {
        Ok(color) => Ok(Drawing::Clear { color }),
        Err(why) => Err(why),
    }
}

/// The outcome of a request to draw a circle. Centre and radius are taken
/// as they come.
pub open spec fn checked_circle(
    x: Scalar,
    y: Scalar,
    radius: Scalar,
    channels: Seq<Option<i64>>,
) -> Result<Drawing, Rejection> {
    match checked_color(channels) {
        Ok(color) => Ok(Drawing::Circle { x, y, radius, color }),
        Err(why) => Err(why),
    }
}

/// The outcome of a request to draw text: the text must not be empty, the
/// font size not below zero, and the colour must pass its own check. The
/// first of these to fail, in this order, is the one reported.
pub open spec fn checked_text(
    text: Seq<char>,
    x: Scalar,
    y: Scalar,
    font_size: i64,
    channels: Seq<Option<i64>>,
) -> Result<Drawing, Rejection> {
    if text.len() == 0 {
        Err(Rejection::EmptyText)
    } else if font_size < 0 {
        Err(Rejection::NegativeFontSize { size: font_size })
    } else {
        match checked_color(channels) {
            Ok(color) => Ok(Drawing::Text { text, x, y, font_size: font_size as u64, color }),
            Err(why) => Err(why),
        }
    }
}

/// A request's outcome with the command, if there is one, taken by its view.
pub open spec fn outcome_of(made: Result<DrawCommand, Rejection>) -> Result<Drawing, Rejection> {
    match made {
        Ok(command) => Ok(command@),
        Err(why) => Err(why),
    }
}

/// Reads one channel, if it is an integer from 0 to 255.
fn byte_of(channel: Option<i64>) -> (byte: Option<u8>)
    ensures
        byte is Some <==> is_byte(channel),
        byte matches Some(value) ==> value == channel->0,
{
    match channel {
        Some(value) => {
            if 0 <= value && value <= 255 {
                Some(value as u8)
            } else {
                None
            }
        },
        None => None,
    }
}

/// Checks a colour given as a sequence of channels.
pub fn color_from_channels(channels: &Vec<Option<i64>>) -> (made: Result<Color, Rejection>)
    ensures
        made == checked_color(channels@),
        channels@.len() != 4 ==> made is Err,
{
    if channels.len() != 4 {
        return Err(Rejection::ColorLength { length: channels.len() });
    }
    let r: u8 = match byte_of(channels[0]) {
        Some(value) => value,
        None => {
            return Err(Rejection::ColorChannel { index: 0 });
        },
    };
    let g: u8 = match byte_of(channels[1]) {
        Some(value) => value,
        None => {
            return Err(Rejection::ColorChannel { index: 1 });
        },
    };
    let b: u8 = match byte_of(channels[2]) {
        Some(value) => value,
        None => {
            return Err(Rejection::ColorChannel { index: 2 });
        },
    };
    let a: u8 = match byte_of(channels[3]) {
        Some(value) => value,
        None => {
            return Err(Rejection::ColorChannel { index: 3 });
        },
    };
    Ok(Color { r, g, b, a })
}

/// A script asks for the whole frame to be painted in one colour.
///
/// A colour that does not have four channels, or has one that is no byte,
/// yields no command.
pub fn clear_background(channels: &Vec<Option<i64>>) -> (made: Result<DrawCommand, Rejection>)
    ensures
        outcome_of(made) == checked_clear(channels@),
        channels@.len() != 4 ==> made is Err,
{
    match color_from_channels(channels) {
        Ok(color) => Ok(DrawCommand::Clear { color }),
        Err(why) => Err(why),
    }
}

/// A script asks for a filled circle. Centre and radius are not checked;
/// what a negative radius means is the host's affair.
///
/// A colour that does not have four channels, or has one that is no byte,
/// yields no command.
pub fn draw_circle(x: Scalar, y: Scalar, radius: Scalar, channels: &Vec<Option<i64>>) -> (made:
    Result<DrawCommand, Rejection>)
    ensures
        outcome_of(made) == checked_circle(x, y, radius, channels@),
        channels@.len() != 4 ==> made is Err,
{
    match color_from_channels(channels) {
        Ok(color) => Ok(DrawCommand::Circle { x, y, radius, color }),
        Err(why) => Err(why),
    }
}

/// A script asks for text to be drawn.
///
/// Empty text, a font size below zero, or a colour that does not have four
/// channels or has one that is no byte, yields no command.
pub fn draw_text(text: &str, x: Scalar, y: Scalar, font_size: i64, channels: &Vec<Option<i64>>) -> (made:
    Result<DrawCommand, Rejection>)
    ensures
        outcome_of(made) == checked_text(text@, x, y, font_size, channels@),
        channels@.len() != 4 ==> made is Err,
{
    if text.is_empty() {
        return Err(Rejection::EmptyText);
    }
    if font_size < 0 {
        return Err(Rejection::NegativeFontSize { size: font_size });
    }
    match color_from_channels(channels) {
        Ok(color) => Ok(
            DrawCommand::Text { text: text.to_owned(), x, y, font_size: font_size as u64, color },
        ),
        Err(why) => Err(why),
    }
}

} // verus!
