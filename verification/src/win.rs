//! Values as the platform hands them over, and what they mean.

use vstd::prelude::*;

use crate::color::Color;

verus! {

/// The status code that reports success.
pub const S_OK: i32 = 0;

/// The value a pixel read yields when it could not read the pixel.
pub const CLR_INVALID: u32 = 0xFFFF_FFFF;

/// The identifier of the pointer event "primary button pressed".
pub const WM_LBUTTONDOWN: u32 = 0x0201;

/// What a hook procedure returns for an event that it keeps to itself.
pub const CONSUMED: isize = -1;

/// Turns a status code into a result: success for `S_OK`, the code itself as
/// the error for every other value.
pub fn hr(code: i32) -> (outcome: Result<(), i32>)
    ensures
        outcome == if code == S_OK {
            Ok::<(), i32>(())
        } else {
            Err(code)
        },
{
    if code == S_OK {
        Ok(())
    } else {
        Err(code)
    }
}

/// The error for a pixel that could not be read.
#[derive(Clone, Copy, Debug, PartialEq, Eq, Structural)]
pub struct SampleUnavailable;

/// The colour that a pixel read stands for.
///
/// A pixel read carries red in its lowest byte, green in the next and blue in
/// the third; its top byte is dropped.
pub open spec fn pixel_color(pixel: u32) -> Color {
    Color(
        ((pixel % 0x100) * 0x1_0000 + (pixel / 0x100 % 0x100) * 0x100 + pixel / 0x1_0000
            % 0x100) as u32,
    )
}

/// Turns the word that a pixel read gave into a colour, or into
/// `SampleUnavailable` when the word says that the read failed.
pub fn color_at(pixel: u32) -> (sample: Result<Color, SampleUnavailable>)
    ensures
        sample == if pixel == CLR_INVALID {
            Err::<Color, SampleUnavailable>(SampleUnavailable)
        } else {
            Ok(pixel_color(pixel))
        },
        sample matches Ok(color) ==> color@ == (
            (pixel % 0x100) as u8,
            (pixel / 0x100 % 0x100) as u8,
            (pixel / 0x1_0000 % 0x100) as u8,
        ),
{
    if pixel == CLR_INVALID {
        return Err(SampleUnavailable);
    }
    assert(((pixel & 0xff) << 16) | (pixel & 0xff00) | ((pixel >> 16) & 0xff) == (pixel % 0x100)
        * 0x1_0000 + (pixel / 0x100 % 0x100) * 0x100 + pixel / 0x1_0000 % 0x100) by (bit_vector);
    Ok(Color(((pixel & 0xff) << 16) | (pixel & 0xff00) | ((pixel >> 16) & 0xff)))
}

/// What a pointer hook does with one event.
#[derive(Clone, Copy, Debug, PartialEq, Eq, Structural)]
pub enum HookReply {
    /// Hand the event to the next hook with exactly these arguments, and
    /// return what that hook returns.
    Forward { code: i32, w_param: usize, l_param: isize },
    /// Keep the event from every other hook and from the window under the
    /// pointer: return `result` without calling the next hook.
    Consume { result: isize },
}

/// Whether a hook event is the confirming click: an event that the hook is
/// meant to process (`code` is not negative) and whose identifier, the low 32
/// bits of `w_param`, is `WM_LBUTTONDOWN`.
pub open spec fn is_confirming_click(code: i32, w_param: usize) -> bool {
    code >= 0 && w_param as int % 0x1_0000_0000 == WM_LBUTTONDOWN
}

/// Decides what the pointer hook does with an event: the confirming click is
/// consumed, everything else goes on to the next hook unchanged.
pub fn low_mouse_proc(code: i32, w_param: usize, l_param: isize) -> (reply: HookReply)
    ensures
        reply == if is_confirming_click(code, w_param) {
            HookReply::Consume { result: CONSUMED }
        } else {
            HookReply::Forward { code, w_param, l_param }
        },
{
    if code >= 0 && (w_param as u64) % 0x1_0000_0000 == WM_LBUTTONDOWN as u64 {
        HookReply::Consume { result: CONSUMED }
    } else {
        HookReply::Forward { code, w_param, l_param }
    }
}

/// The UTF-16 code units of one character: the character itself below
/// `0x10000`, a high and a low surrogate above.
pub open spec fn utf16_of(c: char) -> Seq<u16> {
    let code = c as int;
    if code < 0x1_0000 {
        seq![code as u16]
    } else {
        seq![
            (0xD800 + (code - 0x1_0000) / 0x400) as u16,
            (0xDC00 + (code - 0x1_0000) % 0x400) as u16,
        ]
    }
}

/// The UTF-16 code units of a text.
pub open spec fn wide(text: Seq<char>) -> Seq<u16>
    decreases text.len(),
{
    if text.len() == 0 {
        Seq::empty()
    } else {
        wide(text.drop_last()) + utf16_of(text.last())
    }
}

/// Appends the UTF-16 code units of `c` to `units`.
fn push_utf16(units: &mut Vec<u16>, c: char)
    ensures
        final(units)@ == old(units)@ + utf16_of(c),
{
    let code: u32 = c as u32;
    if code < 0x1_0000 {
        units.push(code as u16);
    } else {
        let rest: u32 = code - 0x1_0000;
        units.push((0xD800 + rest / 0x400) as u16);
        units.push((0xDC00 + rest % 0x400) as u16);
    }
    assert(units@ =~= old(units)@ + utf16_of(c));
}

/// The form in which the clipboard takes `text` as Unicode text: its UTF-16
/// code units followed by a terminating zero.
pub fn copy_to_clipboard(text: &str) -> (data: Vec<u16>)
    ensures
        data@ == wide(text@).push(0),
{
    let mut data: Vec<u16> = Vec::new();
    for c in it: text.chars()
        invariant
            it.seq() == text@,
            data@ == wide(text@.take(it.index() as int)),
    {
        push_utf16(&mut data, c);
        assert(text@.take(it.index() + 1).drop_last() =~= text@.take(it.index() as int));
    }
    assert(text@.take(text@.len() as int) =~= text@);
    data.push(0);
    data
}

} // verus!
