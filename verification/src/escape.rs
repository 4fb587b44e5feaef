//! The control sequences that put the terminal back into a clean state.
//!
//! The bytes themselves come from `termion`; this module states which bytes
//! they are and composes them.

use vstd::prelude::*;

verus! {

/// `ESC [ 3 9 m`: foreground color back to the terminal's default.
pub open spec fn fg_reset_bytes() -> Seq<u8> {
    seq![0x1bu8, 0x5bu8, 0x33u8, 0x39u8, 0x6du8]
}

/// `ESC [ 4 9 m`: background color back to the terminal's default.
pub open spec fn bg_reset_bytes() -> Seq<u8> {
    seq![0x1bu8, 0x5bu8, 0x34u8, 0x39u8, 0x6du8]
}

/// `ESC [ 2 J`: erase the whole screen.
pub open spec fn clear_all_bytes() -> Seq<u8> {
    seq![0x1bu8, 0x5bu8, 0x32u8, 0x4au8]
}

/// Both color resets, foreground first.
pub open spec fn color_reset_bytes() -> Seq<u8> {
    fg_reset_bytes() + bg_reset_bytes()
}

/// What a full clear sends: the color resets, then the erase.
pub open spec fn restore_bytes() -> Seq<u8> {
    color_reset_bytes() + clear_all_bytes()
}

/// Formats `termion::color::Fg(termion::color::Reset)`.
///
/// Trusted: termion's `Display` for `Fg<Reset>` writes its constant
/// `RESET_FG`, the CSI prefix `ESC [` followed by `39m`, whether or not
/// `NO_COLOR` is set. Not proved here.
#[verifier::external_body]
fn fg_reset() -> (bytes: Vec<u8>)
    ensures
        bytes@ == fg_reset_bytes(),
{
    format!("{}", termion::color::Fg(termion::color::Reset)).into_bytes()
}

/// Formats `termion::color::Bg(termion::color::Reset)`.
///
/// Trusted: termion's `Display` for `Bg<Reset>` writes its constant
/// `RESET_BG`, the CSI prefix `ESC [` followed by `49m`, whether or not
/// `NO_COLOR` is set. Not proved here.
#[verifier::external_body]
fn bg_reset() -> (bytes: Vec<u8>)
    ensures
        bytes@ == bg_reset_bytes(),
{
    format!("{}", termion::color::Bg(termion::color::Reset)).into_bytes()
}

/// Formats `termion::clear::All`.
///
/// Trusted: termion's `Display` for `clear::All` writes the CSI prefix
/// `ESC [` followed by `2J`. Not proved here.
#[verifier::external_body]
pub(crate) fn clear_all() -> (bytes: Vec<u8>)
    ensures
        bytes@ == clear_all_bytes(),
{
    format!("{}", termion::clear::All).into_bytes()
}

/// The bytes of a full clear, in the order in which they are sent.
pub fn restore_sequence() -> (bytes: Vec<u8>)
    ensures
        bytes@ == restore_bytes(),
{
    let mut bytes: Vec<u8> = fg_reset();
    let mut bg: Vec<u8> = bg_reset();
    let mut erase: Vec<u8> = clear_all();
    bytes.append(&mut bg);
    bytes.append(&mut erase);
    bytes
}

/// A full clear is fourteen bytes long and ends with the erase sequence,
/// which the two color resets precede.
pub proof fn lemma_restore_bytes_shape()
    ensures
        restore_bytes().len() == 14,
        restore_bytes() =~= seq![
            0x1bu8, 0x5bu8, 0x33u8, 0x39u8, 0x6du8,
            0x1bu8, 0x5bu8, 0x34u8, 0x39u8, 0x6du8,
            0x1bu8, 0x5bu8, 0x32u8, 0x4au8,
        ],
        restore_bytes().subrange(0, 10) =~= color_reset_bytes(),
        restore_bytes().subrange(10, 14) =~= clear_all_bytes(),
{
}

} // verus!
