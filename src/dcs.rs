use crate::options::{
    ColorInversion, ColorOrder, HorizontalRefreshOrder, ModelOptions, Orientation,
    VerticalRefreshOrder,
};
use vstd::prelude::*;

verus! {

/// Address-mode bits (row/column exchange and mirroring) of an orientation.
pub open spec fn orientation_bits(o: Orientation) -> u8 {
    match o {
        Orientation::Portrait(false) => 0x00,
        Orientation::Portrait(true) => 0x40,
        Orientation::PortraitInverted(false) => 0xc0,
        Orientation::PortraitInverted(true) => 0x80,
        Orientation::Landscape(false) => 0x20,
        Orientation::Landscape(true) => 0x60,
        Orientation::LandscapeInverted(false) => 0xe0,
        Orientation::LandscapeInverted(true) => 0xa0,
    }
}

/// The address-mode byte that the options ask for: orientation in bits
/// 5..8, bottom-to-top refresh in bit 4, BGR order in bit 3 and
/// right-to-left refresh in bit 2.
pub open spec fn address_mode_of(o: ModelOptions) -> u8 {
    (orientation_bits(o.orientation)
        | (if o.refresh_order.vertical == VerticalRefreshOrder::BottomToTop { 0x10u8 } else { 0u8 })
        | (if o.color_order == ColorOrder::Bgr { 0x08u8 } else { 0u8 })
        | (if o.refresh_order.horizontal == HorizontalRefreshOrder::RightToLeft { 0x04u8 } else { 0u8 })) as u8
}

/// Value of the address-mode (MADCTL) register.
#[derive(Clone, Copy, Debug, PartialEq, Eq, Structural)]
pub struct SetAddressMode {
    pub bits: u8,
}

impl SetAddressMode {
    /// The address mode that the options ask for.
    pub fn from_options(options: &ModelOptions) -> (m: SetAddressMode)
        ensures
            m.bits == address_mode_of(*options),
    {
        let orientation: u8 = match options.orientation {
            Orientation::Portrait(false) => 0x00,
            Orientation::Portrait(true) => 0x40,
            Orientation::PortraitInverted(false) => 0xc0,
            Orientation::PortraitInverted(true) => 0x80,
            Orientation::Landscape(false) => 0x20,
            Orientation::Landscape(true) => 0x60,
            Orientation::LandscapeInverted(false) => 0xe0,
            Orientation::LandscapeInverted(true) => 0xa0,
        };
        let vertical: u8 = match options.refresh_order.vertical {
            VerticalRefreshOrder::TopToBottom => 0,
            VerticalRefreshOrder::BottomToTop => 0x10,
        };
        let order: u8 = match options.color_order {
            ColorOrder::Rgb => 0,
            ColorOrder::Bgr => 0x08,
        };
        let horizontal: u8 = match options.refresh_order.horizontal {
            HorizontalRefreshOrder::LeftToRight => 0,
            HorizontalRefreshOrder::RightToLeft => 0x04,
        };
        SetAddressMode { bits: orientation | vertical | order | horizontal }
    }
}

/// Pixel-format parameter for 16 bits per pixel on both the RGB and the
/// control interface.
pub const PIXEL_FORMAT_16BPP: u8 = 0x55;

/// One command of the display command set with its parameters.
#[derive(Clone, Copy, Debug, PartialEq, Eq, Structural)]
pub enum Command {
    SoftReset,
    ExitSleepMode,
    /// Scroll area: top fixed rows, scrolled rows, bottom fixed rows.
    SetScrollArea(u16, u16, u16),
    SetAddressMode(SetAddressMode),
    SetInvertMode(ColorInversion),
    /// Pixel format byte.
    SetPixelFormat(u8),
    EnterNormalMode,
    SetDisplayOn,
    WriteMemoryStart,
}

/// The opcode of a command.
pub open spec fn opcode_of(c: Command) -> u8 {
    match c {
        Command::SoftReset => 0x01,
        Command::ExitSleepMode => 0x11,
        Command::EnterNormalMode => 0x13,
        Command::SetInvertMode(ColorInversion::Normal) => 0x20,
        Command::SetInvertMode(ColorInversion::Inverted) => 0x21,
        Command::SetDisplayOn => 0x29,
        Command::WriteMemoryStart => 0x2c,
        Command::SetScrollArea(..) => 0x33,
        Command::SetAddressMode(..) => 0x36,
        Command::SetPixelFormat(..) => 0x3a,
    }
}

/// The two bytes of a 16-bit word, most significant first.
pub open spec fn be_pair(w: u16) -> Seq<u8> {
    seq![(w >> 8u16) as u8, (w & 0xffu16) as u8]
}

/// The parameter bytes that follow a command's opcode.
pub open spec fn params_of(c: Command) -> Seq<u8> {
    match c {
        Command::SetScrollArea(tfa, vsa, bfa) => be_pair(tfa) + be_pair(vsa) + be_pair(bfa),
        Command::SetAddressMode(m) => seq![m.bits],
        Command::SetPixelFormat(pf) => seq![pf],
        _ => Seq::empty(),
    }
}

/// Appends the two bytes of `w`, most significant first.
pub fn push_be(out: &mut Vec<u8>, w: u16)
    ensures
        final(out)@ == old(out)@ + be_pair(w),
{
    out.push((w >> 8u16) as u8);
    out.push((w & 0xffu16) as u8);
    assert(final(out)@ =~= old(out)@ + be_pair(w));
}

impl Command {
    /// The command's opcode.
    pub fn instruction(&self) -> (op: u8)
        ensures
            op == opcode_of(*self),
    {
        match self {
            Command::SoftReset => 0x01,
            Command::ExitSleepMode => 0x11,
            Command::EnterNormalMode => 0x13,
            Command::SetInvertMode(ColorInversion::Normal) => 0x20,
            Command::SetInvertMode(ColorInversion::Inverted) => 0x21,
            Command::SetDisplayOn => 0x29,
            Command::WriteMemoryStart => 0x2c,
            Command::SetScrollArea(..) => 0x33,
            Command::SetAddressMode(..) => 0x36,
            Command::SetPixelFormat(..) => 0x3a,
        }
    }

    /// The command's parameter bytes, in the order they are sent.
    pub fn params(&self) -> (p: Vec<u8>)
        ensures
            p@ == params_of(*self),
    {
        let mut p: Vec<u8> = Vec::new();
        match self {
            Command::SetScrollArea(tfa, vsa, bfa) => {
                push_be(&mut p, *tfa);
                push_be(&mut p, *vsa);
                push_be(&mut p, *bfa);
                assert(p@ =~= be_pair(*tfa) + be_pair(*vsa) + be_pair(*bfa));
            },
            Command::SetAddressMode(m) => {
                p.push(m.bits);
                assert(p@ =~= seq![m.bits]);
            },
            Command::SetPixelFormat(pf) => {
                p.push(*pf);
                assert(p@ =~= seq![*pf]);
            },
            _ => {
                assert(p@ =~= Seq::empty());
            },
        }
        p
    }

    /// The scroll area covering the panel's native height, with no fixed
    /// rows above or below.
    pub fn scroll_area(options: &ModelOptions) -> (c: Command)
        ensures
            c == Command::SetScrollArea(0, options.native_size.1, 0),
    {
        Command::SetScrollArea(0, options.native_size.1, 0)
    }
}

} // verus!
