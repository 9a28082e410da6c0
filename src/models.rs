use crate::color::Color565;
use crate::dcs::{be_pair, push_be, Command};
use crate::error::Error;
use crate::dcs::address_mode_of;
use crate::init::{init_plan, initial_state, reset_steps, InitStep, Initializer};
use crate::options::{sized_options, ColorInversion, ModelOptions};
use vstd::prelude::*;

verus! {

/// Width of the framebuffer-backed panel, in pixels.
pub const FRAMEBUFFER_WIDTH: u16 = 240;

/// Height of the framebuffer-backed panel, in pixels.
pub const FRAMEBUFFER_HEIGHT: u16 = 135;

/// Number of pixels in the framebuffer: width times height.
pub const FRAMEBUFFER_LEN: usize = 32400;

/// The bytes of a sequence of 16-bit words, each sent most significant
/// byte first.
pub open spec fn be_words(ws: Seq<u16>) -> Seq<u8> {
    Seq::new(
        2 * ws.len(),
        |i: int|
            if i % 2 == 0 {
                (ws[i / 2] >> 8u16) as u8
            } else {
                (ws[i / 2] & 0xffu16) as u8
            },
    )
}

/// The storage words of a sequence of colors.
pub open spec fn raw_words(cs: Seq<Color565>) -> Seq<u16> {
    cs.map_values(|c: Color565| c.raw)
}

/// A framebuffer with every pixel set to `w`.
pub open spec fn filled(w: u16) -> Seq<u16> {
    Seq::new(FRAMEBUFFER_LEN as nat, |i: int| w)
}

/// Index of pixel (`x`, `y`) in the framebuffer, rows one after the other.
pub open spec fn pixel_index(x: u16, y: u16) -> int {
    x + y * FRAMEBUFFER_WIDTH
}

/// Appending one word to a sequence appends its two bytes to the encoding.
proof fn lemma_be_words_push(ws: Seq<u16>, w: u16)
    ensures
        be_words(ws.push(w)) == be_words(ws) + be_pair(w),
{
    assert(be_words(ws.push(w)) =~= be_words(ws) + be_pair(w));
}

/// Whatever pixels were written, the flushed payload of a well-formed
/// framebuffer is two bytes per pixel: twice width times height.
pub proof fn flush_payload_length(buf: Seq<u16>)
    requires
        buf.len() == FRAMEBUFFER_LEN,
    ensures
        be_words(buf).len() == 2 * (FRAMEBUFFER_WIDTH * FRAMEBUFFER_HEIGHT),
{
}

/// After clearing to `c`, every two-byte slot of the flushed payload is the
/// encoding of `c`, most significant byte first.
pub proof fn cleared_payload(c: Color565)
    ensures
        be_words(filled(c.raw)).len() == 2 * FRAMEBUFFER_LEN,
        forall|k: int|
            0 <= k < FRAMEBUFFER_LEN ==> #[trigger] be_words(
                filled(c.raw),
            ).subrange(2 * k, 2 * k + 2) == be_pair(c.raw),
{
    let p = be_words(filled(c.raw));
    assert forall|k: int| 0 <= k < FRAMEBUFFER_LEN implies #[trigger] p.subrange(2 * k, 2 * k + 2)
        == be_pair(c.raw) by {
        assert(p.subrange(2 * k, 2 * k + 2) =~= be_pair(c.raw));
    }
}

/// Writing pixel (`x`, `y`) changes exactly the two payload bytes at offset
/// `2 * (x + y * width)`, which become the encoding of the new color; every
/// other byte of the flushed payload stays as it was.
pub proof fn written_pixel_payload(buf: Seq<u16>, x: u16, y: u16, c: Color565)
    requires
        buf.len() == FRAMEBUFFER_LEN,
        pixel_index(x, y) < FRAMEBUFFER_LEN,
    ensures
        be_words(buf.update(pixel_index(x, y), c.raw)).len() == be_words(buf).len(),
        be_words(buf.update(pixel_index(x, y), c.raw)).subrange(
            2 * pixel_index(x, y),
            2 * pixel_index(x, y) + 2,
        ) == be_pair(c.raw),
        forall|k: int|
            0 <= k < be_words(buf).len() && k != 2 * pixel_index(x, y) && k != 2 * pixel_index(x, y)
                + 1 ==> #[trigger] be_words(buf.update(pixel_index(x, y), c.raw))[k] == be_words(
                buf,
            )[k],
{
    let idx = pixel_index(x, y);
    let after = be_words(buf.update(idx, c.raw));
    assert(after.subrange(2 * idx, 2 * idx + 2) =~= be_pair(c.raw));
    assert forall|k: int|
        0 <= k < be_words(buf).len() && k != 2 * idx && k != 2 * idx + 1 implies #[trigger] after[k]
        == be_words(buf)[k] by {
        assert(k / 2 != idx);
    }
}

/// A memory-write-start command and the pixel data that follows it.
pub struct PixelTransfer {
    pub command: Command,
    pub data: Vec<u8>,
}

/// The memory write of `words`: memory-write-start, then every word in
/// order, most significant byte first.
fn transfer_words(words: &[u16]) -> (t: PixelTransfer)
    ensures
        t.command == Command::WriteMemoryStart,
        t.data@ == be_words(words@),
{
    let mut data: Vec<u8> = Vec::new();
    let mut i: usize = 0;
    while i < words.len()
        invariant
            i <= words.len(),
            data@ == be_words(words@.take(i as int)),
        decreases words.len() - i,
    {
        proof {
            lemma_be_words_push(words@.take(i as int), words@[i as int]);
            assert(words@.take(i as int).push(words@[i as int]) =~= words@.take(i + 1));
        }
        push_be(&mut data, words[i]);
        i = i + 1;
    }
    assert(words@.take(i as int) =~= words@);
    PixelTransfer { command: Command::WriteMemoryStart, data }
}

/// ST7789 controller driven by streaming pixel colors straight to the bus.
pub struct ST7789;

impl ST7789 {
    /// The initialization sequence for `options`; `hard_reset` says whether
    /// a reset line is available.
    pub fn init(&mut self, options: &ModelOptions, hard_reset: bool) -> (m: Initializer)
        ensures
            m.wf(),
            m@ == initial_state(*options, hard_reset),
    {
        Initializer::new(options, hard_reset)
    }

    /// The memory write that streams `colors`: one memory-write-start
    /// command, then two bytes per color, most significant first, in input
    /// order.
    pub fn write_pixels(&mut self, colors: &[Color565]) -> (t: PixelTransfer)
        ensures
            t.command == Command::WriteMemoryStart,
            t.data@ == be_words(raw_words(colors@)),
            t.data@.len() == 2 * colors@.len(),
    {
        let mut data: Vec<u8> = Vec::new();
        let mut i: usize = 0;
        while i < colors.len()
            invariant
                i <= colors@.len(),
                data@ == be_words(raw_words(colors@.take(i as int))),
            decreases colors@.len() - i,
        {
            proof {
                lemma_be_words_push(raw_words(colors@.take(i as int)), colors@[i as int].raw);
                assert(raw_words(colors@.take(i as int)).push(colors@[i as int].raw) =~= raw_words(
                    colors@.take(i + 1),
                ));
            }
            push_be(&mut data, colors[i].raw);
            i = i + 1;
        }
        assert(colors@.take(i as int) =~= colors@);
        PixelTransfer { command: Command::WriteMemoryStart, data }
    }

    /// Default options: a 240x320 panel and window, colors not inverted.
    pub fn default_options() -> (o: ModelOptions)
        ensures
            o.native_size == (240u16, 320u16),
            o.window_size == (240u16, 320u16),
            o.invert_colors == ColorInversion::Normal,
            o == sized_options((240u16, 320u16), (240u16, 320u16)),
    {
        let mut options = ModelOptions::with_sizes((240, 320), (240, 320));
        options.set_invert_colors(ColorInversion::Normal);
        options
    }
}

/// The options the framebuffer-backed panel runs with: the caller's, with
/// the native size fixed at the panel's 240x135.
pub open spec fn framebuffer_panel_options(o: ModelOptions) -> ModelOptions {
    ModelOptions { native_size: (FRAMEBUFFER_WIDTH, FRAMEBUFFER_HEIGHT), ..o }
}

/// The framebuffer-backed panel runs the streaming model's initialization
/// sequence with one difference: its scroll area covers the panel's fixed
/// height of 135 rows, whatever native size the options give.
pub proof fn framebuffer_plan_differs_in_scroll_area(o: ModelOptions, hard_reset: bool)
    ensures
        init_plan(framebuffer_panel_options(o), hard_reset) == init_plan(o, hard_reset).update(
            reset_steps(hard_reset).len() + 3int,
            InitStep::Send(Command::SetScrollArea(0, FRAMEBUFFER_HEIGHT, 0)),
        ),
        address_mode_of(framebuffer_panel_options(o)) == address_mode_of(o),
{
    assert(init_plan(framebuffer_panel_options(o), hard_reset) =~= init_plan(o, hard_reset).update(
        reset_steps(hard_reset).len() + 3int,
        InitStep::Send(Command::SetScrollArea(0, FRAMEBUFFER_HEIGHT, 0)),
    ));
}

/// ST7789 controller on a 240x135 panel that collects pixels in an owned
/// fixed-size framebuffer and sends it whole on `flush`.
pub struct ST7789Framebuffer {
    framebuffer: [u16; FRAMEBUFFER_LEN],
}

impl View for ST7789Framebuffer {
    type V = Seq<u16>;

    closed spec fn view(&self) -> Seq<u16> {
        self.framebuffer@
    }
}

impl ST7789Framebuffer {
    /// Well-formedness: the buffer holds exactly one word per pixel. Every
    /// operation leaves it so.
    pub open spec fn wf(&self) -> bool {
        self@.len() == FRAMEBUFFER_LEN
    }

    /// A model whose framebuffer is all zero words.
    pub fn new() -> (fb: ST7789Framebuffer)
        ensures
            fb.wf(),
            fb@ == filled(0),
    {
        let fb = ST7789Framebuffer { framebuffer: [0u16; FRAMEBUFFER_LEN] };
        assert(fb@ =~= filled(0));
        fb
    }

    /// The initialization sequence for `options`, with the native size
    /// fixed at the panel's 240x135; `hard_reset` says whether a reset line
    /// is available.
    pub fn init(&mut self, options: &ModelOptions, hard_reset: bool) -> (m: Initializer)
        ensures
            m.wf(),
            m@ == initial_state(framebuffer_panel_options(*options), hard_reset),
            final(self)@ == old(self)@,
    {
        let panel = ModelOptions { native_size: (FRAMEBUFFER_WIDTH, FRAMEBUFFER_HEIGHT), ..*options };
        Initializer::new(&panel, hard_reset)
    }

    /// Sets every pixel of the framebuffer to `color`. Touches no bus.
    pub fn clear(&mut self, color: Color565) -> (r: Result<(), Error>)
        ensures
            final(self).wf(),
            r is Ok,
            final(self)@ == filled(color.raw),
    {
        self.framebuffer = [color.raw; FRAMEBUFFER_LEN];
        assert(self@ =~= filled(color.raw));
        Ok(())
    }

    /// Sets pixel (`x`, `y`) to `color`; the pixel must lie inside the
    /// framebuffer. Touches no bus.
    pub fn write_pixel(&mut self, x: u16, y: u16, color: Color565) -> (r: Result<(), Error>)
        requires
            pixel_index(x, y) < FRAMEBUFFER_LEN,
        ensures
            final(self).wf(),
            r is Ok,
            final(self)@ == old(self)@.update(pixel_index(x, y), color.raw),
    {
        let index: usize = x as usize + y as usize * 240;
        self.framebuffer[index] = color.raw;
        Ok(())
    }

    /// The memory write that sends the whole framebuffer: one
    /// memory-write-start command, then two bytes per pixel, most
    /// significant first, in buffer order.
    pub fn flush(&mut self) -> (t: PixelTransfer)
        ensures
            final(self)@ == old(self)@,
            t.command == Command::WriteMemoryStart,
            t.data@ == be_words(old(self)@),
    {
        transfer_words(self.framebuffer.as_slice())
    }

    /// Default options: a 240x135 panel and window, colors not inverted.
    pub fn default_options() -> (o: ModelOptions)
        ensures
            o.native_size == (240u16, 135u16),
            o.window_size == (240u16, 135u16),
            o.invert_colors == ColorInversion::Normal,
            o == sized_options((240u16, 135u16), (240u16, 135u16)),
    {
        let mut options = ModelOptions::with_sizes((240, 135), (240, 135));
        options.set_invert_colors(ColorInversion::Normal);
        options
    }
}

} // verus!
