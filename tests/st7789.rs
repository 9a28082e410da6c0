use display_interface::DisplayError;
use mipidsi::color::Color565;
use mipidsi::dcs::{Command, SetAddressMode};
use mipidsi::error::InitError;
use mipidsi::init::{InitAction, InitStep, Initializer};
use mipidsi::models::{ST7789Framebuffer, ST7789};
use mipidsi::options::{
    ColorInversion, ColorOrder, HorizontalRefreshOrder, ModelOptions, Orientation,
    RefreshOrder, VerticalRefreshOrder,
};

/// Runs a machine with every step succeeding; returns the steps and the
/// final action.
fn run_ok(mut m: Initializer) -> (Vec<InitStep>, InitAction) {
    let mut steps = Vec::new();
    loop {
        match m.advance::<()>(Ok(())) {
            Ok(InitAction::Perform(step)) => steps.push(step),
            Ok(other) => return (steps, other),
            Err(_) => panic!("no step failed"),
        }
    }
}

fn opcodes(steps: &[InitStep]) -> Vec<u8> {
    steps
        .iter()
        .filter_map(|s| match s {
            InitStep::Send(c) => Some(c.instruction()),
            _ => None,
        })
        .collect()
}

#[test]
fn streaming_default_options() {
    let o = ST7789::default_options();
    assert_eq!(o.native_size, (240, 320));
    assert_eq!(o.window_size, (240, 320));
    assert_eq!(o.invert_colors, ColorInversion::Normal);
}

#[test]
fn framebuffer_default_options() {
    let o = ST7789Framebuffer::default_options();
    assert_eq!(o.native_size, (240, 135));
    assert_eq!(o.window_size, (240, 135));
    assert_eq!(o.invert_colors, ColorInversion::Normal);
}

#[test]
fn soft_reset_sequence() {
    let options = ST7789::default_options();
    let (steps, last) = run_ok(ST7789.init(&options, false));
    assert_eq!(
        steps,
        vec![
            InitStep::Send(Command::SoftReset),
            InitStep::DelayUs(150_000),
            InitStep::Send(Command::ExitSleepMode),
            InitStep::DelayUs(10_000),
            InitStep::Send(Command::SetScrollArea(0, 320, 0)),
            InitStep::Send(Command::SetAddressMode(SetAddressMode { bits: 0 })),
            InitStep::Send(Command::SetInvertMode(ColorInversion::Normal)),
            InitStep::Send(Command::SetPixelFormat(0x55)),
            InitStep::DelayUs(10_000),
            InitStep::Send(Command::EnterNormalMode),
            InitStep::DelayUs(10_000),
            InitStep::Send(Command::SetDisplayOn),
            InitStep::DelayUs(120_000),
        ]
    );
    assert_eq!(opcodes(&steps), vec![0x01, 0x11, 0x33, 0x36, 0x20, 0x3a, 0x13, 0x29]);
    assert_eq!(last, InitAction::Finished(SetAddressMode { bits: 0 }));
}

#[test]
fn hard_reset_sequence() {
    let mut options = ST7789Framebuffer::default_options();
    options.set_invert_colors(ColorInversion::Inverted);
    let mut fb = ST7789Framebuffer::new();
    let (steps, _) = run_ok(fb.init(&options, true));
    assert_eq!(
        &steps[..4],
        &[
            InitStep::ResetLow,
            InitStep::DelayUs(10),
            InitStep::ResetHigh,
            InitStep::DelayUs(150_000)
        ]
    );
    assert_eq!(opcodes(&steps), vec![0x11, 0x33, 0x36, 0x21, 0x3a, 0x13, 0x29]);
    assert!(steps.contains(&InitStep::Send(Command::SetScrollArea(0, 135, 0))));
}

#[test]
fn init_reports_address_mode() {
    let mut options = ModelOptions::with_sizes((240, 320), (320, 240));
    options.set_orientation(Orientation::Landscape(false));
    options.set_color_order(ColorOrder::Bgr);
    let (steps, last) = run_ok(ST7789.init(&options, false));
    assert!(steps.contains(&InitStep::Send(Command::SetAddressMode(SetAddressMode { bits: 0x28 }))));
    assert_eq!(last, InitAction::Finished(SetAddressMode { bits: 0x28 }));

    options.set_orientation(Orientation::PortraitInverted(true));
    options.set_refresh_order(RefreshOrder {
        vertical: VerticalRefreshOrder::BottomToTop,
        horizontal: HorizontalRefreshOrder::RightToLeft,
    });
    assert_eq!(SetAddressMode::from_options(&options).bits, 0x80 | 0x10 | 0x08 | 0x04);
}

#[test]
fn bus_failure_stops_init() {
    let options = ST7789::default_options();
    let mut m = ST7789.init(&options, false);
    assert!(matches!(
        m.advance::<u8>(Ok(())),
        Ok(InitAction::Perform(InitStep::Send(Command::SoftReset)))
    ));
    assert!(matches!(
        m.advance::<u8>(Err(InitError::DisplayError(DisplayError::BusWriteError))),
        Err(InitError::DisplayError(DisplayError::BusWriteError))
    ));
    for _ in 0..20 {
        assert!(matches!(m.advance::<u8>(Ok(())), Ok(InitAction::Halted)));
    }
}

#[test]
fn pin_failure_stops_init() {
    let options = ST7789::default_options();
    let mut m = ST7789.init(&options, true);
    assert!(matches!(m.advance::<u8>(Ok(())), Ok(InitAction::Perform(InitStep::ResetLow))));
    assert!(matches!(m.advance::<u8>(Err(InitError::Pin(7))), Err(InitError::Pin(7))));
    assert!(matches!(m.advance::<u8>(Ok(())), Ok(InitAction::Halted)));
}

#[test]
fn failure_after_last_step() {
    let options = ST7789::default_options();
    let mut m = ST7789.init(&options, false);
    for _ in 0..13 {
        assert!(matches!(m.advance::<u8>(Ok(())), Ok(InitAction::Perform(_))));
    }
    assert!(matches!(m.advance::<u8>(Err(InitError::Pin(1))), Err(InitError::Pin(1))));
    assert!(matches!(m.advance::<u8>(Ok(())), Ok(InitAction::Halted)));
}

#[test]
fn write_pixels_payload() {
    let colors = [Color565::new(31, 0, 0), Color565::from_storage(0x1234), Color565::new(0, 0, 31)];
    let t = ST7789.write_pixels(&colors);
    assert_eq!(t.command, Command::WriteMemoryStart);
    assert_eq!(t.command.instruction(), 0x2c);
    assert_eq!(t.data, vec![0xf8, 0x00, 0x12, 0x34, 0x00, 0x1f]);
}

#[test]
fn write_pixels_empty() {
    let t = ST7789.write_pixels(&[]);
    assert_eq!(t.command, Command::WriteMemoryStart);
    assert!(t.data.is_empty());
}

#[test]
fn color_channels_pack() {
    assert_eq!(Color565::new(0b10001, 0, 0).into_storage(), 0b10001 << 11);
    assert_eq!(Color565::new(0, 0b100001, 0).into_storage(), 0b100001 << 5);
    assert_eq!(Color565::new(0, 0, 0b10001).into_storage(), 0b10001);
    assert_eq!(Color565::new(0xff, 0xff, 0xff).into_storage(), 0xffff);
    assert_eq!(Color565::new(0x20, 0x40, 0x20).into_storage(), 0);
}

#[test]
fn clear_then_flush() {
    let mut fb = ST7789Framebuffer::new();
    assert!(fb.write_pixel(3, 4, Color565::from_storage(0xaaaa)).is_ok());
    assert!(fb.clear(Color565::from_storage(0xbeef)).is_ok());
    let t = fb.flush();
    assert_eq!(t.command, Command::WriteMemoryStart);
    assert_eq!(t.data.len(), 2 * 240 * 135);
    for pair in t.data.chunks(2) {
        assert_eq!(pair, &[0xbe, 0xef]);
    }
}

#[test]
fn write_pixel_then_flush() {
    let mut fb = ST7789Framebuffer::new();
    assert!(fb.clear(Color565::from_storage(0x0102)).is_ok());
    let before = fb.flush().data;
    assert!(fb.write_pixel(10, 2, Color565::from_storage(0xf00d)).is_ok());
    let after = fb.flush().data;
    assert_eq!(after.len(), before.len());
    let offset = 2 * (10 + 2 * 240);
    for k in 0..after.len() {
        if k == offset {
            assert_eq!(after[k], 0xf0);
        } else if k == offset + 1 {
            assert_eq!(after[k], 0x0d);
        } else {
            assert_eq!(after[k], before[k]);
        }
    }
}

#[test]
fn write_last_pixel() {
    let mut fb = ST7789Framebuffer::new();
    assert!(fb.write_pixel(239, 134, Color565::from_storage(0x1357)).is_ok());
    let data = fb.flush().data;
    assert_eq!(&data[data.len() - 2..], &[0x13, 0x57]);
    assert!(data[..data.len() - 2].iter().all(|b| *b == 0));
}

#[test]
fn command_parameters() {
    let options = ModelOptions::with_sizes((240, 320), (240, 320));
    let scroll = Command::scroll_area(&options);
    assert_eq!(scroll.instruction(), 0x33);
    assert_eq!(scroll.params(), vec![0, 0, 0x01, 0x40, 0, 0]);
    assert_eq!(Command::SetAddressMode(SetAddressMode { bits: 0x60 }).params(), vec![0x60]);
    assert_eq!(Command::SetPixelFormat(0x55).params(), vec![0x55]);
    assert!(Command::SoftReset.params().is_empty());
    assert_eq!(Command::SetInvertMode(ColorInversion::Inverted).instruction(), 0x21);
    assert_eq!(Command::SetInvertMode(ColorInversion::Normal).instruction(), 0x20);
}

#[test]
fn framebuffer_scroll_area_is_fixed() {
    let mut options = ModelOptions::with_sizes((240, 320), (320, 240));
    options.set_orientation(Orientation::Landscape(true));
    options.set_invert_colors(ColorInversion::Inverted);
    let mut fb = ST7789Framebuffer::new();
    let (fb_steps, fb_last) = run_ok(fb.init(&options, false));
    let (st_steps, st_last) = run_ok(ST7789.init(&options, false));
    assert_eq!(fb_steps.len(), st_steps.len());
    for (k, (a, b)) in fb_steps.iter().zip(st_steps.iter()).enumerate() {
        if k == 4 {
            assert_eq!(*a, InitStep::Send(Command::SetScrollArea(0, 135, 0)));
            assert_eq!(*b, InitStep::Send(Command::SetScrollArea(0, 320, 0)));
        } else {
            assert_eq!(a, b);
        }
    }
    assert_eq!(fb_last, InitAction::Finished(SetAddressMode { bits: 0x60 }));
    assert_eq!(fb_last, st_last);
}
