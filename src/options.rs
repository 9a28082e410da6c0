use vstd::prelude::*;

verus! {

/// Order of the color channels in the controller's pixel memory.
#[derive(Clone, Copy, Debug, PartialEq, Eq, Structural)]
pub enum ColorOrder {
    Rgb,
    Bgr,
}

/// Whether the panel shows colors as written or inverted.
#[derive(Clone, Copy, Debug, PartialEq, Eq, Structural)]
pub enum ColorInversion {
    Normal,
    Inverted,
}

/// Display orientation; the flag says whether the image is mirrored.
#[derive(Clone, Copy, Debug, PartialEq, Eq, Structural)]
pub enum Orientation {
    Portrait(bool),
    Landscape(bool),
    PortraitInverted(bool),
    LandscapeInverted(bool),
}

/// Order in which the panel refreshes its rows.
#[derive(Clone, Copy, Debug, PartialEq, Eq, Structural)]
pub enum VerticalRefreshOrder {
    TopToBottom,
    BottomToTop,
}

/// Order in which the panel refreshes its columns.
#[derive(Clone, Copy, Debug, PartialEq, Eq, Structural)]
pub enum HorizontalRefreshOrder {
    LeftToRight,
    RightToLeft,
}

/// Refresh order of the panel in both directions.
#[derive(Clone, Copy, Debug, PartialEq, Eq, Structural)]
pub struct RefreshOrder {
    pub vertical: VerticalRefreshOrder,
    pub horizontal: HorizontalRefreshOrder,
}

/// Configuration of a display model, read by the initialization sequence.
#[derive(Clone, Copy, Debug)]
pub struct ModelOptions {
    pub color_order: ColorOrder,
    pub invert_colors: ColorInversion,
    pub orientation: Orientation,
    pub refresh_order: RefreshOrder,
    /// Width and height of the panel's pixel memory.
    pub native_size: (u16, u16),
    /// Width and height of the window the caller draws into.
    pub window_size: (u16, u16),
}

/// Options with the given sizes and every other setting at its default:
/// RGB order, no inversion, unmirrored portrait, top-to-bottom and
/// left-to-right refresh.
pub open spec fn sized_options(native_size: (u16, u16), window_size: (u16, u16)) -> ModelOptions {
    ModelOptions {
        color_order: ColorOrder::Rgb,
        invert_colors: ColorInversion::Normal,
        orientation: Orientation::Portrait(false),
        refresh_order: RefreshOrder {
            vertical: VerticalRefreshOrder::TopToBottom,
            horizontal: HorizontalRefreshOrder::LeftToRight,
        },
        native_size,
        window_size,
    }
}

impl ModelOptions {
    /// Options with the given sizes and every other setting at its default:
    /// RGB order, no inversion, unmirrored portrait, top-to-bottom and
    /// left-to-right refresh.
    pub fn with_sizes(native_size: (u16, u16), window_size: (u16, u16)) -> (o: ModelOptions)
        ensures
            o == sized_options(native_size, window_size),
    {
        ModelOptions {
            color_order: ColorOrder::Rgb,
            invert_colors: ColorInversion::Normal,
            orientation: Orientation::Portrait(false),
            refresh_order: RefreshOrder {
                vertical: VerticalRefreshOrder::TopToBottom,
                horizontal: HorizontalRefreshOrder::LeftToRight,
            },
            native_size,
            window_size,
        }
    }

    /// Sets whether colors are inverted.
    pub fn set_invert_colors(&mut self, inversion: ColorInversion)
        ensures
            *final(self) == (ModelOptions { invert_colors: inversion, ..*old(self) }),
    {
        self.invert_colors = inversion;
    }

    /// Sets the orientation.
    pub fn set_orientation(&mut self, orientation: Orientation)
        ensures
            *final(self) == (ModelOptions { orientation, ..*old(self) }),
    {
        self.orientation = orientation;
    }

    /// Sets the color channel order.
    pub fn set_color_order(&mut self, color_order: ColorOrder)
        ensures
            *final(self) == (ModelOptions { color_order, ..*old(self) }),
    {
        self.color_order = color_order;
    }

    /// Sets the refresh order.
    pub fn set_refresh_order(&mut self, refresh_order: RefreshOrder)
        ensures
            *final(self) == (ModelOptions { refresh_order, ..*old(self) }),
    {
        self.refresh_order = refresh_order;
    }
}

} // verus!
