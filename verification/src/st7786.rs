//! Declarations for the ST7789-class panel driver the graphics context will
//! eventually drive. The driver itself (SPI/parallel transfer, DMA,
//! chip-select/data-command/backlight sequencing) is an external collaborator;
//! this module only fixes the configuration it is handed.

use vstd::prelude::*;

verus! {

/// Geometry and orientation handed to a panel driver: the already-resolved
/// values a transport needs to address the drawable area.
pub struct DisplayDriver {
    width: u16,
    height: u16,
    rotation: crate::Rotation,
}

impl DisplayDriver {
    /// Width in pixels, as configured.
    pub closed spec fn spec_width(&self) -> u16 {
        self.width
    }

    /// Height in pixels, as configured.
    pub closed spec fn spec_height(&self) -> u16 {
        self.height
    }

    /// Orientation, as configured.
    pub closed spec fn spec_rotation(&self) -> crate::Rotation {
        self.rotation
    }

    /// Packages the resolved geometry and orientation for a panel driver.
    pub fn new(width: u16, height: u16, rotation: crate::Rotation) -> (driver: DisplayDriver)
        ensures
            driver.spec_width() == width,
            driver.spec_height() == height,
            driver.spec_rotation() == rotation,
    {
        DisplayDriver { width, height, rotation }
    }
}

/// Wiring of an ST7789-class panel: the pins, state-machine slot and DMA
/// channel a parallel or serial transfer needs, beside the display geometry.
/// Held as configuration data only; the transfer logic lives with the
/// platform, outside this crate.
#[allow(dead_code)]
pub struct ST7786 {
    display_driver: DisplayDriver,
    round: bool,
    cs: u8,
    dc: u8,
    wr_sck: u8,
    rd_sck: u8,
    d0: u8,
    bl: u8,
    vsync: u8,
    parallel_sm: u8,
    parallel_offset: u8,
    st_dma: u8,
}

} // verus!
