//! Display-abstraction layer for embedded graphics.
//!
//! The crate decouples drawing state from the physical panel: a
//! [`PicoGraphics`] context resolves a named display to its fixed geometry,
//! orientation and bus, owns a pixel encoder that packs RGB triples into the
//! display-native representation, and holds the current pen. Pushing pixels
//! over the wire is the panel driver's job, not this crate's.

use vstd::prelude::*;

use crate::pen::PicoGraphicsPen;

pub mod pen;
pub mod st7786;

verus! {

/// Errors surfaced by the graphics context and the pen registry.
#[derive(Clone, Copy, Debug, PartialEq, Eq, Structural)]
pub enum Error {
    /// Feature not implemented.
    NotImplemented,
    /// Brightness out of range - expected 0 to 1000 thousandths.
    BrightnessOutOfRange,
}

/// Logical orientation of the drawable surface relative to the physical
/// mounting. A context always holds one of these four concrete values;
/// "no preference" is expressed as `None` at the constructor boundary and is
/// resolved to the display's default before it is stored.
#[derive(Clone, Copy, Debug, PartialEq, Eq, Structural)]
pub enum Rotation {
    Rotate0,
    Rotate90,
    Rotate180,
    Rotate270,
}

/// The named physical panels this crate knows how to configure.
#[derive(Clone, Copy, Debug, PartialEq, Eq, Structural)]
pub enum PicoGraphicsDisplay {
    DisplayPicoDisplay,
}

/// Transport class used to reach the panel.
#[derive(Clone, Copy, Debug, PartialEq, Eq, Structural)]
pub enum PicoGraphicsBusType {
    BusSpi,
}

/// Whether `display` names a panel with a known profile. Resolving any other
/// model is a configuration error: drawing against guessed geometry would
/// corrupt the panel, so construction is refused rather than degraded.
pub open spec fn display_valid(display: PicoGraphicsDisplay) -> bool {
    match display {
        PicoGraphicsDisplay::DisplayPicoDisplay => true,
    }
}

/// Width in pixels of the panel's drawable area.
pub open spec fn display_width(display: PicoGraphicsDisplay) -> u16 {
    match display {
        PicoGraphicsDisplay::DisplayPicoDisplay => 240,
    }
}

/// Height in pixels of the panel's drawable area.
pub open spec fn display_height(display: PicoGraphicsDisplay) -> u16 {
    match display {
        PicoGraphicsDisplay::DisplayPicoDisplay => 135,
    }
}

/// The rotation a display falls back to when the caller expresses no
/// preference. The known panel is mounted landscape with the ribbon cable on
/// one particular edge, so its default is 270 degrees, not 0: this is a
/// hardware-mounting fact and must be preserved exactly.
pub open spec fn default_rotation(display: PicoGraphicsDisplay) -> Rotation {
    match display {
        PicoGraphicsDisplay::DisplayPicoDisplay => Rotation::Rotate270,
    }
}

/// The transport the panel requires.
pub open spec fn display_bus(display: PicoGraphicsDisplay) -> PicoGraphicsBusType {
    match display {
        PicoGraphicsDisplay::DisplayPicoDisplay => PicoGraphicsBusType::BusSpi,
    }
}

/// The pen type a construction request resolves to: the requested format, or
/// RGB565 when the caller expresses no preference.
pub open spec fn resolved_pen_type(pen_type: Option<pen::PicoGraphicsPenType>) -> pen::PicoGraphicsPenType {
    match pen_type {
        Some(pt) => pt,
        None => pen::PicoGraphicsPenType::PenRgb565,
    }
}

/// The rotation a construction request resolves to: the explicit request, or
/// the display's default when the caller expresses no preference.
pub open spec fn resolved_rotation(
    display: PicoGraphicsDisplay,
    rotate: Option<Rotation>,
) -> Rotation {
    match rotate {
        Some(r) => r,
        None => default_rotation(display),
    }
}

/// The graphics context: owns one pixel encoder, the resolved display
/// configuration, and the current pen. All drawing-adjacent calls go through
/// it; none of them touches hardware.
pub struct PicoGraphics {
    bus: PicoGraphicsBusType,
    display: PicoGraphicsDisplay,
    pen_type: pen::PicoGraphicsPenRgb565,
    rotate: Rotation,
    color: u16,
}

impl PicoGraphics {
    /// The display model this context was built for.
    pub closed spec fn spec_display(&self) -> PicoGraphicsDisplay {
        self.display
    }

    /// The effective rotation: always one of the four concrete orientations.
    pub closed spec fn spec_rotation(&self) -> Rotation {
        self.rotate
    }

    /// The effective bus type.
    pub closed spec fn spec_bus(&self) -> PicoGraphicsBusType {
        self.bus
    }

    /// The current pen: an already-encoded pixel value.
    pub closed spec fn spec_color(&self) -> u16 {
        self.color
    }

    /// The owned pixel encoder.
    pub closed spec fn spec_pen(&self) -> pen::PicoGraphicsPenRgb565 {
        self.pen_type
    }

    /// Builds a context for `display`, resolving every optional request
    /// before anything is stored: the encoder for the requested (or default)
    /// pixel format, the display profile, the effective rotation and bus.
    /// The context starts with the encoding of black as its pen, the state a
    /// cleared panel shows.
    ///
    /// Construction is all-or-nothing: an unimplemented pixel format or an
    /// invalid display model cannot yield a context, so both are excluded
    /// up front rather than silently substituted.
    pub fn new(
        display: PicoGraphicsDisplay,
        rotate: Option<Rotation>,
        bus: Option<PicoGraphicsBusType>,
        pen_type: Option<pen::PicoGraphicsPenType>,
    ) -> (context: PicoGraphics)
        requires
            display_valid(display),
            pen::pen_implemented(resolved_pen_type(pen_type)),
        ensures
            context.spec_display() == display,
            context.spec_rotation() == resolved_rotation(display, rotate),
            context.spec_bus() == display_bus(display),
            context.spec_color() == pen::rgb565_encode(0, 0, 0),
            context.spec_color() == 0,
    {
        let pt: pen::PicoGraphicsPenType = match pen_type {
            Some(pt) => pt,
            None => pen::PicoGraphicsPenType::PenRgb565,
        };
        let encoder: pen::PicoGraphicsPenRgb565 = match pen::from(pt) {
            Ok(encoder) => encoder,
            Err(_) => vstd::pervasive::unreached(),
        };

        let mut context = PicoGraphics {
            bus: match bus {
                Some(b) => b,
                None => PicoGraphicsBusType::BusSpi,
            },
            display,
            pen_type: encoder,
            rotate: match rotate {
                Some(r) => r,
                None => Rotation::Rotate270,
            },
            color: 0,
        };

        let (valid, _width, _height, rotate, bus_type) = context.get_display_settings();
        if !valid {
            return vstd::pervasive::unreached();
        }

        context.rotate = rotate;
        context.bus = bus_type;
        let black = context.create_pen(0, 0, 0);
        assert(pen::rgb565_encode(0, 0, 0) == 0) by (bit_vector);
        context.set_pen(black);
        context.clear();

        context
    }

    /// Validates a backlight request, given in thousandths of full intensity:
    /// values from 0 to 1000 inclusive are in range. On success the value is
    /// for the panel's backlight-control collaborator; nothing here performs
    /// I/O, and an out-of-range request is rejected without side effects.
    pub fn set_backlight(&self, brightness: i32) -> (result: Result<(), Error>)
        ensures
            result is Ok <==> 0 <= brightness <= 1000,
            result is Err ==> result == Err::<(), Error>(Error::BrightnessOutOfRange),
    {
        if brightness < 0 || brightness > 1000 {
            return Err(Error::BrightnessOutOfRange);
        }
        Ok(())
    }

    /// Encodes a channel triple with the owned encoder. Pure delegation:
    /// the context, taken by shared reference, is left untouched, and the
    /// returned value only becomes the pen if the caller passes it to
    /// [`set_pen`](Self::set_pen).
    pub fn create_pen(&self, r: u8, g: u8, b: u8) -> (pen: u16)
        ensures
            pen == pen::rgb565_encode(r, g, b),
    {
        self.pen_type.create_pen(r, g, b)
    }

    /// Replaces the current pen with an already-encoded pixel value. A raw
    /// state assignment: any value is accepted, the encoder being the only
    /// producer of meaningful ones. Nothing else about the context changes.
    pub fn set_pen(&mut self, pen: u16)
        ensures
            final(self).spec_color() == pen,
            final(self).spec_display() == old(self).spec_display(),
            final(self).spec_rotation() == old(self).spec_rotation(),
            final(self).spec_bus() == old(self).spec_bus(),
            final(self).spec_pen() == old(self).spec_pen(),
    {
        self.color = pen;
    }

    /// The resolved configuration this context would hand a panel driver:
    /// whether the display model is valid, its geometry, the effective
    /// rotation and the bus. Invalid models report zeroed geometry and must
    /// be treated as fatal by callers, never as a degraded default.
    pub fn get_display_settings(&self) -> (settings: (
        bool,
        u16,
        u16,
        Rotation,
        PicoGraphicsBusType,
    ))
        ensures
            settings.0 == display_valid(self.spec_display()),
            settings.1 == display_width(self.spec_display()),
            settings.2 == display_height(self.spec_display()),
            settings.3 == self.spec_rotation(),
            settings.4 == display_bus(self.spec_display()),
    {
        match self.display {
            PicoGraphicsDisplay::DisplayPicoDisplay => (
                true,
                240,
                135,
                self.rotate,
                PicoGraphicsBusType::BusSpi,
            ),
        }
    }

    /// Paints the whole drawable area with the current pen. This core only
    /// supplies the resolved geometry, rotation and color; streaming the
    /// pixels belongs to the panel-driver collaborator, so the context
    /// itself is left untouched.
    pub fn clear(&self) {
    }

    /// Paints the axis-aligned region between the two corners with the
    /// current pen. Same delegation boundary as [`clear`](Self::clear): no
    /// pixel-pushing logic lives here.
    pub fn rectangle(&self, x0: i32, y0: i32, x1: i32, y1: i32) {
    }

    /// The current pen, as stored: an already-encoded pixel value.
    pub fn current_color(&self) -> (color: u16)
        ensures
            color == self.spec_color(),
    {
        self.color
    }
}

} // verus!
