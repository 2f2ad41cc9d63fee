//! The color model of the logging sink: an alpha-red-green-blue color
//! packed into one machine word, and the level-to-color policy of the
//! console output.
use vstd::prelude::*;

verus! {

/// A packed alpha-red-green-blue color, blue in the lowest byte.
#[derive(Clone, Copy, Debug, PartialEq, Eq, Structural)]
pub struct LogColor(pub u32);

impl LogColor {
    pub fn from_argb_u32(v: u32) -> (r: LogColor)
        ensures
            r.0 == v,
    {
        LogColor(v)
    }

    pub fn from_argb_u8(a: u8, red: u8, g: u8, b: u8) -> (r: LogColor)
        ensures
            r.0 == (b as u32) | (g as u32) << 8 | (red as u32) << 16 | (a as u32) << 24,
    {
        LogColor((b as u32) | (g as u32) << 8 | (red as u32) << 16 | (a as u32) << 24)
    }

    /// An opaque color: full alpha over the given channels.
    pub fn from_rgb_u8(red: u8, g: u8, b: u8) -> (r: LogColor)
        ensures
            r.0 == (b as u32) | (g as u32) << 8 | (red as u32) << 16 | 0xff000000u32,
    {
        let c = Self::from_argb_u8(0xff, red, g, b);
        proof {
            assert((0xffu8 as u32) << 24 == 0xff000000u32) by (bit_vector);
            assert(forall|x: u32, y: u32, z: u32|
                (x | y | z | 0xff000000u32) == ((x | y | z) | 0xff000000u32)) by (bit_vector);
        }
        c
    }

    pub fn get_red(&self) -> (r: u8)
        ensures
            r == ((self.0 >> 16) & 0xff) as u8,
    {
        let x = self.0;
        let v = (x >> 16) & 0xff;
        proof {
            assert(v <= 0xff) by (bit_vector)
                requires
                    v == (x >> 16) & 0xff,
            ;
        }
        v as u8
    }

    pub fn get_green(&self) -> (r: u8)
        ensures
            r == ((self.0 >> 8) & 0xff) as u8,
    {
        let x = self.0;
        let v = (x >> 8) & 0xff;
        proof {
            assert(v <= 0xff) by (bit_vector)
                requires
                    v == (x >> 8) & 0xff,
            ;
        }
        v as u8
    }

    pub fn get_blue(&self) -> (r: u8)
        ensures
            r == (self.0 & 0xff) as u8,
    {
        let x = self.0;
        let v = x & 0xff;
        proof {
            assert(v <= 0xff) by (bit_vector)
                requires
                    v == x & 0xff,
            ;
        }
        v as u8
    }

    pub fn get_alpha(&self) -> (r: u8)
        ensures
            r == ((self.0 >> 24) & 0xff) as u8,
    {
        let x = self.0;
        let v = x >> 24;
        proof {
            assert(v <= 0xff && v == (v & 0xff)) by (bit_vector)
                requires
                    v == x >> 24,
            ;
        }
        v as u8
    }
}

/// Packing channels and reading them back yields the channels.
pub proof fn lemma_color_components(a: u8, red: u8, g: u8, b: u8)
    ensures
        ({
            let v = (b as u32) | (g as u32) << 8 | (red as u32) << 16 | (a as u32) << 24;
            ((v >> 16) & 0xff) as u8 == red && ((v >> 8) & 0xff) as u8 == g && (v & 0xff) as u8
                == b && ((v >> 24) & 0xff) as u8 == a
        }),
{
    let v = (b as u32) | (g as u32) << 8 | (red as u32) << 16 | (a as u32) << 24;
    assert(((v >> 16) & 0xff) == red && ((v >> 8) & 0xff) == g && (v & 0xff) == b && ((v >> 24)
        & 0xff) == a) by (bit_vector)
        requires
            v == (b as u32) | (g as u32) << 8 | (red as u32) << 16 | (a as u32) << 24,
    ;
}

/// The severity of a log line.
#[derive(Clone, Copy, Debug, PartialEq, Eq, Structural)]
pub enum LogLevel {
    Verbose,
    Debug,
    Information,
    Warning,
    Error,
}

/// The default console color of ordinary output.
pub const DEFAULT_LOG_COLOR_ARGB: u32 = 0xFF32CD32;

/// The console color of warnings.
pub const WARNING_LOG_COLOR_ARGB: u32 = 0xFFF4A460;

/// The console color of errors.
pub const ERROR_LOG_COLOR_ARGB: u32 = 0xFFFF0000;

impl LogLevel {
    /// The color a line of this level is printed in: warnings and errors
    /// get their own colors, everything else the default.
    pub fn get_log_color(&self) -> (r: LogColor)
        ensures
            r.0 == (match *self {
                LogLevel::Warning => WARNING_LOG_COLOR_ARGB,
                LogLevel::Error => ERROR_LOG_COLOR_ARGB,
                _ => DEFAULT_LOG_COLOR_ARGB,
            }),
    {
        match self {
            LogLevel::Warning => LogColor(WARNING_LOG_COLOR_ARGB),
            LogLevel::Error => LogColor(ERROR_LOG_COLOR_ARGB),
            _ => LogColor(DEFAULT_LOG_COLOR_ARGB),
        }
    }
}

} // verus!
