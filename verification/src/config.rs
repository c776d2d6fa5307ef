//! The parameters of a render and what makes them valid.
use vstd::prelude::*;
use crate::film::fits;

verus! {

/// The width of the image where none is asked for.
pub const DEFAULT_WIDTH: u32 = 200;

/// The height of the image where none is asked for.
pub const DEFAULT_HEIGHT: u32 = 100;

/// The number of samples per pixel where none is asked for.
pub const DEFAULT_SAMPLES: u32 = 100;

/// Why a set of parameters cannot be rendered.
#[derive(Clone, Copy, Debug, PartialEq, Eq, Structural)]
pub enum ConfigError {
    /// The image has no columns.
    ZeroWidth,
    /// The image has no rows.
    ZeroHeight,
    /// No sample would be drawn for a pixel, so there is nothing to average.
    ZeroSamples,
    /// The pixel buffer could not be addressed with 32-bit offsets.
    TooLarge,
}

/// The first thing that is wrong with the given parameters, if anything is:
/// the width is looked at first, then the height, then the number of
/// samples, then the size of the buffer.
pub open spec fn fault(width: u32, height: u32, samples: u32) -> Option<ConfigError> {
    if width == 0 {
        Some(ConfigError::ZeroWidth)
    } else if height == 0 {
        Some(ConfigError::ZeroHeight)
    } else if samples == 0 {
        Some(ConfigError::ZeroSamples)
    } else if !fits(width, height) {
        Some(ConfigError::TooLarge)
    } else {
        None
    }
}

/// Parameters that can be rendered.
#[derive(Clone, Copy, Debug, PartialEq, Eq, Structural)]
pub struct Config {
    width: u32,
    height: u32,
    samples: u32,
}

impl Config {
    /// Nothing is wrong with the parameters.
    #[verifier::type_invariant]
    closed spec fn valid(self) -> bool {
        fault(self.width, self.height, self.samples) is None
    }

    /// The number of columns of the image.
    pub closed spec fn spec_width(&self) -> u32 {
        self.width
    }

    /// The number of rows of the image.
    pub closed spec fn spec_height(&self) -> u32 {
        self.height
    }

    /// The number of samples drawn for every pixel.
    pub closed spec fn spec_samples(&self) -> u32 {
        self.samples
    }

    /// Accepts the parameters if nothing is wrong with them, and says what
    /// is wrong otherwise.
    pub fn new(width: u32, height: u32, samples: u32) -> (config: Result<Config, ConfigError>)
        ensures
            match config {
                Ok(c) => fault(width, height, samples) is None && c.spec_width() == width
                    && c.spec_height() == height && c.spec_samples() == samples,
                Err(e) => fault(width, height, samples) == Some(e),
            },
    {
        if width == 0 {
            return Err(ConfigError::ZeroWidth);
        }
        if height == 0 {
            return Err(ConfigError::ZeroHeight);
        }
        if samples == 0 {
            return Err(ConfigError::ZeroSamples);
        }
        assert(width * height <= u32::MAX * u32::MAX) by (nonlinear_arith)
            requires
                0 <= width <= u32::MAX,
                0 <= height <= u32::MAX,
        ;
        let pixels: u64 = (width as u64) * (height as u64);
        if pixels > (u32::MAX / 3) as u64 {
            return Err(ConfigError::TooLarge);
        }
        Ok(Config { width, height, samples })
    }

    /// The number of columns of the image: positive.
    #[verifier::when_used_as_spec(spec_width)]
    pub fn width(&self) -> (w: u32)
        ensures
            w == self.spec_width(),
            w > 0,
    {
        proof {
            use_type_invariant(self);
        }
        self.width
    }

    /// The number of rows of the image: positive, and such that the pixel
    /// buffer can be addressed.
    #[verifier::when_used_as_spec(spec_height)]
    pub fn height(&self) -> (h: u32)
        ensures
            h == self.spec_height(),
            h > 0,
            fits(self.spec_width(), h),
    {
        proof {
            use_type_invariant(self);
        }
        self.height
    }

    /// The number of samples drawn for every pixel: positive.
    #[verifier::when_used_as_spec(spec_samples)]
    pub fn samples(&self) -> (n: u32)
        ensures
            n == self.spec_samples(),
            n > 0,
    {
        proof {
            use_type_invariant(self);
        }
        self.samples
    }
}

} // verus!
