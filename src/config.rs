//! The sizes a render is given: checked before any pixel is traced.
use vstd::prelude::*;

verus! {

/// Why the sizes of a render are refused.
#[derive(Clone, Copy, Debug, PartialEq, Eq, Structural)]
pub enum ConfigError {
    /// The image has no columns.
    ZeroWidth,
    /// The image has no rows.
    ZeroHeight,
    /// No sample would be drawn for a pixel, so its average is undefined.
    ZeroSamples,
}

/// Accepts a width, a height and a number of samples per pixel that are all
/// positive, and otherwise names the first of them, in that order, that is
/// zero.
pub fn check_render_config(width: u32, height: u32, samples: usize) -> (r: Result<(), ConfigError>)
    ensures
        r is Ok <==> width > 0 && height > 0 && samples > 0,
        width == 0 ==> r == Err::<(), ConfigError>(ConfigError::ZeroWidth),
        width > 0 && height == 0 ==> r == Err::<(), ConfigError>(ConfigError::ZeroHeight),
        width > 0 && height > 0 && samples == 0 ==> r == Err::<(), ConfigError>(
            ConfigError::ZeroSamples,
        ),
{
    if width == 0 {
        Err(ConfigError::ZeroWidth)
    } else if height == 0 {
        Err(ConfigError::ZeroHeight)
    } else if samples == 0 {
        Err(ConfigError::ZeroSamples)
    } else {
        Ok(())
    }
}

} // verus!
