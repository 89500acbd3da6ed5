//! The interface palette, as plain color values.
//!
//! The render surface maps each `Rgb` to its own color type; the library
//! only fixes which colors the theme uses.

use vstd::prelude::*;

verus! {

#[derive(Clone, Copy, Debug, PartialEq, Eq)]
pub struct Rgb {
    pub r: u8,
    pub g: u8,
    pub b: u8,
}

#[derive(Clone, Copy, Debug, PartialEq, Eq)]
pub struct Theme {
    pub primary: Rgb,
    pub secondary: Rgb,
    pub accent: Rgb,
    pub text: Rgb,
    pub success: Rgb,
    pub warning: Rgb,
    pub error: Rgb,
}

impl Theme {
    pub fn professional() -> (t: Theme)
        ensures
            t == (Theme {
                primary: Rgb { r: 70, g: 130, b: 180 },
                secondary: Rgb { r: 105, g: 105, b: 105 },
                accent: Rgb { r: 255, g: 165, b: 0 },
                text: Rgb { r: 220, g: 220, b: 220 },
                success: Rgb { r: 34, g: 139, b: 34 },
                warning: Rgb { r: 255, g: 140, b: 0 },
                error: Rgb { r: 220, g: 20, b: 60 },
            }),
    {
        Theme {
            primary: Rgb { r: 70, g: 130, b: 180 },
            secondary: Rgb { r: 105, g: 105, b: 105 },
            accent: Rgb { r: 255, g: 165, b: 0 },
            text: Rgb { r: 220, g: 220, b: 220 },
            success: Rgb { r: 34, g: 139, b: 34 },
            warning: Rgb { r: 255, g: 140, b: 0 },
            error: Rgb { r: 220, g: 20, b: 60 },
        }
    }
}

} // verus!
