//! Depth layers and the atmospheric tint that gives distant layers haze.
use vstd::prelude::*;
use crate::geometry::Color;

verus! {

/// Drawing layers, from the farthest to the nearest.
#[derive(Clone, Copy, Debug, PartialEq, Eq, Structural, PartialOrd, Ord, Hash)]
pub enum RenderLayer {
    FarBackground,
    MidBackground,
    NearBackground,
    Gameplay,
    Entities,
    Foreground,
    UI,
}

/// `c * num / den + add`, rounded down and saturated at 255.
pub open spec fn tinted(c: u8, num: int, den: int, add: int) -> u8 {
    let v = c * num / den + add;
    if v > 255 {
        255
    } else {
        v as u8
    }
}

fn tint_channel(c: u8, num: u8, den: u8, add: u8) -> (r: u8)
    requires
        0 < den,
    ensures
        r == tinted(c, num as int, den as int, add as int),
{
    assert(c as int * num as int <= 255 * 255) by (nonlinear_arith)
        requires
            c <= 255,
            num <= 255,
    ;
    let wide = c as u32 * num as u32 / den as u32 + add as u32;
    if wide > 255 {
        255
    } else {
        wide as u8
    }
}

impl RenderLayer {
    /// Haze for depth: far layers are washed toward blue and made more
    /// transparent, near background slightly darkened; others unchanged.
    pub fn get_atmosphere_tint(&self, base_color: Color) -> (c: Color)
        ensures
            c == match *self {
                RenderLayer::FarBackground => Color {
                    r: tinted(base_color.r, 7, 10, 50),
                    g: tinted(base_color.g, 7, 10, 60),
                    b: tinted(base_color.b, 8, 10, 70),
                    a: tinted(base_color.a, 8, 10, 0),
                },
                RenderLayer::MidBackground => Color {
                    r: tinted(base_color.r, 85, 100, 20),
                    g: tinted(base_color.g, 85, 100, 25),
                    b: tinted(base_color.b, 90, 100, 30),
                    a: tinted(base_color.a, 90, 100, 0),
                },
                RenderLayer::NearBackground => Color {
                    r: tinted(base_color.r, 95, 100, 0),
                    g: tinted(base_color.g, 95, 100, 0),
                    b: tinted(base_color.b, 97, 100, 0),
                    a: base_color.a,
                },
                _ => base_color,
            },
    {
        match self {
            RenderLayer::FarBackground => Color::new(
                tint_channel(base_color.r, 7, 10, 50),
                tint_channel(base_color.g, 7, 10, 60),
                tint_channel(base_color.b, 8, 10, 70),
                tint_channel(base_color.a, 8, 10, 0),
            ),
            RenderLayer::MidBackground => Color::new(
                tint_channel(base_color.r, 85, 100, 20),
                tint_channel(base_color.g, 85, 100, 25),
                tint_channel(base_color.b, 90, 100, 30),
                tint_channel(base_color.a, 90, 100, 0),
            ),
            RenderLayer::NearBackground => Color::new(
                tint_channel(base_color.r, 95, 100, 0),
                tint_channel(base_color.g, 95, 100, 0),
                tint_channel(base_color.b, 97, 100, 0),
                base_color.a,
            ),
            _ => base_color,
        }
    }
}

} // verus!
