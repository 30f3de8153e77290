//! Terrain from colours: each colour names the terrain that is painted
//! where the colour stands in a picture.

use crate::text::{decimal, to_decimal};
use vstd::prelude::*;
use vstd::string::StringSliceAdditionalSpecFns;

verus! {

/// The greatest hue, in degrees.
pub const MAX_HUE: u32 = 360;

/// The greatest saturation and the greatest value that name a terrain, in
/// percent.
pub const MAX_SHADE: u32 = 95;

/// The step in which hue, saturation and value name terrains.
pub const COLOUR_STEP: u32 = 5;

/// `n`, but at most `cap`, rounded down to a multiple of the colour step.
pub open spec fn stepped(n: u32, cap: u32) -> u32 {
    let capped = if n < cap {
        n
    } else {
        cap
    };
    (capped - capped % COLOUR_STEP) as u32
}

/// The decimal digits of `n`, with zeros before them up to `width` digits.
pub open spec fn padded(n: u32, width: nat) -> Seq<u8> {
    if decimal(n as nat).len() >= width {
        decimal(n as nat)
    } else {
        Seq::new((width - decimal(n as nat).len()) as nat, |i: int| 0x30u8) + decimal(n as nat)
    }
}

/// The name of the terrain for a colour of hue `h` in degrees and of
/// saturation `s` and value `v` in percent: `hsv`, three digits of hue, two
/// of saturation and two of value, each cut to its range and rounded down to
/// a multiple of five.
pub open spec fn terrain_name(h: u32, s: u32, v: u32) -> Seq<u8> {
    "hsv".spec_bytes() + padded(stepped(h, MAX_HUE), 3) + padded(stepped(s, MAX_SHADE), 2)
        + padded(stepped(v, MAX_SHADE), 2)
}

/// Puts the digits of `n` behind `text`, with zeros before them up to
/// `width` digits.
fn push_padded(text: &mut Vec<u8>, n: u32, width: usize)
    ensures
        final(text)@ == old(text)@ + padded(n, width as nat),
{
    let digits: Vec<u8> = to_decimal(n);
    let ghost before = text@;
    let zeros: usize = if digits.len() < width {
        width - digits.len()
    } else {
        0
    };
    let mut i: usize = 0;
    assert(text@ =~= before + Seq::new(0, |i: int| 0x30u8));
    while i < zeros
        invariant
            i <= zeros,
            text@ == before + Seq::new(i as nat, |i: int| 0x30u8),
        decreases zeros - i,
    {
        text.push(0x30u8);
        i += 1;
        assert(text@ =~= before + Seq::new(i as nat, |i: int| 0x30u8));
    }
    text.extend_from_slice(digits.as_slice());
    assert(text@ =~= before + padded(n, width as nat));
}

/// The name of the terrain for a colour: see `terrain_name`.
pub fn get_hsv_terrain_name(h: u32, s: u32, v: u32) -> (name: Vec<u8>)
    ensures
        name@ == terrain_name(h, s, v),
{
    let h: u32 = if h < MAX_HUE { h } else { MAX_HUE };
    let s: u32 = if s < MAX_SHADE { s } else { MAX_SHADE };
    let v: u32 = if v < MAX_SHADE { v } else { MAX_SHADE };
    let h: u32 = h - h % COLOUR_STEP;
    let s: u32 = s - s % COLOUR_STEP;
    let v: u32 = v - v % COLOUR_STEP;
    let mut name: Vec<u8> = Vec::new();
    name.extend_from_slice("hsv".as_bytes());
    assert(name@ =~= "hsv".spec_bytes());
    push_padded(&mut name, h, 3);
    push_padded(&mut name, s, 2);
    push_padded(&mut name, v, 2);
    name
}

/// The distance between two neighbouring pixels on the map.
pub const PIXEL_PITCH: u32 = 20;

} // verus!
