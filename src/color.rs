//! Colours as exact integer HSLA values.
use vstd::prelude::*;

verus! {

/// A colour in hue, saturation, lightness and alpha.
///
/// The hue is in whole degrees; the other three are percentages, so that every
/// colour of the game is held exactly.
#[derive(Clone, Copy, Debug, PartialEq, Eq, Structural)]
pub struct Hsla {
    pub hue: u16,
    pub saturation: u8,
    pub lightness: u8,
    pub alpha: u8,
}

impl Hsla {
    /// A hue below a full turn and percentages of at most a hundred.
    pub open spec fn wf(self) -> bool {
        &&& self.hue < 360
        &&& self.saturation <= 100
        &&& self.lightness <= 100
        &&& self.alpha <= 100
    }

    /// Builds a colour from its four parts.
    pub fn new(hue: u16, saturation: u8, lightness: u8, alpha: u8) -> (r: Hsla)
        ensures
            r == (Hsla { hue, saturation, lightness, alpha }),
    {
        Hsla { hue, saturation, lightness, alpha }
    }

    /// Builds an opaque colour.
    pub fn opaque(hue: u16, saturation: u8, lightness: u8) -> (r: Hsla)
        ensures
            r == (Hsla { hue, saturation, lightness, alpha: 100 }),
    {
        Hsla { hue, saturation, lightness, alpha: 100 }
    }
}

/// Colour of the player's body: hue 200, saturation 95, lightness 50.
pub open spec fn player_color_spec() -> Hsla {
    Hsla { hue: 200, saturation: 95, lightness: 50, alpha: 100 }
}

/// Colour of the mob: hue 9, saturation 75, lightness 55.
pub open spec fn mob_color_spec() -> Hsla {
    Hsla { hue: 9, saturation: 75, lightness: 55, alpha: 100 }
}

/// Near-invisible white shown by a sensor that overlaps nothing.
pub open spec fn sensor_idle_color_spec() -> Hsla {
    Hsla { hue: 0, saturation: 0, lightness: 100, alpha: 5 }
}

/// Translucent yellow shown by a sensor that overlaps at least one body.
pub open spec fn sensor_alert_color_spec() -> Hsla {
    Hsla { hue: 60, saturation: 50, lightness: 50, alpha: 50 }
}

/// The colour a sensor shows when its overlap set holds `overlaps` bodies.
pub open spec fn sensor_color_spec(overlaps: nat) -> Hsla {
    if overlaps == 0 {
        sensor_idle_color_spec()
    } else {
        sensor_alert_color_spec()
    }
}

/// Colour of the player's body.
pub fn player_color() -> (r: Hsla)
    ensures
        r == player_color_spec(),
{
    Hsla::opaque(200, 95, 50)
}

/// Colour of the mob.
pub fn mob_color() -> (r: Hsla)
    ensures
        r == mob_color_spec(),
{
    Hsla::opaque(9, 75, 55)
}

/// Colour of a sensor that overlaps nothing.
pub fn sensor_idle_color() -> (r: Hsla)
    ensures
        r == sensor_idle_color_spec(),
{
    Hsla::new(0, 0, 100, 5)
}

/// Colour of a sensor that overlaps at least one body.
pub fn sensor_alert_color() -> (r: Hsla)
    ensures
        r == sensor_alert_color_spec(),
{
    Hsla::new(60, 50, 50, 50)
}

/// The colour of a sensor whose overlap set holds `overlaps` bodies: the idle
/// colour when it is empty, the alert colour otherwise.
pub fn sensor_color(overlaps: usize) -> (r: Hsla)
    ensures
        r == sensor_color_spec(overlaps as nat),
        overlaps == 0 ==> r == sensor_idle_color_spec(),
        overlaps > 0 ==> r == sensor_alert_color_spec(),
        r.wf(),
{
    if overlaps == 0 {
        sensor_idle_color()
    } else {
        sensor_alert_color()
    }
}

/// A sensor's colour tells only whether something overlaps it: any two
/// non-empty overlap sets give the same colour, and it differs from the colour
/// of an empty one.
pub proof fn lemma_sensor_color_is_occupancy(a: nat, b: nat)
    requires
        a >= 1,
        b >= 1,
    ensures
        sensor_color_spec(a) == sensor_color_spec(b),
        sensor_color_spec(a) == sensor_alert_color_spec(),
        sensor_color_spec(0) == sensor_idle_color_spec(),
        sensor_color_spec(a) != sensor_color_spec(0),
{
}

/// Every colour of the game's palette is well formed.
pub proof fn lemma_palette_wf()
    ensures
        player_color_spec().wf(),
        mob_color_spec().wf(),
        sensor_idle_color_spec().wf(),
        sensor_alert_color_spec().wf(),
{
}

} // verus!
