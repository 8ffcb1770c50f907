//! Sample formats: the width of a stored sample, its centre code and its gain
//! ladder.

use vstd::prelude::*;

verus! {

/// The output code of zero amplitude. Every mixed sample is a deviation
/// around this code.
pub const OUTPUT_BIAS: u16 = 32768;

/// The factor by which the 8-bit ladder multiplies a deviation at an audible
/// level: 4 at level 1, doubling with each level up to 256 at level 7 and
/// above.
pub open spec fn factor8(volume: u16) -> int {
    if volume <= 1 {
        4
    } else if volume == 2 {
        8
    } else if volume == 3 {
        16
    } else if volume == 4 {
        32
    } else if volume == 5 {
        64
    } else if volume == 6 {
        128
    } else {
        256
    }
}

/// The divisor by which the 16-bit ladder attenuates a deviation at an
/// audible level: 64 at level 1, halving with each level down to 1 at level 7
/// and above.
pub open spec fn divisor16(volume: u16) -> int {
    if volume <= 1 {
        64
    } else if volume == 2 {
        32
    } else if volume == 3 {
        16
    } else if volume == 4 {
        8
    } else if volume == 5 {
        4
    } else if volume == 6 {
        2
    } else {
        1
    }
}

/// The 8-bit gain ladder: silence at level 0, else the deviation times
/// `factor8`.
pub open spec fn gain8(deviation: int, volume: u16) -> int {
    if volume == 0 {
        0
    } else {
        deviation * factor8(volume)
    }
}

/// The 16-bit gain ladder: silence at level 0, else the deviation divided by
/// `divisor16`, rounded toward minus infinity as an arithmetic right shift
/// does.
pub open spec fn gain16(deviation: int, volume: u16) -> int {
    if volume == 0 {
        0
    } else {
        deviation / divisor16(volume)
    }
}

/// An unsigned PCM sample of some width.
pub trait Sample: Copy + Sized {
    /// The sample's code as a number.
    spec fn code(self) -> int;

    /// The code of zero amplitude for this width.
    spec fn bias() -> int;

    /// The gain ladder of this width, from a signed deviation and a volume
    /// level to the deviation that is heard.
    spec fn gain(deviation: int, volume: u16) -> int;

    /// The sample of zero amplitude.
    fn neutral() -> (s: Self)
        ensures
            s.code() == Self::bias(),
    ;

    /// The output code of this sample at the given level: the output bias
    /// plus the gained deviation from this width's centre. The sum always
    /// fits the output width, so nothing wraps and nothing is clamped.
    fn scaled(self, volume: u16) -> (out: u16)
        ensures
            out == OUTPUT_BIAS + Self::gain(self.code() - Self::bias(), volume),
    ;
}

impl Sample for u8 {
    open spec fn code(self) -> int {
        self as int
    }

    open spec fn bias() -> int {
        128
    }

    open spec fn gain(deviation: int, volume: u16) -> int {
        gain8(deviation, volume)
    }

    fn neutral() -> (s: Self) {
        128
    }

    fn scaled(self, volume: u16) -> (out: u16) {
        let signed: i32 = self as i32 - 128;
        let gained: i32 = match volume {
            0 => 0,
            1 => {
                assert(signed << 2u32 == signed * 4) by (bit_vector)
                    requires
                        -128 <= signed < 128,
                ;
                signed << 2
            },
            2 => {
                assert(signed << 3u32 == signed * 8) by (bit_vector)
                    requires
                        -128 <= signed < 128,
                ;
                signed << 3
            },
            3 => {
                assert(signed << 4u32 == signed * 16) by (bit_vector)
                    requires
                        -128 <= signed < 128,
                ;
                signed << 4
            },
            4 => {
                assert(signed << 5u32 == signed * 32) by (bit_vector)
                    requires
                        -128 <= signed < 128,
                ;
                signed << 5
            },
            5 => {
                assert(signed << 6u32 == signed * 64) by (bit_vector)
                    requires
                        -128 <= signed < 128,
                ;
                signed << 6
            },
            6 => {
                assert(signed << 7u32 == signed * 128) by (bit_vector)
                    requires
                        -128 <= signed < 128,
                ;
                signed << 7
            },
            _ => {
                assert(signed << 8u32 == signed * 256) by (bit_vector)
                    requires
                        -128 <= signed < 128,
                ;
                signed << 8
            },
        };
        (gained + 32768) as u16
    }
}

impl Sample for u16 {
    open spec fn code(self) -> int {
        self as int
    }

    open spec fn bias() -> int {
        32768
    }

    open spec fn gain(deviation: int, volume: u16) -> int {
        gain16(deviation, volume)
    }

    fn neutral() -> (s: Self) {
        32768
    }

    fn scaled(self, volume: u16) -> (out: u16) {
        let signed: i32 = self as i32 - 32768;
        let gained: i32 = match volume {
            0 => 0,
            1 => {
                assert(signed >> 6u32 == signed / 64) by (bit_vector)
                    requires
                        -32768 <= signed < 32768,
                ;
                signed >> 6
            },
            2 => {
                assert(signed >> 5u32 == signed / 32) by (bit_vector)
                    requires
                        -32768 <= signed < 32768,
                ;
                signed >> 5
            },
            3 => {
                assert(signed >> 4u32 == signed / 16) by (bit_vector)
                    requires
                        -32768 <= signed < 32768,
                ;
                signed >> 4
            },
            4 => {
                assert(signed >> 3u32 == signed / 8) by (bit_vector)
                    requires
                        -32768 <= signed < 32768,
                ;
                signed >> 3
            },
            5 => {
                assert(signed >> 2u32 == signed / 4) by (bit_vector)
                    requires
                        -32768 <= signed < 32768,
                ;
                signed >> 2
            },
            6 => {
                assert(signed >> 1u32 == signed / 2) by (bit_vector)
                    requires
                        -32768 <= signed < 32768,
                ;
                signed >> 1
            },
            _ => signed,
        };
        (gained + 32768) as u16
    }
}

/// The size of a deviation, whatever its sign.
pub open spec fn magnitude(deviation: int) -> int {
    if deviation < 0 {
        -deviation
    } else {
        deviation
    }
}

/// Every level from 7 up is the top of the 8-bit ladder.
pub proof fn lemma_gain8_capped(deviation: int, volume: u16)
    requires
        7 <= volume,
    ensures
        gain8(deviation, volume) == gain8(deviation, 7),
{
}

/// Every level from 7 up is the top of the 16-bit ladder, which leaves the
/// deviation as it is.
pub proof fn lemma_gain16_capped(deviation: int, volume: u16)
    requires
        7 <= volume,
    ensures
        gain16(deviation, volume) == deviation,
{
}

/// On the 8-bit ladder a deviation other than zero sounds strictly louder at
/// each higher level, from level 1 up to level 7.
pub proof fn lemma_gain8_strictly_increasing(deviation: int, low: u16, high: u16)
    requires
        deviation != 0,
        1 <= low < high <= 7,
    ensures
        magnitude(gain8(deviation, low)) < magnitude(gain8(deviation, high)),
{
    let f = factor8(low);
    let g = factor8(high);
    assert(0 < f < g);
    assert(magnitude(deviation * f) < magnitude(deviation * g)) by (nonlinear_arith)
        requires
            deviation != 0,
            0 < f < g,
    ;
}

/// On the 16-bit ladder no deviation sounds louder at a lower level.
pub proof fn lemma_gain16_increasing(deviation: int, low: u16, high: u16)
    requires
        1 <= low <= high,
    ensures
        magnitude(gain16(deviation, low)) <= magnitude(gain16(deviation, high)),
{
}

/// On the 16-bit ladder a deviation sounds strictly quieter at each lower
/// level, from level 7 down to level 1, as long as the higher level leaves
/// something to halve: a deviation of at least one step of that level above
/// the centre, or of more than one step below it. (A smaller deviation has
/// already reached its floor, 0 above the centre and -1 below it, and stays
/// there.)
pub proof fn lemma_gain16_strictly_increasing(deviation: int, low: u16, high: u16)
    requires
        1 <= low < high <= 7,
        deviation >= divisor16(high) || deviation < -divisor16(high),
    ensures
        magnitude(gain16(deviation, low)) < magnitude(gain16(deviation, high)),
{
    let below = (high - 1) as u16;
    lemma_gain16_increasing(deviation, low, below);
    let c = divisor16(high);
    assert(divisor16(below) == 2 * c);
    if c == 1 {
        assert(magnitude(deviation / 2) < magnitude(deviation / 1));
    } else if c == 2 {
        assert(magnitude(deviation / 4) < magnitude(deviation / 2));
    } else if c == 4 {
        assert(magnitude(deviation / 8) < magnitude(deviation / 4));
    } else if c == 8 {
        assert(magnitude(deviation / 16) < magnitude(deviation / 8));
    } else if c == 16 {
        assert(magnitude(deviation / 32) < magnitude(deviation / 16));
    } else {
        assert(magnitude(deviation / 64) < magnitude(deviation / 32));
    }
}

/// The gained deviation of any 8-bit sample fits the signed 16-bit range, so
/// adding the output bias neither wraps nor needs clamping.
pub proof fn lemma_gain8_fits(raw: u8, volume: u16)
    ensures
        -32768 <= gain8(raw - 128, volume) <= 32512,
        0 <= OUTPUT_BIAS + gain8(raw - 128, volume) <= u16::MAX,
{
    let d = raw - 128;
    let f = factor8(volume);
    assert(-32768 <= d * f <= 32512) by (nonlinear_arith)
        requires
            -128 <= d <= 127,
            4 <= f <= 256,
    ;
}

/// The gained deviation of any 16-bit sample fits the signed 16-bit range,
/// so adding the output bias neither wraps nor needs clamping.
pub proof fn lemma_gain16_fits(raw: u16, volume: u16)
    ensures
        -32768 <= gain16(raw - 32768, volume) <= 32767,
        0 <= OUTPUT_BIAS + gain16(raw - 32768, volume) <= u16::MAX,
{
}

/// A sample of zero amplitude gives the output bias at every level, in
/// either width.
pub proof fn lemma_centre_is_silent(volume: u16)
    ensures
        gain8(0, volume) == 0,
        gain16(0, volume) == 0,
{
}

} // verus!
