//! The rate that the browser is driven at.

use vstd::prelude::*;

use crate::gpu::refresh::RefreshRate;

verus! {

/// Frames per second, at least one.
#[derive(Clone, Copy, Debug, PartialEq, Eq, Structural)]
pub struct FrameRate {
    hz: i32,
}

/// Millihertz as whole hertz, rounded half up, at least one and within 32 bits.
pub open spec fn whole_hertz(mhz: int) -> int {
    let hz = (mhz + 500) / 1000;
    if hz > i32::MAX {
        i32::MAX as int
    } else if hz < 1 {
        1
    } else {
        hz
    }
}

impl FrameRate {
    #[verifier::type_invariant]
    spec fn inv(self) -> bool {
        self.hz >= 1
    }

    pub closed spec fn fps(self) -> int {
        self.hz as int
    }

    /// The rate that shows every refresh.
    pub fn from_refresh(rate: RefreshRate) -> (r: Self)
        ensures
            r.fps() == whole_hertz(rate.mhz()),
    {
        let hz: u64 = (rate.millihertz() + 500) / 1000;
        if hz > 0x7FFF_FFFF {
            FrameRate { hz: 0x7FFF_FFFF }
        } else if hz < 1 {
            FrameRate { hz: 1 }
        } else {
            FrameRate { hz: hz as i32 }
        }
    }

    pub fn get(self) -> (r: i32)
        ensures
            r == self.fps(),
            r >= 1,
    {
        proof {
            use_type_invariant(&self);
        }
        self.hz
    }

    /// `factor` times the rate, as far as 32 bits go.
    pub fn times(self, factor: u32) -> (r: Self)
        requires
            factor > 0,
        ensures
            r.fps() == (if self.fps() * factor > i32::MAX {
                i32::MAX as int
            } else {
                self.fps() * factor
            }),
    {
        proof {
            use_type_invariant(&self);
            assert(1 <= self.hz * factor <= 0x7FFF_FFFF * 0xFFFF_FFFF) by (nonlinear_arith)
                requires
                    1 <= self.hz <= 0x7FFF_FFFF,
                    1 <= factor <= 0xFFFF_FFFF,
            ;
        }
        let product: i64 = self.hz as i64 * factor as i64;
        if product > 0x7FFF_FFFF {
            FrameRate { hz: 0x7FFF_FFFF }
        } else {
            FrameRate { hz: product as i32 }
        }
    }
}

/// A rate in whole hertz is the nearest to the display's, half a hertz counting
/// as one, but never less than one.
pub proof fn whole_rates_are_the_nearest(mhz: int)
    ensures
        500 <= mhz <= 2_147_483_647_000 ==> 1000 * whole_hertz(mhz) - 500 <= mhz < 1000
            * whole_hertz(mhz) + 500,
        mhz < 500 ==> whole_hertz(mhz) == 1,
        mhz > 2_147_483_647_000 ==> whole_hertz(mhz) == 0x7FFF_FFFF,
{
}

/// A multiple of a rate is as many times as fast, as far as numbers go.
pub proof fn multiples_of_a_rate(rate: FrameRate, double: FrameRate, single: FrameRate)
    requires
        call_ensures(FrameRate::times, (rate, 2u32), double),
        call_ensures(FrameRate::times, (rate, 1u32), single),
        rate.fps() <= 1_000_000,
    ensures
        double.fps() == rate.fps() + rate.fps(),
        single.fps() == rate.fps(),
{
}

} // verus!
