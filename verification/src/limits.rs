//! Size limits for tables and memories: a required minimum and an optional
//! maximum.  The encoding starts with a flag byte telling whether the
//! maximum is present, followed by the minimum and, if present, the maximum,
//! both as unsigned LEB128.

use crate::constants::{MAX_ABSENT, MAX_PRESENT};
use crate::encoder::{uleb128, WasmEncode, WasmEncoder};
use vstd::prelude::*;

verus! {

pub struct Limits {
    pub min: u32,
    pub max: Option<u32>,
}

impl Limits {
    /// Limits with the given minimum and optional maximum.
    pub fn new(min: u32, max: Option<u32>) -> (limits: Limits)
        ensures
            limits.min == min,
            limits.max == max,
    {
        Limits { min, max }
    }

    /// Limits with only a minimum.
    pub fn min(min: u32) -> (limits: Limits)
        ensures
            limits.min == min,
            limits.max is None,
    {
        Limits::new(min, None)
    }

    /// Limits with both a minimum and a maximum.
    pub fn min_max(min: u32, max: u32) -> (limits: Limits)
        ensures
            limits.min == min,
            limits.max == Some(max),
    {
        Limits::new(min, Some(max))
    }
}

impl WasmEncode for Limits {
    open spec fn enc(&self) -> Seq<u8> {
        match self.max {
            Some(max) => seq![MAX_PRESENT] + uleb128(self.min as nat) + uleb128(max as nat),
            None => seq![MAX_ABSENT] + uleb128(self.min as nat),
        }
    }

    fn encode(&self, encoder: &mut WasmEncoder) -> (count: u32) {
        match self.max {
            Some(max) => {
                let flag_count = encoder.push_u8(MAX_PRESENT);
                let min_count = encoder.push_leb_u32(self.min);
                let max_count = encoder.push_leb_u32(max);
                proof {
                    assert(encoder@ =~= old(encoder)@ + self.enc());
                }
                flag_count + min_count + max_count
            },
            None => {
                let flag_count = encoder.push_u8(MAX_ABSENT);
                let min_count = encoder.push_leb_u32(self.min);
                proof {
                    assert(encoder@ =~= old(encoder)@ + self.enc());
                }
                flag_count + min_count
            },
        }
    }
}

} // verus!
