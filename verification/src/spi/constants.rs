//! Fixed selector codes of the device's chip-identification scheme.
#![allow(non_camel_case_types)]
use vstd::prelude::*;

verus! {

/// The fields of the read-only identification register: writing a selector's
/// numeric code into `CHIPINFO_ADDR` chooses which field `CHIPINFO_DATA`
/// exposes.
#[derive(Debug, Copy, Clone, PartialEq, Eq, Structural)]
pub enum CHIP_INFO_ADDRESS {
    SI_TYPE,
    SI_VERSION,
    SI_DATE,
    SI_TIME,
    SI_VARIANT,
    SI_BUIlD,
}

impl CHIP_INFO_ADDRESS {
    /// The numeric code of this selector on the wire.
    pub open spec fn spec_code(self) -> u32 {
        match self {
            CHIP_INFO_ADDRESS::SI_TYPE => 0,
            CHIP_INFO_ADDRESS::SI_VERSION => 1,
            CHIP_INFO_ADDRESS::SI_DATE => 2,
            CHIP_INFO_ADDRESS::SI_TIME => 3,
            CHIP_INFO_ADDRESS::SI_VARIANT => 4,
            CHIP_INFO_ADDRESS::SI_BUIlD => 5,
        }
    }

    /// The numeric code of this selector, as written into the selector
    /// register.
    pub fn code(self) -> (r: u32)
        ensures
            r == self.spec_code(),
    {
        match self {
            CHIP_INFO_ADDRESS::SI_TYPE => 0,
            CHIP_INFO_ADDRESS::SI_VERSION => 1,
            CHIP_INFO_ADDRESS::SI_DATE => 2,
            CHIP_INFO_ADDRESS::SI_TIME => 3,
            CHIP_INFO_ADDRESS::SI_VARIANT => 4,
            CHIP_INFO_ADDRESS::SI_BUIlD => 5,
        }
    }
}

} // verus!
