//! Reference elevations of the sun, in millionths of a degree.
//!
//! The position of the sun itself is a matter of trigonometry on real numbers;
//! this module holds the fixed elevations that the rest of the crate measures
//! an elevation against, and the slots of the table of solar times.

use vstd::prelude::*;

verus! {

/// Millionths of a degree in one degree.
pub const DEGREE: i64 = 1_000_000;

/// Lift of the apparent sun near the horizon by the atmosphere, which also
/// accounts for the radius of the solar disc.
pub const SOLAR_ATM_REFRAC: i64 = 833_000;

/// Elevation at which astronomical twilight begins and ends.
pub const ASTRO_TWILIGHT_ELEV: i64 = -18_000_000;

/// Elevation at which nautical twilight begins and ends.
pub const NAUT_TWILIGHT_ELEV: i64 = -12_000_000;

/// Elevation at which civil twilight begins and ends.
pub const CIVIL_TWILIGHT_ELEV: i64 = -6_000_000;

/// Elevation of the sun's centre at apparent sunrise and sunset.
pub const DAYTIME_ELEV: i64 = 0 - SOLAR_ATM_REFRAC;

/// Slot of solar noon in a table of solar times.
pub const NOON: usize = 0;

/// Slot of solar midnight.
pub const MIDNIGHT: usize = 1;

/// Slot of astronomical dawn.
pub const ASTRO_DAWN: usize = 2;

/// Slot of nautical dawn.
pub const NAUT_DAWN: usize = 3;

/// Slot of civil dawn.
pub const CIVIL_DAWN: usize = 4;

/// Slot of sunrise.
pub const SUNRISE: usize = 5;

/// Slot of sunset.
pub const SUNSET: usize = 6;

/// Slot of civil dusk.
pub const CIVIL_DUSK: usize = 7;

/// Slot of nautical dusk.
pub const NAUT_DUSK: usize = 8;

/// Slot of astronomical dusk.
pub const ASTRO_DUSK: usize = 9;

/// Number of slots in a table of solar times.
pub const SOLAR_TIMES: usize = 10;

/// The elevation that slot `slot` of a table of solar times stands for, where
/// it stands for one: the twilights and sunrise and sunset do, noon and
/// midnight do not.
pub open spec fn slot_elevation(slot: usize) -> Option<int> {
    if slot == ASTRO_DAWN || slot == ASTRO_DUSK {
        Some(ASTRO_TWILIGHT_ELEV as int)
    } else if slot == NAUT_DAWN || slot == NAUT_DUSK {
        Some(NAUT_TWILIGHT_ELEV as int)
    } else if slot == CIVIL_DAWN || slot == CIVIL_DUSK {
        Some(CIVIL_TWILIGHT_ELEV as int)
    } else if slot == SUNRISE || slot == SUNSET {
        Some(-(SOLAR_ATM_REFRAC as int))
    } else {
        None
    }
}

/// Whether slot `slot` lies in the morning half of the day.
pub open spec fn slot_is_morning(slot: usize) -> bool {
    ASTRO_DAWN <= slot <= SUNRISE
}

/// The hour angle of the sun, in millionths of a degree, at which it stands
/// at the elevation of slot `slot` on a day when it passes through the
/// zenith on the equator: negative before noon, positive after.
pub open spec fn slot_angle(slot: usize) -> Option<int> {
    match slot_elevation(slot) {
        Some(elev) => if slot_is_morning(slot) {
            Some(-90_000_000 + elev)
        } else {
            Some(90_000_000 - elev)
        },
        None => if slot == NOON {
            Some(0)
        } else {
            None
        },
    }
}

/// Computes `slot_angle`.
pub fn time_angle(slot: usize) -> (angle: Option<i64>)
    ensures
        angle.is_some() == slot_angle(slot).is_some(),
        angle.is_some() ==> angle.unwrap() == slot_angle(slot).unwrap(),
{
    if slot == NOON {
        Some(0)
    } else if slot == ASTRO_DAWN {
        Some(-90_000_000 + ASTRO_TWILIGHT_ELEV)
    } else if slot == NAUT_DAWN {
        Some(-90_000_000 + NAUT_TWILIGHT_ELEV)
    } else if slot == CIVIL_DAWN {
        Some(-90_000_000 + CIVIL_TWILIGHT_ELEV)
    } else if slot == SUNRISE {
        Some(-90_000_000 + DAYTIME_ELEV)
    } else if slot == SUNSET {
        Some(90_000_000 - DAYTIME_ELEV)
    } else if slot == CIVIL_DUSK {
        Some(90_000_000 - CIVIL_TWILIGHT_ELEV)
    } else if slot == NAUT_DUSK {
        Some(90_000_000 - NAUT_TWILIGHT_ELEV)
    } else if slot == ASTRO_DUSK {
        Some(90_000_000 - ASTRO_TWILIGHT_ELEV)
    } else {
        None
    }
}

} // verus!
