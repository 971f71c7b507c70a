use vstd::prelude::*;

verus! {

/// The level being played; it sets how many things lie on the field and how
/// fast the cobra goes.
pub struct Level {
    pub number: u8,
}

/// The cobra's speed on a level, doubled on a powered-up tick.
pub open spec fn level_speed(number: u8, power_up: bool) -> int {
    let base = number * 2000;
    if power_up {
        2 * base
    } else {
        base
    }
}

impl Level {
    /// The level with the given number.
    pub fn new(number: u8) -> (r: Self)
        ensures
            r.number == number,
    {
        Self { number }
    }

    /// How fast the cobra goes on this level.
    pub fn speed(&self, power_up: bool) -> (r: u32)
        ensures
            r == level_speed(self.number, power_up),
    {
        let mut speed = (self.number as u32) * 2000;
        if power_up {
            speed = speed * 2
        }
        speed
    }
}

} // verus!
