use vstd::prelude::*;
use rand::Rng;

verus! {

/// Says whether a coffee comes out well.
pub trait Randomizer {
    /// True or false, as chance has it.
    fn get_random_success(&self) -> bool;
}

/// A randomizer that lets a coffee come out well with a given chance, in
/// percent.
#[derive(Debug)]
pub struct RealRandomizer {
    success_chance: i32,
}

/// `rand::thread_rng` and `Rng::gen_range` with the bounds 0 and 100: a
/// number drawn from 0 up to, but not including, 100. Which number nobody
/// can say.
#[verifier::external_body]
fn draw_percent() -> (num: i32)
    ensures
        0 <= num < 100,
{
    rand::thread_rng().gen_range(0, 100)
}

/// Whether a draw is a success: it is one where it is no more than the
/// chance of success.
pub fn is_success(num: i32, success_chance: i32) -> (success: bool)
    ensures
        success == (num <= success_chance),
{
    num <= success_chance
}

impl RealRandomizer {
    pub fn new(success_chance: i32) -> (randomizer: RealRandomizer)
        ensures
            randomizer.chance() == success_chance,
    {
        RealRandomizer { success_chance }
    }

    /// The chance of success, in percent.
    pub closed spec fn chance(&self) -> i32 {
        self.success_chance
    }
}

impl Randomizer for RealRandomizer {
    /// Draws a number from 0 to 99 and compares it with the chance of
    /// success: see `is_success`. With a chance of 99 or more every draw is
    /// a success, with a chance below 0 none is.
    fn get_random_success(&self) -> (success: bool)
        ensures
            self.chance() >= 99 ==> success,
            self.chance() < 0 ==> !success,
    {
        is_success(draw_percent(), self.success_chance)
    }
}

} // verus!
