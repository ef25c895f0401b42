//! The dice source: the sole source of randomness. It is either backed
//! by the process-wide random number generator or by a fixed script of
//! single-die draws, so that generation and combat are reproducible.

use vstd::prelude::*;
use rand::Rng;

verus! {

/// Produces uniformly distributed integer die rolls. A `Scripted`
/// source serves the queued single-die draws in order; each entry is
/// clamped into `{1..sides}` of the draw that consumes it, and an
/// exhausted script serves 1 for every further draw.
pub enum DiceSource {
    Random,
    Scripted { rolls: Vec<u8> },
}

impl DiceSource {
    /// The single-die draws not yet consumed.
    pub open spec fn script(self) -> Seq<u8>
        recommends
            self is Scripted,
    {
        self->rolls@
    }

    pub fn new_random() -> (d: DiceSource)
        ensures
            d is Random,
    {
        DiceSource::Random
    }

    pub fn new_scripted(rolls: Vec<u8>) -> (d: DiceSource)
        ensures
            d is Scripted,
            d.script() == rolls@,
    {
        DiceSource::Scripted { rolls }
    }
}

/// Value of the next scripted draw for a die with `sides` sides:
/// the script's head clamped into `{1..sides}`, or 1 once the script
/// is exhausted.
pub open spec fn script_head(s: Seq<u8>, sides: int) -> int {
    if s.len() > 0 {
        let v = s[0] as int;
        if v < 1 {
            1
        } else if v > sides {
            sides
        } else {
            v
        }
    } else {
        1
    }
}

/// The script after one draw has been consumed.
pub open spec fn script_tail(s: Seq<u8>) -> Seq<u8> {
    if s.len() > 0 {
        s.drop_first()
    } else {
        s
    }
}

/// The script after `count` draws have been consumed.
pub open spec fn script_after(s: Seq<u8>, count: int) -> Seq<u8>
    decreases count,
{
    if count <= 0 {
        s
    } else {
        script_after(script_tail(s), count - 1)
    }
}

/// Sum of the next `count` scripted draws for dice with `sides` sides.
pub open spec fn script_sum(s: Seq<u8>, count: int, sides: int) -> int
    decreases count,
{
    if count <= 0 {
        0
    } else {
        script_head(s, sides) + script_sum(script_tail(s), count - 1, sides)
    }
}

/// Appending one more draw to a sum of `count` draws adds the head of
/// the script that remains after those `count` draws.
pub proof fn lemma_script_sum_snoc(s: Seq<u8>, count: int, sides: int)
    requires
        count >= 0,
    ensures
        script_sum(s, count + 1, sides) == script_sum(s, count, sides) + script_head(
            script_after(s, count),
            sides,
        ),
    decreases count,
{
    reveal_with_fuel(script_sum, 3);
    reveal_with_fuel(script_after, 3);
    if count > 0 {
        lemma_script_sum_snoc(script_tail(s), count - 1, sides);
    }
}

/// Consuming one more draw steps the remaining script by one tail.
pub proof fn lemma_script_after_snoc(s: Seq<u8>, count: int)
    requires
        count >= 0,
    ensures
        script_after(s, count + 1) == script_tail(script_after(s, count)),
    decreases count,
{
    reveal_with_fuel(script_after, 3);
    if count > 0 {
        lemma_script_after_snoc(script_tail(s), count - 1);
    }
}

/// Consuming draws in two steps consumes them in one.
pub proof fn lemma_script_after_add(s: Seq<u8>, a: int, b: int)
    requires
        a >= 0,
        b >= 0,
    ensures
        script_after(script_after(s, a), b) == script_after(s, a + b),
    decreases b,
{
    if b > 0 {
        lemma_script_after_add(s, a, b - 1);
        lemma_script_after_snoc(s, a + b - 1);
        lemma_script_after_snoc(script_after(s, a), b - 1);
    }
}

/// Relies on rand's `thread_rng` and `Rng::gen_range`: one uniform
/// draw from the non-empty range `{1..sides}`, which never panics for
/// `sides >= 1`.
#[verifier::external_body]
fn random_die(sides: u8) -> (r: u8)
    requires
        sides >= 1,
    ensures
        1 <= r <= sides,
{
    rand::thread_rng().gen_range(1..=sides)
}

impl DiceSource {
    /// One single-die draw from `{1..sides}`.
    fn draw_one(&mut self, sides: u8) -> (d: u8)
        requires
            sides >= 1,
        ensures
            1 <= d <= sides,
            *old(self) is Random ==> *final(self) is Random,
            *old(self) is Scripted ==> {
                &&& *final(self) is Scripted
                &&& d as int == script_head(old(self).script(), sides as int)
                &&& final(self).script() == script_tail(old(self).script())
            },
    {
        match self {
            DiceSource::Random => random_die(sides),
            DiceSource::Scripted { rolls } => {
                if rolls.len() > 0 {
                    let v = rolls.remove(0);
                    if v < 1 {
                        1
                    } else if v > sides {
                        sides
                    } else {
                        v
                    }
                } else {
                    1
                }
            },
        }
    }

    /// Sum of `count` independent uniform draws from `{1..sides}`.
    /// On a scripted source the result and the remaining script are
    /// exact functions of the consumed script.
    pub fn roll(&mut self, count: u8, sides: u8) -> (r: i32)
        requires
            count >= 1,
            sides >= 2,
        ensures
            count as int <= r as int <= count as int * sides as int,
            *old(self) is Random ==> *final(self) is Random,
            *old(self) is Scripted ==> {
                &&& *final(self) is Scripted
                &&& r as int == script_sum(old(self).script(), count as int, sides as int)
                &&& final(self).script() == script_after(old(self).script(), count as int)
            },
    {
        let ghost start = *self;
        let mut sum: i32 = 0;
        let mut i: u8 = 0;
        while i < count
            invariant
                i <= count,
                sides >= 1,
                i as int <= sum as int <= i as int * sides as int,
                start is Random ==> *self is Random,
                start is Scripted ==> {
                    &&& *self is Scripted
                    &&& sum as int == script_sum(start.script(), i as int, sides as int)
                    &&& self.script() == script_after(start.script(), i as int)
                },
                start == *old(self),
            decreases count - i,
        {
            let d = self.draw_one(sides);
            proof {
                if start is Scripted {
                    lemma_script_sum_snoc(start.script(), i as int, sides as int);
                    lemma_script_after_snoc(start.script(), i as int);
                }
                assert((i + 1) as int * sides as int == i as int * sides as int + sides as int)
                    by (nonlinear_arith);
                assert(i as int * sides as int <= 65025) by (nonlinear_arith)
                    requires
                        i as int <= 255,
                        sides as int <= 255,
                ;
            }
            sum = sum + d as i32;
            i = i + 1;
        }
        sum
    }
}

} // verus!
