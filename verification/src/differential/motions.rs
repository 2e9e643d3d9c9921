//! What the motions share: the convergence check and the motion slot.

use vstd::prelude::*;
use crate::fixed::magnitude;

pub mod linear;
pub mod laws;
pub mod straight;

verus! {

/// A band around zero and the time that an error has to stay within it.
#[derive(Clone, Copy, Debug, PartialEq, Eq, Structural)]
pub struct Tolerance {
    /// Largest size of an error that counts as within the band.
    pub range: i64,
    /// Time in microseconds that the error has to stay within the band.
    pub settle_time: u64,
    /// Time at which the error last came into the band, while it stays.
    pub entered: Option<u64>,
}

/// Several tolerances that watch one error.
pub struct ToleranceGroup {
    pub members: Vec<Tolerance>,
}

/// The motion slot: the right to command the drivetrain, held by at most one
/// motion. A motion holds the slot from its start until its loop has ended; a
/// motion that was asked to stop is no longer in motion, but holds the slot
/// until its loop has seen the request.
#[derive(Clone, Copy, Debug, PartialEq, Eq, Structural)]
pub struct MotionHandler {
    /// Whether the holder of the slot is to go on.
    pub in_motion: bool,
    /// Whether a motion holds the slot.
    pub slot_taken: bool,
}

impl Tolerance {
    /// Whether `error` lies within the band.
    pub open spec fn within(&self, error: i64) -> bool {
        magnitude(error as int) <= self.range
    }

    /// The tolerance after it has seen `error` at time `now`.
    pub open spec fn updated(&self, error: i64, now: u64) -> Tolerance {
        Tolerance {
            range: self.range,
            settle_time: self.settle_time,
            entered: if self.within(error) {
                match self.entered {
                    Some(then) => Some(then),
                    None => Some(now),
                }
            } else {
                None
            },
        }
    }

    /// Whether the error has stayed within the band for the settle time.
    pub open spec fn settled(&self, now: u64) -> bool {
        match self.entered {
            Some(then) => now >= then && now - then >= self.settle_time,
            None => false,
        }
    }

    /// The tolerance with no error seen.
    pub open spec fn cleared(&self) -> Tolerance {
        Tolerance { range: self.range, settle_time: self.settle_time, entered: None }
    }

    /// A tolerance that has seen no error yet.
    pub fn new(range: i64, settle_time: u64) -> (r: Self)
        ensures
            r == (Tolerance { range, settle_time, entered: None }),
    {
        Tolerance { range, settle_time, entered: None }
    }

    /// Takes the error of one tick and says whether it has stayed within the
    /// band for the settle time.
    pub fn update(&mut self, error: i64, now: u64) -> (r: bool)
        ensures
            *final(self) == old(self).updated(error, now),
            r == final(self).settled(now),
    {
        let size: i128 = if error < 0 {
            -(error as i128)
        } else {
            error as i128
        };
        if size <= self.range as i128 {
            match self.entered {
                Some(then) => {
                    now >= then && now - then >= self.settle_time
                },
                None => {
                    self.entered = Some(now);
                    self.settle_time == 0
                },
            }
        } else {
            self.entered = None;
            false
        }
    }

    /// Forgets the errors seen.
    pub fn reset(&mut self)
        ensures
            *final(self) == old(self).cleared(),
    {
        self.entered = None;
    }
}

/// Each tolerance after it has seen `error` at time `now`.
pub open spec fn all_updated(members: Seq<Tolerance>, error: i64, now: u64) -> Seq<Tolerance> {
    Seq::new(members.len(), |i: int| members[i].updated(error, now))
}

/// Each tolerance with no error seen.
pub open spec fn all_cleared(members: Seq<Tolerance>) -> Seq<Tolerance> {
    Seq::new(members.len(), |i: int| members[i].cleared())
}

/// Whether one of the tolerances has its error settled.
pub open spec fn any_settled(members: Seq<Tolerance>, now: u64) -> bool {
    exists|i: int| 0 <= i < members.len() && (#[trigger] members[i]).settled(now)
}

impl ToleranceGroup {
    pub fn new(members: Vec<Tolerance>) -> (r: Self)
        ensures
            r.members == members,
    {
        ToleranceGroup { members }
    }

    /// Hands the error of one tick to every tolerance and says whether one
    /// of them has it settled.
    pub fn update_all(&mut self, error: i64, now: u64) -> (r: bool)
        ensures
            final(self).members@ == all_updated(old(self).members@, error, now),
            r == any_settled(final(self).members@, now),
    {
        let mut done: bool = false;
        let mut i: usize = 0;
        let n: usize = self.members.len();
        while i < n
            invariant
                i <= n,
                n == self.members.len(),
                n == old(self).members.len(),
                forall|k: int|
                    0 <= k < i ==> #[trigger] self.members[k] == old(self).members[k].updated(
                        error,
                        now,
                    ),
                forall|k: int| i <= k < n ==> #[trigger] self.members[k] == old(self).members[k],
                done == exists|k: int| 0 <= k < i && (#[trigger] self.members[k]).settled(now),
            decreases n - i,
        {
            let ghost before = self.members@;
            let mut member: Tolerance = self.members[i];
            let settled: bool = member.update(error, now);
            self.members.set(i, member);
            proof {
                assert(forall|k: int| 0 <= k < i ==> self.members[k] == before[k]);
                if settled {
                    assert(self.members[i as int].settled(now));
                }
            }
            if settled {
                done = true;
            }
            i += 1;
        }
        assert(self.members@ =~= all_updated(old(self).members@, error, now));
        done
    }

    /// Makes every tolerance forget the errors seen.
    pub fn reset(&mut self)
        ensures
            final(self).members@ == all_cleared(old(self).members@),
    {
        let mut i: usize = 0;
        let n: usize = self.members.len();
        while i < n
            invariant
                i <= n,
                n == self.members.len(),
                n == old(self).members.len(),
                forall|k: int| 0 <= k < i ==> #[trigger] self.members[k] == old(self).members[k].cleared(),
                forall|k: int| i <= k < n ==> #[trigger] self.members[k] == old(self).members[k],
            decreases n - i,
        {
            let mut member: Tolerance = self.members[i];
            member.reset();
            self.members.set(i, member);
            i += 1;
        }
        assert(self.members@ =~= all_cleared(old(self).members@));
    }

    /// A group with the same tolerances in the same state.
    pub fn duplicate(&self) -> (r: Self)
        ensures
            r.members@ == self.members@,
    {
        let mut members: Vec<Tolerance> = Vec::new();
        let mut i: usize = 0;
        while i < self.members.len()
            invariant
                i <= self.members.len(),
                members.len() == i,
                forall|k: int| 0 <= k < i ==> #[trigger] members[k] == self.members[k],
            decreases self.members.len() - i,
        {
            members.push(self.members[i]);
            i += 1;
        }
        assert(members@ =~= self.members@);
        ToleranceGroup { members }
    }
}

impl MotionHandler {
    /// Only the holder of the slot is in motion.
    pub open spec fn wf(&self) -> bool {
        self.in_motion ==> self.slot_taken
    }

    /// A free slot.
    pub fn new() -> (r: Self)
        ensures
            r == (MotionHandler { in_motion: false, slot_taken: false }),
            r.wf(),
    {
        MotionHandler { in_motion: false, slot_taken: false }
    }

    /// Whether a motion holds the slot and has not been asked to stop.
    pub fn is_in_motion(&self) -> (r: bool)
        ensures
            r == self.in_motion,
    {
        self.in_motion
    }

    /// Whether no motion holds the slot: a motion can start.
    pub fn is_free(&self) -> (r: bool)
        ensures
            r == !self.slot_taken,
    {
        !self.slot_taken
    }

    /// Takes the slot where it is free. A motion that is refused has to ask
    /// again after the holder's loop has ended.
    pub fn start_motion(&mut self) -> (granted: bool)
        ensures
            granted == !old(self).slot_taken,
            granted ==> *final(self) == (MotionHandler { in_motion: true, slot_taken: true }),
            !granted ==> *final(self) == *old(self),
            old(self).wf() ==> final(self).wf(),
    {
        if self.slot_taken {
            false
        } else {
            self.in_motion = true;
            self.slot_taken = true;
            true
        }
    }

    /// Asks the holder of the slot to stop. Its loop sees this at its next
    /// tick and ends; until then the slot stays taken.
    pub fn stop_motion(&mut self)
        ensures
            !final(self).in_motion,
            final(self).slot_taken == old(self).slot_taken,
            final(self).wf(),
    {
        self.in_motion = false;
    }

    /// Gives the slot back: the holder's loop has ended.
    pub fn end_motion(&mut self)
        ensures
            *final(self) == (MotionHandler { in_motion: false, slot_taken: false }),
            final(self).wf(),
    {
        self.in_motion = false;
        self.slot_taken = false;
    }
}

} // verus!
