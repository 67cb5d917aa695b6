//! The boid store: an arena of boids indexed by position in a vector,
//! each carrying a stable identity drawn from a monotone counter. That
//! every live boid has a distinct identity is an invariant proved here,
//! not assumed; the neighbour scans rely on it for self-exclusion.

use vstd::prelude::*;

use crate::angle::ANGLE_FULL;
use crate::boid::Boid;
use crate::random::rand_below;
use crate::settings::SimulationSettings;
use crate::vec2::Vec2;

verus! {

/// Smallest speed, in sub-units per tick, a spawned boid receives.
pub const SPAWN_SPEED_MIN: i64 = 1_850_000;

/// All spawned speeds are strictly below this, in sub-units per tick.
pub const SPAWN_SPEED_MAX: i64 = 2_150_000;

/// The collection of live boids and the counter that hands out their
/// identities.
pub struct Flock {
    /// The live boids, in arena order.
    pub boids: Vec<Boid>,
    /// The next identity to assign; every live identity is below it.
    pub next_id: u64,
}

impl Flock {
    /// Every boid is well formed, every identity is below the counter,
    /// and no two boids share an identity.
    pub open spec fn well_formed(self) -> bool {
        &&& forall|i: int|
            0 <= i < self.boids@.len() ==> (#[trigger] self.boids@[i]).well_formed()
        &&& forall|i: int| 0 <= i < self.boids@.len() ==> (#[trigger] self.boids@[i]).id < self.next_id
        &&& forall|i: int, j: int|
            0 <= i < j < self.boids@.len() ==> (#[trigger] self.boids@[i].id) != (
            #[trigger] self.boids@[j].id)
    }

    /// An empty flock.
    pub fn new() -> (f: Flock)
        ensures
            f.boids@.len() == 0,
            f.next_id == 0,
            f.well_formed(),
    {
        Flock { boids: Vec::new(), next_id: 0 }
    }

    /// Number of live boids.
    pub fn len(&self) -> (n: usize)
        ensures
            n == self.boids@.len(),
    {
        self.boids.len()
    }

    /// The boid at an arena index, for rendering or inspection.
    pub fn get(&self, i: usize) -> (b: Boid)
        requires
            i < self.boids@.len(),
        ensures
            b == self.boids@[i as int],
    {
        self.boids[i]
    }

    /// Whether the flock invariant holds of the stored values.
    pub fn is_well_formed(&self) -> (r: bool)
        ensures
            r == self.well_formed(),
    {
        let mut i: usize = 0;
        while i < self.boids.len()
            invariant
                i <= self.boids@.len(),
                forall|k: int| 0 <= k < i ==> (#[trigger] self.boids@[k]).well_formed(),
                forall|k: int| 0 <= k < i ==> (#[trigger] self.boids@[k]).id < self.next_id,
                forall|k: int, l: int|
                    0 <= k < l < i ==> (#[trigger] self.boids@[k].id) != (
                    #[trigger] self.boids@[l].id),
            decreases self.boids@.len() - i,
        {
            let b = self.boids[i];
            if !b.is_well_formed() || b.id >= self.next_id {
                return false;
            }
            let mut j: usize = 0;
            while j < i
                invariant
                    j <= i < self.boids@.len(),
                    b == self.boids@[i as int],
                    forall|l: int|
                        0 <= l < j ==> (#[trigger] self.boids@[l].id) != self.boids@[i as int].id,
                decreases i - j,
            {
                if self.boids[j].id == b.id {
                    proof {
                        let jj = j as int;
                        let ii = i as int;
                        assert(self.well_formed() ==> self.boids@[jj].id != self.boids@[ii].id);
                    }
                    return false;
                }
                j = j + 1;
            }
            i = i + 1;
        }
        true
    }

    /// A freshly spawned boid: well formed, with a speed in the spawn
    /// interval and a position inside the given bounds.
    pub open spec fn spawned_within(b: Boid, s: SimulationSettings) -> bool {
        &&& b.well_formed()
        &&& SPAWN_SPEED_MIN <= b.speed < SPAWN_SPEED_MAX
        &&& -(s.bound_width / 2) <= b.position.x <= s.bound_width / 2
        &&& -(s.bound_height / 2) <= b.position.y <= s.bound_height / 2
    }

    /// Spawns `count` boids with a random heading, a random speed in the
    /// spawn interval, and a random position inside the bounds, each
    /// with a fresh identity.
    pub fn spawn_boids(&mut self, count: usize, s: &SimulationSettings)
        requires
            old(self).well_formed(),
            s.well_formed(),
            old(self).next_id + count <= u64::MAX,
        ensures
            final(self).well_formed(),
            final(self).boids@.len() == old(self).boids@.len() + count,
            final(self).next_id == old(self).next_id + count,
            forall|i: int|
                0 <= i < old(self).boids@.len() ==> final(self).boids@[i] == old(self).boids@[i],
            forall|i: int|
                old(self).boids@.len() <= i < final(self).boids@.len() ==> Self::spawned_within(
                    #[trigger] final(self).boids@[i],
                    *s,
                ),
            forall|i: int|
                old(self).boids@.len() <= i < final(self).boids@.len()
                    ==> (#[trigger] final(self).boids@[i]).id == old(self).next_id + (i - old(
                    self,
                ).boids@.len()),
    {
        let ghost old_len = self.boids@.len() as int;
        let ghost old_next = self.next_id as int;
        let mut k: usize = 0;
        while k < count
            invariant
                old(self).well_formed(),
                s.well_formed(),
                old_len == old(self).boids@.len(),
                old_next == old(self).next_id,
                old_next + count <= u64::MAX,
                k <= count,
                self.boids@.len() == old_len + k,
                self.next_id == old_next + k,
                forall|i: int| 0 <= i < old_len ==> self.boids@[i] == old(self).boids@[i],
                forall|i: int|
                    old_len <= i < self.boids@.len() ==> Self::spawned_within(
                        #[trigger] self.boids@[i],
                        *s,
                    ),
                forall|i: int|
                    old_len <= i < self.boids@.len() ==> (#[trigger] self.boids@[i]).id == old_next
                        + (i - old_len),
                self.well_formed(),
            decreases count - k,
        {
            let heading: i64 = rand_below(ANGLE_FULL as u64) as i64;
            let speed: i64 = SPAWN_SPEED_MIN + rand_below((SPAWN_SPEED_MAX - SPAWN_SPEED_MIN)
                as u64) as i64;
            let x: i64 = if s.bound_width >= 1 {
                rand_below(s.bound_width as u64) as i64 - s.bound_width / 2
            } else {
                0
            };
            let y: i64 = if s.bound_height >= 1 {
                rand_below(s.bound_height as u64) as i64 - s.bound_height / 2
            } else {
                0
            };
            let b = Boid::with_velocity_and_position(
                self.next_id,
                heading,
                speed,
                Vec2 { x, y },
            );
            self.boids.push(b);
            self.next_id = self.next_id + 1;
            k = k + 1;
        }
    }

    /// Removes the boids at index `count` and beyond, keeping the first
    /// `count` in arena order.
    pub fn despawn_to(&mut self, count: usize)
        requires
            old(self).well_formed(),
        ensures
            final(self).well_formed(),
            final(self).next_id == old(self).next_id,
            count <= old(self).boids@.len() ==> final(self).boids@ == old(self).boids@.subrange(
                0,
                count as int,
            ),
            count > old(self).boids@.len() ==> final(self).boids@ == old(self).boids@,
    {
        self.boids.truncate(count);
    }

    /// Brings the live count to the desired number of boids: despawns
    /// from the end when too many, spawns fresh random boids when too
    /// few, and leaves the flock alone when the count already matches.
    pub fn handle_num_boids_changes(&mut self, s: &SimulationSettings)
        requires
            old(self).well_formed(),
            s.well_formed(),
            old(self).next_id + s.num_boids <= u64::MAX,
        ensures
            final(self).well_formed(),
            final(self).boids@.len() == s.num_boids,
            forall|i: int|
                0 <= i < s.num_boids && i < old(self).boids@.len() ==> final(self).boids@[i] == old(
                    self,
                ).boids@[i],
            forall|i: int|
                old(self).boids@.len() <= i < s.num_boids as int ==> Self::spawned_within(
                    #[trigger] final(self).boids@[i],
                    *s,
                ),
    {
        let desired: usize = s.num_boids as usize;
        let have: usize = self.boids.len();
        if desired < have {
            self.despawn_to(desired);
        } else if desired > have {
            self.spawn_boids(desired - have, s);
        }
    }
}

} // verus!
