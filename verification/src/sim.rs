//! The per-tick simulation passes, in their fixed order: boundary
//! wraparound, movement, cohesion, alignment, separation. Each pass
//! reads the flock as it currently stands, so a boid processed later in
//! a pass observes the already-updated state of boids processed earlier,
//! exactly as the tick contract prescribes.

use vstd::prelude::*;

use crate::boid::Boid;
use crate::flock::Flock;
use crate::fxp::POS_SAFE;
use crate::fxp::RANGE_MAX;
use crate::settings::SimulationSettings;
use crate::vec2::Vec2;
use crate::vec2::boid_is_nearby;
use crate::vec2::spec_within_range;

verus! {

/// Whether the boid at index `j` is a neighbour of the boid at index
/// `i`: a different identity - self-exclusion is by identity, never by
/// distance - strictly within `range`.
pub open spec fn spec_nearby(bs: Seq<Boid>, i: int, j: int, range: int) -> bool {
    &&& 0 <= j < bs.len()
    &&& bs[j].id != bs[i].id
    &&& spec_within_range(bs[i].position, bs[j].position, range)
}

/// All coordinates lie in the region from which one movement step
/// cannot overflow the representable range.
pub open spec fn positions_safe(bs: Seq<Boid>) -> bool {
    forall|i: int|
        0 <= i < bs.len() ==> -POS_SAFE <= (#[trigger] bs[i]).position.x <= POS_SAFE && -POS_SAFE
            <= bs[i].position.y <= POS_SAFE
}

/// The indices of every neighbour of the boid at index `i`, in
/// ascending order; the subject itself is never among them.
pub fn neighbors(f: &Flock, i: usize, range: i64) -> (res: Vec<usize>)
    requires
        f.well_formed(),
        i < f.boids@.len(),
        0 <= range <= RANGE_MAX,
    ensures
        forall|k: int|
            0 <= k < res@.len() ==> spec_nearby(f.boids@, i as int, (#[trigger] res@[k]) as int,
            range as int),
        forall|j: int|
            spec_nearby(f.boids@, i as int, j, range as int) ==> res@.contains(j as usize),
        forall|k: int| 0 <= k < res@.len() ==> #[trigger] res@[k] != i,
{
    let n: usize = f.boids.len();
    let subject: Boid = f.boids[i];
    let mut res: Vec<usize> = Vec::new();
    let mut j: usize = 0;
    while j < n
        invariant
            f.well_formed(),
            i < f.boids@.len(),
            0 <= range <= RANGE_MAX,
            n == f.boids@.len(),
            subject == f.boids@[i as int],
            j <= n,
            forall|k: int|
                0 <= k < res@.len() ==> spec_nearby(f.boids@, i as int, (#[trigger] res@[k]) as int,
                range as int),
            forall|jj: int|
                0 <= jj < j && spec_nearby(f.boids@, i as int, jj, range as int) ==> res@.contains(
                    jj as usize,
                ),
        decreases n - j,
    {
        let cand: Boid = f.boids[j];
        if cand.id != subject.id && boid_is_nearby(subject.position, cand.position, range) {
            let ghost prev = res@;
            res.push(j);
            proof {
                assert forall|jj: int|
                    0 <= jj < j + 1 && spec_nearby(f.boids@, i as int, jj, range as int)
                    implies res@.contains(jj as usize) by {
                    if jj < j {
                        let k = choose|k: int| 0 <= k < prev.len() && prev[k] == jj as usize;
                        assert(res@[k] == jj as usize);
                    } else {
                        assert(res@[res@.len() - 1] == j as usize);
                    }
                }
            }
        }
        j = j + 1;
    }
    proof {
        assert forall|k: int| 0 <= k < res@.len() implies #[trigger] res@[k] != i by {
            if res@[k] == i {
                assert(spec_nearby(f.boids@, i as int, i as int, range as int));
            }
        }
    }
    res
}

/// The boid after one movement step: its velocity added to its position.
pub open spec fn spec_moved(b: Boid) -> Boid {
    Boid {
        position: Vec2 {
            x: (b.position.x + b.spec_vel_x()) as i64,
            y: (b.position.y + b.spec_vel_y()) as i64,
        },
        ..b
    }
}

/// Movement: every boid advances by exactly its velocity vector, and
/// nothing else about it changes. A cleared run flag makes the whole
/// pass a no-op.
pub fn move_boids(f: &mut Flock, s: &SimulationSettings)
    requires
        old(f).well_formed(),
        s.well_formed(),
        positions_safe(old(f).boids@),
    ensures
        final(f).well_formed(),
        final(f).next_id == old(f).next_id,
        final(f).boids@.len() == old(f).boids@.len(),
        !s.run ==> final(f).boids@ == old(f).boids@,
        s.run ==> forall|i: int|
            0 <= i < old(f).boids@.len() ==> final(f).boids@[i] == spec_moved(
                #[trigger] old(f).boids@[i],
            ),
{
    if !s.run {
        return ;
    }
    let n: usize = f.boids.len();
    let mut i: usize = 0;
    while i < n
        invariant
            s.well_formed(),
            positions_safe(old(f).boids@),
            old(f).well_formed(),
            n == old(f).boids@.len(),
            f.boids@.len() == n,
            f.next_id == old(f).next_id,
            i <= n,
            forall|k: int| i <= k < n ==> f.boids@[k] == old(f).boids@[k],
            forall|k: int|
                0 <= k < i ==> f.boids@[k] == spec_moved(#[trigger] old(f).boids@[k]),
            f.well_formed(),
        decreases n - i,
    {
        let b: Boid = f.boids[i];
        let v: Vec2 = b.velocity();
        let moved = Boid {
            position: Vec2 { x: b.position.x + v.x, y: b.position.y + v.y },
            ..b
        };
        f.boids[i] = moved;
        i = i + 1;
    }
}

/// One coordinate after the boundary handler: a boid whose visual
/// extent has fully crossed an edge reappears just past the opposite
/// edge, at the mirrored offset; anything else is untouched.
pub open spec fn spec_wrap_coord(x: int, half_bound: int, half_extent: int) -> int {
    if x - half_extent > half_bound {
        -half_bound - half_extent
    } else if x + half_extent < -half_bound {
        half_bound + half_extent
    } else {
        x
    }
}

/// The boid after the boundary handler has looked at both axes.
pub open spec fn spec_wrapped(b: Boid, s: SimulationSettings) -> Boid {
    Boid {
        position: Vec2 {
            x: spec_wrap_coord(b.position.x as int, s.bound_width / 2, s.half_extent_x as int)
                as i64,
            y: spec_wrap_coord(b.position.y as int, s.bound_height / 2, s.half_extent_y as int)
                as i64,
        },
        ..b
    }
}

/// Boundary handling: seamless wraparound. Every boid fully past an
/// edge reappears at the mirrored offset past the opposite edge, and
/// afterwards every boid lies within the bounds plus its extent.
pub fn boid_window_border_wraparound(f: &mut Flock, s: &SimulationSettings)
    requires
        old(f).well_formed(),
        s.well_formed(),
    ensures
        final(f).well_formed(),
        final(f).next_id == old(f).next_id,
        final(f).boids@.len() == old(f).boids@.len(),
        forall|i: int|
            0 <= i < old(f).boids@.len() ==> final(f).boids@[i] == spec_wrapped(
                #[trigger] old(f).boids@[i],
                *s,
            ),
        forall|i: int|
            0 <= i < final(f).boids@.len() ==> -(s.bound_width / 2 + s.half_extent_x) <= (
            #[trigger] final(f).boids@[i]).position.x <= s.bound_width / 2 + s.half_extent_x && -(
            s.bound_height / 2 + s.half_extent_y) <= final(f).boids@[i].position.y
                <= s.bound_height / 2 + s.half_extent_y,
        positions_safe(final(f).boids@),
{
    let half_w: i64 = s.bound_width / 2;
    let half_h: i64 = s.bound_height / 2;
    let n: usize = f.boids.len();
    let mut i: usize = 0;
    while i < n
        invariant
            old(f).well_formed(),
            s.well_formed(),
            half_w == s.bound_width / 2,
            half_h == s.bound_height / 2,
            n == old(f).boids@.len(),
            f.boids@.len() == n,
            f.next_id == old(f).next_id,
            i <= n,
            forall|k: int| i <= k < n ==> f.boids@[k] == old(f).boids@[k],
            forall|k: int|
                0 <= k < i ==> f.boids@[k] == spec_wrapped(#[trigger] old(f).boids@[k], *s),
            forall|k: int|
                0 <= k < i ==> -(half_w + s.half_extent_x) <= (#[trigger] f.boids@[k]).position.x
                    <= half_w + s.half_extent_x && -(half_h + s.half_extent_y)
                    <= f.boids@[k].position.y <= half_h + s.half_extent_y,
            f.well_formed(),
        decreases n - i,
    {
        let b: Boid = f.boids[i];
        let x: i64 = if b.position.x - s.half_extent_x > half_w {
            -half_w - s.half_extent_x
        } else if b.position.x + s.half_extent_x < -half_w {
            half_w + s.half_extent_x
        } else {
            b.position.x
        };
        let y: i64 = if b.position.y - s.half_extent_y > half_h {
            -half_h - s.half_extent_y
        } else if b.position.y + s.half_extent_y < -half_h {
            half_h + s.half_extent_y
        } else {
            b.position.y
        };
        let wrapped = Boid { position: Vec2 { x, y }, ..b };
        f.boids[i] = wrapped;
        i = i + 1;
    }
}

/// Sums of the positions of the neighbours of the boid at index `i`
/// among the first `k` boids, with their count.
pub open spec fn spec_pos_sum(bs: Seq<Boid>, i: int, k: int, range: int) -> (int, int, int)
    decreases k,
{
    if k <= 0 {
        (0, 0, 0)
    } else {
        let rest = spec_pos_sum(bs, i, k - 1, range);
        if spec_nearby(bs, i, k - 1, range) {
            (rest.0 + bs[k - 1].position.x, rest.1 + bs[k - 1].position.y, rest.2 + 1)
        } else {
            rest
        }
    }
}

/// The boid at index `i` after one cohesion step: steered toward the
/// average position of its neighbours, or untouched when it has none.
pub open spec fn spec_stick_step(bs: Seq<Boid>, i: int, s: SimulationSettings) -> Boid {
    let sums = spec_pos_sum(bs, i, bs.len() as int, s.neighbor_range as int);
    if sums.2 == 0 {
        bs[i]
    } else {
        let target = Vec2 {
            x: crate::fxp::div_trunc(sums.0, sums.2) as i64,
            y: crate::fxp::div_trunc(sums.1, sums.2) as i64,
        };
        crate::boid::spec_steer_towards_point(bs[i], target, s.stick_together_strength as int)
    }
}

/// With no boid within range of index `i`, the position sums are empty.
pub proof fn lemma_pos_sum_empty(bs: Seq<Boid>, i: int, k: int, range: int)
    requires
        forall|j: int| 0 <= j < k ==> !spec_nearby(bs, i, j, range),
    ensures
        spec_pos_sum(bs, i, k, range) == (0int, 0int, 0int),
    decreases k,
{
    if k > 0 {
        lemma_pos_sum_empty(bs, i, k - 1, range);
    }
}

/// Cohesion: each boid with at least one neighbour within the sight
/// range turns toward the average of its neighbours' positions, once,
/// by the cohesion strength; a boid with none is left untouched, as is
/// everything when the behaviour or the run flag is off. No position,
/// speed or identity ever changes in this pass.
pub fn boid_stick_together(f: &mut Flock, s: &SimulationSettings)
    requires
        old(f).well_formed(),
        s.well_formed(),
    ensures
        final(f).well_formed(),
        final(f).next_id == old(f).next_id,
        final(f).boids@.len() == old(f).boids@.len(),
        !(s.run && s.stick_together) ==> final(f).boids@ == old(f).boids@,
        s.run && s.stick_together ==> forall|i: int|
            0 <= i < old(f).boids@.len() ==> #[trigger] final(f).boids@[i] == spec_stick_step(
                old(f).boids@,
                i,
                *s,
            ),
        forall|i: int|
            0 <= i < old(f).boids@.len() ==> {
                &&& (#[trigger] final(f).boids@[i]).position == old(f).boids@[i].position
                &&& final(f).boids@[i].speed == old(f).boids@[i].speed
                &&& final(f).boids@[i].id == old(f).boids@[i].id
            },
        forall|i: int|
            0 <= i < old(f).boids@.len() && (forall|j: int|
                !spec_nearby(old(f).boids@, i, j, s.neighbor_range as int))
                ==> #[trigger] final(f).boids@[i] == old(f).boids@[i],
{
    proof {
        assert forall|i: int|
            0 <= i < old(f).boids@.len() && (forall|j: int|
                !spec_nearby(old(f).boids@, i, j, s.neighbor_range as int)) implies spec_stick_step(
            old(f).boids@,
            i,
            *s,
        ) == old(f).boids@[i] by {
            lemma_pos_sum_empty(
                old(f).boids@,
                i,
                old(f).boids@.len() as int,
                s.neighbor_range as int,
            );
        }
    }
    if !s.stick_together || !s.run {
        return ;
    }
    let ghost bs = old(f).boids@;
    let n: usize = f.boids.len();
    let mut i: usize = 0;
    while i < n
        invariant
            old(f).well_formed(),
            s.well_formed(),
            s.run && s.stick_together,
            bs == old(f).boids@,
            n == bs.len(),
            f.boids@.len() == n,
            f.next_id == old(f).next_id,
            i <= n,
            forall|k: int| i <= k < n ==> f.boids@[k] == bs[k],
            forall|k: int| 0 <= k < i ==> f.boids@[k] == spec_stick_step(bs, k, *s),
            forall|k: int|
                0 <= k < n ==> (#[trigger] f.boids@[k]).position == bs[k].position
                    && f.boids@[k].speed == bs[k].speed && f.boids@[k].id == bs[k].id,
            f.well_formed(),
        decreases n - i,
    {
        let subject: Boid = f.boids[i];
        let mut sx: i128 = 0;
        let mut sy: i128 = 0;
        let mut cnt: i128 = 0;
        let mut j: usize = 0;
        while j < n
            invariant
                old(f).well_formed(),
                s.well_formed(),
                bs == old(f).boids@,
                n == bs.len(),
                f.boids@.len() == n,
                i < n,
                j <= n,
                subject == f.boids@[i as int],
                forall|k: int|
                    0 <= k < n ==> (#[trigger] f.boids@[k]).position == bs[k].position
                        && f.boids@[k].speed == bs[k].speed && f.boids@[k].id == bs[k].id,
                f.well_formed(),
                (sx as int, sy as int, cnt as int) == spec_pos_sum(
                    bs,
                    i as int,
                    j as int,
                    s.neighbor_range as int,
                ),
                0 <= cnt <= j,
                -(cnt * crate::fxp::POS_MAX) <= sx <= cnt * crate::fxp::POS_MAX,
                -(cnt * crate::fxp::POS_MAX) <= sy <= cnt * crate::fxp::POS_MAX,
            decreases n - j,
        {
            let cand: Boid = f.boids[j];
            if cand.id != subject.id && boid_is_nearby(
                subject.position,
                cand.position,
                s.neighbor_range,
            ) {
                proof {
                    assert(spec_nearby(bs, i as int, j as int, s.neighbor_range as int));
                    assert((cnt + 1) * crate::fxp::POS_MAX == cnt * crate::fxp::POS_MAX
                        + crate::fxp::POS_MAX) by (nonlinear_arith);
                }
                sx = sx + cand.position.x as i128;
                sy = sy + cand.position.y as i128;
                cnt = cnt + 1;
            } else {
                proof {
                    assert(!spec_nearby(bs, i as int, j as int, s.neighbor_range as int));
                }
            }
            j = j + 1;
        }
        if cnt > 0 {
            let mx128: i128 = crate::fxp::div_wide_trunc(sx, cnt);
            let my128: i128 = crate::fxp::div_wide_trunc(sy, cnt);
            proof {
                crate::fxp::lemma_div_trunc_bound(sx as int, cnt as int, crate::fxp::POS_MAX as int);
                crate::fxp::lemma_div_trunc_bound(sy as int, cnt as int, crate::fxp::POS_MAX as int);
                assert(cnt * crate::fxp::POS_MAX == crate::fxp::POS_MAX * cnt) by (nonlinear_arith);
            }
            let target = Vec2 { x: mx128 as i64, y: my128 as i64 };
            let mut steered: Boid = subject;
            steered.steer_towards_point(target, s.stick_together_strength);
            f.boids[i] = steered;
        }
        i = i + 1;
    }
}

/// Sums of the velocities of the neighbours of the boid at index `i`
/// among the first `k` boids, with their count.
pub open spec fn spec_vel_sum(bs: Seq<Boid>, i: int, k: int, range: int) -> (int, int, int)
    decreases k,
{
    if k <= 0 {
        (0, 0, 0)
    } else {
        let rest = spec_vel_sum(bs, i, k - 1, range);
        if spec_nearby(bs, i, k - 1, range) {
            (rest.0 + bs[k - 1].spec_vel_x(), rest.1 + bs[k - 1].spec_vel_y(), rest.2 + 1)
        } else {
            rest
        }
    }
}

/// The flock after one alignment step on the boid at index `i`:
/// steered toward the average of its neighbours' velocities, or left
/// alone when it has none.
pub open spec fn spec_follow_step(bs: Seq<Boid>, i: int, s: SimulationSettings) -> Seq<Boid> {
    let sums = spec_vel_sum(bs, i, bs.len() as int, s.neighbor_range as int);
    if sums.2 == 0 {
        bs
    } else {
        let target = Vec2 {
            x: crate::fxp::div_trunc(sums.0, sums.2) as i64,
            y: crate::fxp::div_trunc(sums.1, sums.2) as i64,
        };
        bs.update(
            i,
            crate::boid::spec_steer_towards_velocity(bs[i], target, s.follow_others_strength as int),
        )
    }
}

/// The flock after alignment has processed the first `k` boids in
/// order, each step reading the state the steps before it produced.
pub open spec fn spec_follow_pass(bs: Seq<Boid>, s: SimulationSettings, k: int) -> Seq<Boid>
    decreases k,
{
    if k <= 0 {
        bs
    } else {
        spec_follow_step(spec_follow_pass(bs, s, k - 1), k - 1, s)
    }
}

/// With no boid within range of index `i`, the velocity sums are empty.
pub proof fn lemma_vel_sum_empty(bs: Seq<Boid>, i: int, k: int, range: int)
    requires
        forall|j: int| 0 <= j < k ==> !spec_nearby(bs, i, j, range),
    ensures
        spec_vel_sum(bs, i, k, range) == (0int, 0int, 0int),
    decreases k,
{
    if k > 0 {
        lemma_vel_sum_empty(bs, i, k - 1, range);
    }
}

/// An alignment pass never changes the length of the flock, nor any
/// boid's position, speed or identity, and leaves boids at or beyond
/// the processed prefix untouched.
pub proof fn lemma_follow_pass_preserves(bs: Seq<Boid>, s: SimulationSettings, k: int)
    requires
        0 <= k <= bs.len(),
    ensures
        spec_follow_pass(bs, s, k).len() == bs.len(),
        forall|i: int|
            0 <= i < bs.len() ==> {
                &&& (#[trigger] spec_follow_pass(bs, s, k)[i]).position == bs[i].position
                &&& spec_follow_pass(bs, s, k)[i].speed == bs[i].speed
                &&& spec_follow_pass(bs, s, k)[i].id == bs[i].id
            },
        forall|i: int| k <= i < bs.len() ==> #[trigger] spec_follow_pass(bs, s, k)[i] == bs[i],
    decreases k,
{
    if k > 0 {
        lemma_follow_pass_preserves(bs, s, k - 1);
    }
}

/// Alignment steps after index `i` never touch the boid at index `i`.
pub proof fn lemma_follow_pass_frame(bs: Seq<Boid>, s: SimulationSettings, k: int, i: int)
    requires
        0 <= i < i + 1 <= k <= bs.len(),
    ensures
        spec_follow_pass(bs, s, k)[i] == spec_follow_pass(bs, s, i + 1)[i],
    decreases k,
{
    lemma_follow_pass_preserves(bs, s, k);
    if k > i + 1 {
        lemma_follow_pass_frame(bs, s, k - 1, i);
        lemma_follow_pass_preserves(bs, s, k - 1);
    }
}

/// A boid with no neighbours within range at the start of an alignment
/// pass comes out of the whole pass unchanged: its neighbour set
/// depends only on positions and identities, which the pass never
/// touches.
pub proof fn lemma_follow_pass_no_neighbor(bs: Seq<Boid>, s: SimulationSettings, i: int)
    requires
        0 <= i < bs.len(),
        forall|j: int| !spec_nearby(bs, i, j, s.neighbor_range as int),
    ensures
        spec_follow_pass(bs, s, bs.len() as int)[i] == bs[i],
{
    let ps = spec_follow_pass(bs, s, i);
    lemma_follow_pass_preserves(bs, s, i);
    assert forall|j: int| !spec_nearby(ps, i, j, s.neighbor_range as int) by {
        if 0 <= j < ps.len() {
            assert(!spec_nearby(bs, i, j, s.neighbor_range as int));
        }
    }
    lemma_vel_sum_empty(ps, i, ps.len() as int, s.neighbor_range as int);
    assert(spec_follow_pass(bs, s, i + 1) == ps);
    if i + 1 < bs.len() {
        lemma_follow_pass_frame(bs, s, bs.len() as int, i);
    }
}

/// Alignment: each boid with at least one neighbour within the sight
/// range turns toward the average of its neighbours' velocities, once,
/// by the alignment strength, reading neighbours as they stand when its
/// own step runs; a boid with no neighbour is untouched, as is
/// everything when the behaviour or the run flag is off. No position,
/// speed or identity ever changes in this pass.
pub fn boid_follow_others(f: &mut Flock, s: &SimulationSettings)
    requires
        old(f).well_formed(),
        s.well_formed(),
    ensures
        final(f).well_formed(),
        final(f).next_id == old(f).next_id,
        final(f).boids@.len() == old(f).boids@.len(),
        !(s.run && s.follow_others) ==> final(f).boids@ == old(f).boids@,
        s.run && s.follow_others ==> final(f).boids@ == spec_follow_pass(
            old(f).boids@,
            *s,
            old(f).boids@.len() as int,
        ),
        forall|i: int|
            0 <= i < old(f).boids@.len() ==> {
                &&& (#[trigger] final(f).boids@[i]).position == old(f).boids@[i].position
                &&& final(f).boids@[i].speed == old(f).boids@[i].speed
                &&& final(f).boids@[i].id == old(f).boids@[i].id
            },
        forall|i: int|
            0 <= i < old(f).boids@.len() && (forall|j: int|
                !spec_nearby(old(f).boids@, i, j, s.neighbor_range as int))
                ==> #[trigger] final(f).boids@[i] == old(f).boids@[i],
{
    if !s.follow_others || !s.run {
        return ;
    }
    let ghost bs = old(f).boids@;
    let n: usize = f.boids.len();
    let mut i: usize = 0;
    while i < n
        invariant
            old(f).well_formed(),
            s.well_formed(),
            s.run && s.follow_others,
            bs == old(f).boids@,
            n == bs.len(),
            f.boids@.len() == n,
            f.next_id == old(f).next_id,
            i <= n,
            f.boids@ == spec_follow_pass(bs, *s, i as int),
            forall|k: int|
                0 <= k < n ==> (#[trigger] f.boids@[k]).position == bs[k].position
                    && f.boids@[k].speed == bs[k].speed && f.boids@[k].id == bs[k].id,
            f.well_formed(),
        decreases n - i,
    {
        let ghost cur = f.boids@;
        let subject: Boid = f.boids[i];
        let mut sx: i128 = 0;
        let mut sy: i128 = 0;
        let mut cnt: i128 = 0;
        let mut j: usize = 0;
        while j < n
            invariant
                s.well_formed(),
                n == f.boids@.len(),
                cur == f.boids@,
                i < n,
                j <= n,
                subject == f.boids@[i as int],
                f.well_formed(),
                (sx as int, sy as int, cnt as int) == spec_vel_sum(
                    cur,
                    i as int,
                    j as int,
                    s.neighbor_range as int,
                ),
                0 <= cnt <= j,
                -(cnt * crate::fxp::SPEED_MAX) <= sx <= cnt * crate::fxp::SPEED_MAX,
                -(cnt * crate::fxp::SPEED_MAX) <= sy <= cnt * crate::fxp::SPEED_MAX,
            decreases n - j,
        {
            let cand: Boid = f.boids[j];
            if cand.id != subject.id && boid_is_nearby(
                subject.position,
                cand.position,
                s.neighbor_range,
            ) {
                let v: Vec2 = cand.velocity();
                proof {
                    assert(spec_nearby(cur, i as int, j as int, s.neighbor_range as int));
                    assert((cnt + 1) * crate::fxp::SPEED_MAX == cnt * crate::fxp::SPEED_MAX
                        + crate::fxp::SPEED_MAX) by (nonlinear_arith);
                }
                sx = sx + v.x as i128;
                sy = sy + v.y as i128;
                cnt = cnt + 1;
            } else {
                proof {
                    assert(!spec_nearby(cur, i as int, j as int, s.neighbor_range as int));
                }
            }
            j = j + 1;
        }
        if cnt > 0 {
            let mx128: i128 = crate::fxp::div_wide_trunc(sx, cnt);
            let my128: i128 = crate::fxp::div_wide_trunc(sy, cnt);
            proof {
                crate::fxp::lemma_div_trunc_bound(
                    sx as int,
                    cnt as int,
                    crate::fxp::SPEED_MAX as int,
                );
                crate::fxp::lemma_div_trunc_bound(
                    sy as int,
                    cnt as int,
                    crate::fxp::SPEED_MAX as int,
                );
            }
            let target = Vec2 { x: mx128 as i64, y: my128 as i64 };
            let mut steered: Boid = subject;
            steered.steer_towards_velocity(target, s.follow_others_strength);
            f.boids[i] = steered;
        }
        i = i + 1;
        proof {
            assert(f.boids@ == spec_follow_step(cur, i - 1, *s));
        }
    }
    proof {
        assert forall|i: int|
            0 <= i < bs.len() && (forall|j: int|
                !spec_nearby(bs, i, j, s.neighbor_range as int)) implies #[trigger] f.boids@[i]
            == bs[i] by {
            lemma_follow_pass_no_neighbor(bs, *s, i);
        }
    }
}

/// The facing-direction unit vector of a boid, scaled to `TRIG_ONE`.
pub open spec fn spec_dir(b: Boid) -> Vec2 {
    Vec2 {
        x: crate::trig::spec_cos(b.heading as int) as i64,
        y: crate::trig::spec_sin(b.heading as int) as i64,
    }
}

/// Whether the boid at index `j` triggers a separation turn of the
/// boid at index `i`, whose evolving state within the pass is `b`: a
/// distinct boid strictly within the avoidance range, not exactly on
/// the subject's own position, within a third of a turn of directly
/// ahead of the current facing, and closer to the line along the
/// facing the subject had when its step began than the subject's
/// visual width.
pub open spec fn spec_avoid_qualifies(
    bs: Seq<Boid>,
    i: int,
    j: int,
    b: Boid,
    s: SimulationSettings,
) -> bool {
    &&& spec_nearby(bs, i, j, s.avoid_range as int)
    &&& bs[j].position != bs[i].position
    &&& {
        let hd = crate::trig::spec_heading(
            bs[j].position.x - bs[i].position.x,
            bs[j].position.y - bs[i].position.y,
        );
        -120_000_000 < crate::angle::spec_shortest_diff(hd, b.heading as int) < 120_000_000
    }
    &&& crate::vec2::spec_within_line_width(
        bs[i].position,
        spec_dir(bs[i]),
        bs[j].position,
        s.boid_width as int,
    )
}

/// The subject after one separation turn away from a neighbour at
/// `j_pos`: rotated by the separation strength away from the side of
/// its current facing line the neighbour lies on.
pub open spec fn spec_avoid_turned(b: Boid, j_pos: Vec2, strength: int) -> Boid {
    let p2 = Vec2 {
        x: (b.position.x + spec_dir(b).x) as i64,
        y: (b.position.y + spec_dir(b).y) as i64,
    };
    let side: int = if crate::vec2::spec_side_cross(b.position, p2, j_pos) >= 0 {
        1
    } else {
        -1
    };
    Boid { heading: crate::angle::spec_norm_angle(b.heading + strength * side) as i64, ..b }
}

/// The boid at index `i` after its separation step has looked at the
/// first `k` candidates in order, compounding one turn per qualifying
/// neighbour on its own evolving heading.
pub open spec fn spec_avoid_fold(bs: Seq<Boid>, i: int, k: int, s: SimulationSettings) -> Boid
    decreases k,
{
    if k <= 0 {
        bs[i]
    } else {
        let b = spec_avoid_fold(bs, i, k - 1, s);
        if spec_avoid_qualifies(bs, i, k - 1, b, s) {
            spec_avoid_turned(b, bs[k - 1].position, s.avoid_boid_strength as int)
        } else {
            b
        }
    }
}

/// Separation: each boid turns away from every distinct boid that is
/// within the avoidance range, ahead of it, and close to its heading
/// line, one compounding turn per qualifying neighbour; everything is
/// untouched when the behaviour or the run flag is off. No position,
/// speed or identity ever changes in this pass.
pub fn boid_avoid_others(f: &mut Flock, s: &SimulationSettings)
    requires
        old(f).well_formed(),
        s.well_formed(),
    ensures
        final(f).well_formed(),
        final(f).next_id == old(f).next_id,
        final(f).boids@.len() == old(f).boids@.len(),
        !(s.run && s.avoid_boids) ==> final(f).boids@ == old(f).boids@,
        s.run && s.avoid_boids ==> forall|i: int|
            0 <= i < old(f).boids@.len() ==> #[trigger] final(f).boids@[i] == spec_avoid_fold(
                old(f).boids@,
                i,
                old(f).boids@.len() as int,
                *s,
            ),
        forall|i: int|
            0 <= i < old(f).boids@.len() ==> {
                &&& (#[trigger] final(f).boids@[i]).position == old(f).boids@[i].position
                &&& final(f).boids@[i].speed == old(f).boids@[i].speed
                &&& final(f).boids@[i].id == old(f).boids@[i].id
            },
{
    if !s.avoid_boids || !s.run {
        return ;
    }
    let ghost bs = old(f).boids@;
    let n: usize = f.boids.len();
    let mut i: usize = 0;
    while i < n
        invariant
            old(f).well_formed(),
            s.well_formed(),
            s.run && s.avoid_boids,
            bs == old(f).boids@,
            n == bs.len(),
            f.boids@.len() == n,
            f.next_id == old(f).next_id,
            i <= n,
            forall|k: int| i <= k < n ==> f.boids@[k] == bs[k],
            forall|k: int|
                0 <= k < i ==> #[trigger] f.boids@[k] == spec_avoid_fold(bs, k, n as int, *s),
            forall|k: int|
                0 <= k < n ==> (#[trigger] f.boids@[k]).position == bs[k].position
                    && f.boids@[k].speed == bs[k].speed && f.boids@[k].id == bs[k].id,
            f.well_formed(),
        decreases n - i,
    {
        let orig: Boid = f.boids[i];
        let dir0: Vec2 = orig.dir_vec();
        proof {
            assert(dir0 == spec_dir(bs[i as int]));
        }
        let mut cur: Boid = orig;
        let mut j: usize = 0;
        while j < n
            invariant
                old(f).well_formed(),
                s.well_formed(),
                bs == old(f).boids@,
                n == bs.len(),
                f.boids@.len() == n,
                i < n,
                j <= n,
                forall|k: int| i <= k < n ==> f.boids@[k] == bs[k],
                forall|k: int|
                    0 <= k < n ==> (#[trigger] f.boids@[k]).position == bs[k].position
                        && f.boids@[k].speed == bs[k].speed && f.boids@[k].id == bs[k].id,
                f.well_formed(),
                orig == bs[i as int],
                dir0 == spec_dir(bs[i as int]),
                -crate::trig::TRIG_ONE <= dir0.x <= crate::trig::TRIG_ONE,
                -crate::trig::TRIG_ONE <= dir0.y <= crate::trig::TRIG_ONE,
                cur == spec_avoid_fold(bs, i as int, j as int, *s),
                cur.position == orig.position,
                cur.speed == orig.speed,
                cur.id == orig.id,
                cur.well_formed(),
            decreases n - j,
        {
            let cand: Boid = f.boids[j];
            if cand.id != orig.id && boid_is_nearby(orig.position, cand.position, s.avoid_range) {
                let dx: i64 = cand.position.x - orig.position.x;
                let dy: i64 = cand.position.y - orig.position.y;
                if dx != 0 || dy != 0 {
                    let hd: i64 = crate::trig::heading_units(dx, dy);
                    let d: i64 = crate::angle::shortest_diff(hd, cur.heading);
                    if -120_000_000 < d && d < 120_000_000 {
                        proof {
                            assert(-crate::fxp::RANGE_MAX <= dx <= crate::fxp::RANGE_MAX
                                && -crate::fxp::RANGE_MAX <= dy <= crate::fxp::RANGE_MAX)
                                by (nonlinear_arith)
                                requires
                                    dx == cand.position.x - orig.position.x,
                                    dy == cand.position.y - orig.position.y,
                                    (orig.position.x - cand.position.x) * (orig.position.x
                                        - cand.position.x) + (orig.position.y - cand.position.y) * (
                                    orig.position.y - cand.position.y) < s.avoid_range
                                        * s.avoid_range,
                                    0 <= s.avoid_range <= crate::fxp::RANGE_MAX;
                        }
                        if crate::vec2::line_distance_within(
                            orig.position,
                            dir0,
                            cand.position,
                            s.boid_width,
                        ) {
                            let ghost before = cur;
                            let cur_dir: Vec2 = cur.dir_vec();
                            proof {
                                assert(cur_dir == spec_dir(before));
                            }
                            let p2 = Vec2 {
                                x: cur.position.x + cur_dir.x,
                                y: cur.position.y + cur_dir.y,
                            };
                            let side: i8 = crate::vec2::side_of_line(
                                cur.position,
                                p2,
                                cand.position,
                            );
                            let delta: i64 = if side == 1 {
                                s.avoid_boid_strength
                            } else {
                                -s.avoid_boid_strength
                            };
                            cur.rotate(delta);
                            proof {
                                assert(spec_avoid_qualifies(bs, i as int, j as int, before, *s));
                                assert(cur == spec_avoid_turned(
                                    before,
                                    bs[j as int].position,
                                    s.avoid_boid_strength as int,
                                ));
                            }
                        }
                    }
                }
            }
            j = j + 1;
        }
        f.boids[i] = cur;
        i = i + 1;
    }
}

/// A boid fully past the right edge lands exactly on the mirrored
/// offset just past the left edge, and symmetrically for the other
/// three edges.
pub proof fn lemma_wraparound_mirror(x: int, half_bound: int, half_extent: int)
    requires
        half_bound >= 0,
        half_extent >= 0,
    ensures
        x - half_extent > half_bound ==> spec_wrap_coord(x, half_bound, half_extent) == -(
        half_bound + half_extent),
        x + half_extent < -half_bound ==> spec_wrap_coord(x, half_bound, half_extent) == half_bound
            + half_extent,
{
}

/// Wrapping a second time changes nothing: the landing point of a
/// wrapped boid lies inside the bounds plus its extent.
pub proof fn lemma_wraparound_idempotent(x: int, half_bound: int, half_extent: int)
    requires
        half_bound >= 0,
        half_extent >= 0,
    ensures
        spec_wrap_coord(spec_wrap_coord(x, half_bound, half_extent), half_bound, half_extent)
            == spec_wrap_coord(x, half_bound, half_extent),
{
}

/// The whole flock after the boundary handler.
pub open spec fn spec_wrap_pass(bs: Seq<Boid>, s: SimulationSettings) -> Seq<Boid> {
    Seq::new(bs.len(), |i: int| spec_wrapped(bs[i], s))
}

/// The whole flock after movement, the run flag folded in.
pub open spec fn spec_move_pass(bs: Seq<Boid>, s: SimulationSettings) -> Seq<Boid> {
    if !s.run {
        bs
    } else {
        Seq::new(bs.len(), |i: int| spec_moved(bs[i]))
    }
}

/// The whole flock after cohesion, its toggle and the run flag folded
/// in.
pub open spec fn spec_stick_pass(bs: Seq<Boid>, s: SimulationSettings) -> Seq<Boid> {
    if !(s.run && s.stick_together) {
        bs
    } else {
        Seq::new(bs.len(), |i: int| spec_stick_step(bs, i, s))
    }
}

/// The whole flock after alignment, its toggle and the run flag folded
/// in.
pub open spec fn spec_follow_full(bs: Seq<Boid>, s: SimulationSettings) -> Seq<Boid> {
    if !(s.run && s.follow_others) {
        bs
    } else {
        spec_follow_pass(bs, s, bs.len() as int)
    }
}

/// The whole flock after separation, its toggle and the run flag
/// folded in.
pub open spec fn spec_avoid_pass(bs: Seq<Boid>, s: SimulationSettings) -> Seq<Boid> {
    if !(s.run && s.avoid_boids) {
        bs
    } else {
        Seq::new(bs.len(), |i: int| spec_avoid_fold(bs, i, bs.len() as int, s))
    }
}

/// One whole simulation step: boundary handling, then movement, then
/// cohesion, then alignment, then separation, in that fixed order.
pub open spec fn spec_tick(bs: Seq<Boid>, s: SimulationSettings) -> Seq<Boid> {
    spec_avoid_pass(
        spec_follow_full(spec_stick_pass(spec_move_pass(spec_wrap_pass(bs, s), s), s), s),
        s,
    )
}

/// Runs one simulation step over the flock: boundary wraparound,
/// movement, cohesion, alignment, separation, each pass gated by its
/// own toggle and the run flag, each reading the state the passes
/// before it produced.
pub fn tick(f: &mut Flock, s: &SimulationSettings)
    requires
        old(f).well_formed(),
        s.well_formed(),
    ensures
        final(f).well_formed(),
        final(f).next_id == old(f).next_id,
        final(f).boids@.len() == old(f).boids@.len(),
        final(f).boids@ == spec_tick(old(f).boids@, *s),
{
    let ghost bs0 = old(f).boids@;
    boid_window_border_wraparound(f, s);
    let ghost bs1 = spec_wrap_pass(bs0, *s);
    proof {
        assert(f.boids@ =~= bs1);
    }
    move_boids(f, s);
    let ghost bs2 = spec_move_pass(bs1, *s);
    proof {
        assert(f.boids@ =~= bs2);
    }
    boid_stick_together(f, s);
    let ghost bs3 = spec_stick_pass(bs2, *s);
    proof {
        assert(f.boids@ =~= bs3);
    }
    boid_follow_others(f, s);
    let ghost bs4 = spec_follow_full(bs3, *s);
    proof {
        assert(f.boids@ =~= bs4);
    }
    boid_avoid_others(f, s);
    proof {
        assert(f.boids@ =~= spec_avoid_pass(bs4, *s));
    }
}

} // verus!
