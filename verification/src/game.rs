//! Sprite animation and per-instance simulation state.
//!
//! Timestamps are milliseconds from a monotonic clock, handed in by the
//! caller. A velocity component is measured in thousandths of a world unit
//! per second and a position component in millionths of a world unit, so
//! that integrating a velocity over an elapsed time in milliseconds is an
//! exact integer multiplication.

use vstd::arithmetic::div_mod::{
    lemma_add_mod_noop, lemma_add_mod_noop_right, lemma_mod_add_multiples_vanish, lemma_mod_bound,
    lemma_mod_self_0, lemma_small_mod,
};
use vstd::prelude::*;

pub mod ai;

verus! {

/// Number of position units (millionths of a world unit) in one world unit.
pub const MICROS_PER_UNIT: i64 = 1_000_000;

/// One of four cardinal facing values, used to pick which animation an
/// instance displays out of a four-entry table.
#[derive(Clone, Copy, Debug, PartialEq, Eq, Structural)]
pub enum Direction {
    S,
    W,
    N,
    E,
}

impl Direction {
    /// Position of this direction in a four-entry animation table:
    /// S is 0, W is 1, N is 2, E is 3.
    pub open spec fn spec_table_index(self) -> int {
        match self {
            Direction::S => 0,
            Direction::W => 1,
            Direction::N => 2,
            Direction::E => 3,
        }
    }

    pub fn table_index(&self) -> (i: usize)
        ensures
            i == self.spec_table_index(),
    {
        match self {
            Direction::S => 0,
            Direction::W => 1,
            Direction::N => 2,
            Direction::E => 3,
        }
    }
}

/// The dominant-axis facing rule. When the horizontal component dominates
/// strictly (`vx * vx > vy * vy`), a negative `vx` resolves to East and any
/// other `vx` to West; otherwise a negative `vy` resolves to South and any
/// other `vy` (ties included) to North. The East/West assignment is
/// deliberately swapped relative to a naive compass reading and is kept
/// exactly as the renderer expects it.
pub open spec fn spec_direction_from_velocity(vx: int, vy: int) -> Direction {
    if vx * vx > vy * vy {
        if vx < 0 {
            Direction::E
        } else {
            Direction::W
        }
    } else {
        if vy < 0 {
            Direction::S
        } else {
            Direction::N
        }
    }
}

/// The facing rule is total: every velocity resolves to one of the four
/// cardinal directions, and, being a function of the velocity alone, it
/// resolves equal velocities equally.
pub proof fn lemma_direction_resolution_total(vx: int, vy: int)
    ensures
        spec_direction_from_velocity(vx, vy) is S || spec_direction_from_velocity(vx, vy) is W
            || spec_direction_from_velocity(vx, vy) is N || spec_direction_from_velocity(
            vx,
            vy,
        ) is E,
{
}

/// An ordered list of sprite-sheet frame indices together with the number of
/// milliseconds each frame stays on screen.
pub struct Animation {
    pub frames: Vec<usize>,
    pub default_timing: u64,
}

/// The mathematical content of an `Animation`.
pub struct AnimationModel {
    pub frames: Seq<usize>,
    pub timing: int,
}

impl View for Animation {
    type V = AnimationModel;

    open spec fn view(&self) -> AnimationModel {
        AnimationModel { frames: self.frames@, timing: self.default_timing as int }
    }
}

impl Animation {
    /// An animation must have at least one frame and a positive timing
    /// interval; both are established at construction time.
    pub open spec fn wf(self) -> bool {
        self.frames.len() > 0 && self.default_timing > 0
    }
}

impl Clone for Animation {
    fn clone(&self) -> (r: Self)
        ensures
            r@ == self@,
    {
        let frames = self.frames.clone();
        proof {
            assert(frames@ =~= self.frames@);
        }
        Animation { frames, default_timing: self.default_timing }
    }
}

/// A per-instance cursor over an `Animation`, advancing on a timer.
pub struct Animator {
    pub current_frame: usize,
    pub current_frame_index: usize,
    pub last_frame_time: u64,
    pub animation: Animation,
}

/// The mathematical content of an `Animator`.
pub struct AnimatorModel {
    pub frame_index: int,
    pub current_frame: int,
    pub last_advance: int,
    pub animation: AnimationModel,
}

impl View for Animator {
    type V = AnimatorModel;

    open spec fn view(&self) -> AnimatorModel {
        AnimatorModel {
            frame_index: self.current_frame_index as int,
            current_frame: self.current_frame as int,
            last_advance: self.last_frame_time as int,
            animation: self.animation@,
        }
    }
}

/// One timer step of an animator: once strictly more than `timing`
/// milliseconds have passed since the last advance, the cursor moves to the
/// next frame of the cycle and the timer resets to `now`; otherwise nothing
/// changes. The frame index is reduced modulo the frame count, so an index
/// carried over from a longer animation re-enters the cycle.
pub open spec fn animator_advance(m: AnimatorModel, now: int) -> AnimatorModel {
    if m.animation.frames.len() > 0 && now - m.last_advance > m.animation.timing {
        let n = m.animation.frames.len() as int;
        let ni = (m.frame_index + 1) % n;
        AnimatorModel {
            frame_index: ni,
            current_frame: m.animation.frames[ni] as int,
            last_advance: now,
            animation: m.animation,
        }
    } else {
        m
    }
}

/// Stepping an index modulo `n` commutes with first reducing it modulo `n`.
proof fn lemma_next_index(i: int, n: int)
    requires
        0 <= i,
        0 < n,
    ensures
        0 <= (i % n + 1) % n < n,
        (i % n + 1) % n == (i + 1) % n,
{
    lemma_add_mod_noop(i, 1, n);
    if n == 1 {
        lemma_mod_self_0(1);
        lemma_mod_bound(i, 1);
    } else {
        lemma_small_mod(1nat, n as nat);
    }
    lemma_mod_bound(i % n + 1, n);
}

impl Animator {
    pub open spec fn wf(self) -> bool {
        self.animation.wf()
    }

    /// A fresh cursor over `animation`, displaying its first frame, with the
    /// timer starting at `now`.
    pub fn new(animation: Animation, now: u64) -> (a: Animator)
        requires
            animation.wf(),
        ensures
            a.wf(),
            a.current_frame_index == 0,
            a.current_frame == animation.frames@[0],
            a.last_frame_time == now,
            a.animation == animation,
    {
        Animator {
            current_frame_index: 0,
            current_frame: animation.frames[0],
            last_frame_time: now,
            animation,
        }
    }

    /// Advance the cursor if more than one timing interval has elapsed since
    /// the last advance, returning the new frame index; otherwise leave the
    /// animator exactly as it was and return nothing.
    pub fn update(&mut self, now: u64) -> (r: Option<usize>)
        requires
            old(self).wf(),
            old(self).last_frame_time <= now,
        ensures
            final(self).wf(),
            final(self).last_frame_time <= now,
            final(self)@ == animator_advance(old(self)@, now as int),
            if now - old(self).last_frame_time > old(self).animation.default_timing {
                r == Some(final(self).current_frame_index)
            } else {
                r is None && *final(self) == *old(self)
            },
    {
        if now - self.last_frame_time > self.animation.default_timing {
            let len = self.animation.frames.len();
            let base = self.current_frame_index % len;
            let ni = (base + 1) % len;
            proof {
                lemma_next_index(self.current_frame_index as int, len as int);
            }
            self.current_frame_index = ni;
            self.current_frame = self.animation.frames[ni];
            self.last_frame_time = now;
            Some(ni)
        } else {
            None
        }
    }
}

/// The animator model after a run of timer steps, one at each time in
/// `ts`, in order.
pub open spec fn animator_advance_seq(m: AnimatorModel, ts: Seq<int>) -> AnimatorModel
    decreases ts.len(),
{
    if ts.len() == 0 {
        m
    } else {
        animator_advance_seq(animator_advance(m, ts[0]), ts.subrange(1, ts.len() as int))
    }
}

/// Each time in `ts` leaves strictly more than one timing interval after
/// the advance before it, so each fires.
pub open spec fn spaced_times(m: AnimatorModel, ts: Seq<int>) -> bool {
    &&& (ts.len() > 0 ==> ts[0] - m.last_advance > m.animation.timing)
    &&& (forall|k: int| 0 <= k < ts.len() - 1 ==> ts[k + 1] - #[trigger] ts[k] > m.animation.timing)
}

/// A run of spaced advances moves the frame cursor forward by exactly one
/// position per advance, modulo the frame count: the cycle never skips a
/// frame and never repeats one out of order, and the timer ends at the
/// last of the times.
pub proof fn lemma_animator_advances(m: AnimatorModel, ts: Seq<int>)
    requires
        m.animation.frames.len() > 0,
        0 <= m.frame_index < m.animation.frames.len(),
        spaced_times(m, ts),
    ensures
        animator_advance_seq(m, ts).animation == m.animation,
        animator_advance_seq(m, ts).frame_index == (m.frame_index + ts.len()) % (
        m.animation.frames.len() as int),
        animator_advance_seq(m, ts).last_advance == if ts.len() > 0 {
            ts[ts.len() - 1]
        } else {
            m.last_advance
        },
        ts.len() > 0 ==> animator_advance_seq(m, ts).current_frame == m.animation.frames[(
        m.frame_index + ts.len()) % (m.animation.frames.len() as int)] as int,
    decreases ts.len(),
{
    let n = m.animation.frames.len() as int;
    if ts.len() == 0 {
        lemma_small_mod(m.frame_index as nat, n as nat);
    } else {
        let m1 = animator_advance(m, ts[0]);
        lemma_next_index(m.frame_index, n);
        lemma_mod_bound(m.frame_index + 1, n);
        let rest = ts.subrange(1, ts.len() as int);
        assert(spaced_times(m1, rest)) by {
            assert(forall|k: int|
                0 <= k < rest.len() - 1 ==> rest[k + 1] - #[trigger] rest[k] > m1.animation.timing)
                by {
                assert(forall|k: int|
                    0 <= k < rest.len() - 1 ==> rest[k + 1] == ts[k + 2] && #[trigger] rest[k]
                        == ts[k + 1]);
            }
        }
        lemma_animator_advances(m1, rest);
        assert((ts.len() - 1 + (m.frame_index + 1) % n) % n == (ts.len() - 1 + (m.frame_index + 1))
            % n) by {
            lemma_add_mod_noop_right(ts.len() - 1, m.frame_index + 1, n);
        }
    }
}

/// The animator's frame cycling is periodic with period equal to the frame
/// count: after exactly one advance per frame of the animation, each at a
/// spaced time, a coherent cursor shows the frame it started on again.
pub proof fn lemma_animator_cycle(m: AnimatorModel, ts: Seq<int>)
    requires
        m.animation.frames.len() > 0,
        0 <= m.frame_index < m.animation.frames.len(),
        m.current_frame == m.animation.frames[m.frame_index] as int,
        spaced_times(m, ts),
        ts.len() == m.animation.frames.len(),
    ensures
        animator_advance_seq(m, ts).frame_index == m.frame_index,
        animator_advance_seq(m, ts).current_frame == m.current_frame,
        animator_advance_seq(m, ts).animation == m.animation,
{
    let n = m.animation.frames.len() as int;
    lemma_animator_advances(m, ts);
    lemma_mod_add_multiples_vanish(m.frame_index, n);
    lemma_small_mod(m.frame_index as nat, n as nat);
}

/// A 3D position in millionths of a world unit; the z component is carried
/// along but never moved by the simulation.
#[derive(Clone, Copy, Debug, PartialEq, Eq, Structural)]
pub struct Position {
    pub x: i64,
    pub y: i64,
    pub z: i64,
}

/// A simulated entity: where it is, which way it faces, and the animation
/// cursor that drives its sprite.
pub struct Instance {
    pub position: Position,
    pub direction: Direction,
    pub frame: u32,
    pub animator: Animator,
}

/// The mathematical content of an `Instance`.
pub struct InstanceModel {
    pub x: int,
    pub y: int,
    pub z: int,
    pub direction: Direction,
    pub frame: int,
    pub animator: AnimatorModel,
}

impl View for Instance {
    type V = InstanceModel;

    open spec fn view(&self) -> InstanceModel {
        InstanceModel {
            x: self.position.x as int,
            y: self.position.y as int,
            z: self.position.z as int,
            direction: self.direction,
            frame: self.frame as int,
            animator: self.animator@,
        }
    }
}

impl Instance {
    pub open spec fn wf(self) -> bool {
        self.animator.wf()
    }

    /// Resolve a velocity to a facing direction by the dominant-axis rule.
    /// Total: any pair of components resolves, with ties going North.
    pub fn get_direction_from_velocity(velocity: (i64, i64)) -> (d: Direction)
        ensures
            d == spec_direction_from_velocity(velocity.0 as int, velocity.1 as int),
    {
        let (vx, vy) = velocity;
        let vx128: i128 = vx as i128;
        let vy128: i128 = vy as i128;
        proof {
            assert(vx128 * vx128 <= 0x40000000000000000000000000000000 && vx128 * vx128 >= 0)
                by (nonlinear_arith)
                requires
                    -0x8000000000000000 <= vx128 <= 0x8000000000000000,
            ;
            assert(vy128 * vy128 <= 0x40000000000000000000000000000000 && vy128 * vy128 >= 0)
                by (nonlinear_arith)
                requires
                    -0x8000000000000000 <= vy128 <= 0x8000000000000000,
            ;
        }
        let sx = vx128 * vx128;
        let sy = vy128 * vy128;
        if sx > sy {
            if vx < 0 {
                Direction::E
            } else {
                Direction::W
            }
        } else {
            if vy < 0 {
                Direction::S
            } else {
                Direction::N
            }
        }
    }
}

/// The per-frame timing interval of the built-in animations, in
/// milliseconds.
pub const DEFAULT_TIMING_MS: u64 = 100;

/// How many instances the default roster holds.
pub const ROSTER_COUNT: usize = 20;

/// Total sprite-sheet frame count across the four directional animations.
pub const SPRITE_FRAME_COUNT: u32 = 24;

/// The y coordinate every instance starts at, in millionths of a unit
/// (two world units up).
pub const INITIAL_Y_MICROS: i64 = 2_000_000;

/// The largest elapsed time one tick may integrate, in milliseconds.
pub const DT_LIMIT_MS: u64 = 1_000_000_000;

/// Positions handed to a tick must lie within this magnitude so that one
/// step of integration cannot overflow a 64-bit component
/// (`POS_LIMIT_MICROS + VEL_SCALE * DT_LIMIT_MS` still fits in `i64`).
pub const POS_LIMIT_MICROS: i64 = 9_000_000_000_000_000_000;

/// The x and y components are small enough that adding one tick's worth of
/// movement cannot overflow.
pub open spec fn position_in_bounds(p: Position) -> bool {
    &&& -POS_LIMIT_MICROS <= p.x <= POS_LIMIT_MICROS
    &&& -POS_LIMIT_MICROS <= p.y <= POS_LIMIT_MICROS
}

/// The views of a table of animations.
pub open spec fn spec_animation_models(s: Seq<Animation>) -> Seq<AnimationModel> {
    Seq::new(s.len(), |i: int| s[i]@)
}

/// Five consecutive sprite-sheet frame indices starting at `first`: the
/// frame list of one directional animation.
fn frame_range(first: usize) -> (v: Vec<usize>)
    requires
        first + 5 <= usize::MAX,
    ensures
        v@.len() == 5,
        forall|j: int| 0 <= j < 5 ==> v@[j] == first + j,
{
    let mut v: Vec<usize> = Vec::new();
    v.push(first);
    v.push(first + 1);
    v.push(first + 2);
    v.push(first + 3);
    v.push(first + 4);
    v
}

/// The walking phase of one tick for one instance: a standing controller
/// leaves it untouched; a walking controller moves the position by velocity
/// times elapsed time, re-resolves the facing direction from the velocity,
/// and, exactly when that direction differs from the current one, rebinds
/// the animator to the new direction's animation from the table. The
/// animator's frame cursor and timer are never touched here; in particular
/// a rebind carries the old frame index over instead of resetting it.
pub open spec fn walk_apply(
    im: InstanceModel,
    st: ai::State,
    anims: Seq<AnimationModel>,
    dt: int,
) -> InstanceModel {
    match st {
        ai::State::Walking { velocity, .. } => {
            let d = spec_direction_from_velocity(velocity.0 as int, velocity.1 as int);
            let anim = if d == im.direction {
                im.animator.animation
            } else {
                anims[d.spec_table_index()]
            };
            InstanceModel {
                x: im.x + velocity.0 * dt,
                y: im.y + velocity.1 * dt,
                z: im.z,
                direction: d,
                frame: im.frame,
                animator: AnimatorModel { animation: anim, ..im.animator },
            }
        },
        ai::State::Standing { .. } => im,
    }
}

/// One full tick for one instance, given the controller state the tick
/// settled on: the walking phase above, followed by one animator step —
/// the latter only when some time actually elapsed.
pub open spec fn instance_tick(
    im: InstanceModel,
    st: ai::State,
    anims: Seq<AnimationModel>,
    dt: int,
    now: int,
) -> InstanceModel {
    let w = walk_apply(im, st, anims, dt);
    if dt > 0 {
        InstanceModel { animator: animator_advance(w.animator, now), ..w }
    } else {
        w
    }
}

/// When a walking instance's resolved direction differs from its current
/// facing, the tick rebinds its animator to the resolved direction's
/// animation from the table and carries the frame cursor over unchanged —
/// the index is not reset to zero. The displayed frame then changes only
/// through the normal timer step: if one fires in the same tick it shows
/// the new frame list at the stepped carried index, and otherwise the
/// previously displayed frame value stays on screen until one does.
pub proof fn lemma_direction_rebinding(
    im: InstanceModel,
    st: ai::State,
    anims: Seq<AnimationModel>,
    dt: int,
    now: int,
)
    requires
        st is Walking,
        spec_direction_from_velocity(
            ai::state_velocity(st).0 as int,
            ai::state_velocity(st).1 as int,
        ) != im.direction,
    ensures
        ({
            let d = spec_direction_from_velocity(
                ai::state_velocity(st).0 as int,
                ai::state_velocity(st).1 as int,
            );
            let reb = anims[d.spec_table_index()];
            let t = instance_tick(im, st, anims, dt, now);
            let fires = dt > 0 && reb.frames.len() > 0 && now - im.animator.last_advance
                > reb.timing;
            &&& t.direction == d
            &&& t.animator.animation == reb
            &&& fires ==> t.animator.frame_index == (im.animator.frame_index + 1) % (
            reb.frames.len() as int) && t.animator.current_frame == reb.frames[t.animator.frame_index] as int
            &&& !fires ==> t.animator.frame_index == im.animator.frame_index
                && t.animator.current_frame == im.animator.current_frame
        }),
{
}

/// The initial state of instance `i` of a roster built over the animation
/// table `anims` at time `now`: at the fixed start position, facing North,
/// with a fresh animator over `anims[i % 4]`.
pub open spec fn initial_instance_model(anims: Seq<AnimationModel>, i: int, now: u64) -> InstanceModel {
    let a = anims[i % 4];
    InstanceModel {
        x: 0,
        y: INITIAL_Y_MICROS as int,
        z: 0,
        direction: Direction::N,
        frame: 0,
        animator: AnimatorModel {
            frame_index: 0,
            current_frame: a.frames[0] as int,
            last_advance: now as int,
            animation: a,
        },
    }
}

/// The views of the four built-in directional animations: five consecutive
/// sprite-sheet frames each, in table order South, West, North, East, all
/// on the default timing.
pub open spec fn default_animation_models() -> Seq<AnimationModel> {
    seq![
        AnimationModel { frames: seq![0usize, 1, 2, 3, 4], timing: DEFAULT_TIMING_MS as int },
        AnimationModel { frames: seq![6usize, 7, 8, 9, 10], timing: DEFAULT_TIMING_MS as int },
        AnimationModel { frames: seq![12usize, 13, 14, 15, 16], timing: DEFAULT_TIMING_MS as int },
        AnimationModel { frames: seq![18usize, 19, 20, 21, 22], timing: DEFAULT_TIMING_MS as int },
    ]
}

/// The whole simulation state: a fixed roster of instances, the controller
/// that drives each (pairing is positional), and the four-entry table of
/// directional animations they share.
pub struct GameState {
    pub last_frame: u64,
    pub time_delta: Option<u64>,
    pub current_sprite_frame: u32,
    pub sprite_frame_count: u32,
    pub last_sprite_frame_time: u64,
    pub instances: Vec<Instance>,
    pub ai_controllers: Vec<ai::AIController>,
    pub animations: Vec<Animation>,
}

impl GameState {
    /// Internal consistency: controller `i` drives instance `i`; the table
    /// holds one well-formed animation per direction; every animator is
    /// well formed; and no timestamp held anywhere lies in the future of
    /// `last_frame`.
    pub open spec fn wf(self) -> bool {
        &&& self.instances@.len() == self.ai_controllers@.len()
        &&& self.animations@.len() == 4
        &&& forall|i: int| 0 <= i < 4 ==> (#[trigger] self.animations@[i]).wf()
        &&& forall|i: int|
            0 <= i < self.instances@.len() ==> (#[trigger] self.instances@[i]).wf()
        &&& forall|i: int|
            0 <= i < self.instances@.len() ==> (
            #[trigger] self.instances@[i]).animator.last_frame_time <= self.last_frame
        &&& forall|i: int|
            0 <= i < self.ai_controllers@.len() ==> ai::state_wf(
                (#[trigger] self.ai_controllers@[i]).state,
            )
        &&& forall|i: int|
            0 <= i < self.ai_controllers@.len() ==> ai::state_started(
                (#[trigger] self.ai_controllers@[i]).state,
            ) <= self.last_frame
    }

    /// A roster of `count` instances over the four-entry animation table
    /// `animations`, instance `i` starting on animation `i % 4`, every
    /// instance at the fixed start position facing North and every
    /// controller standing for the fixed initial duration from `now` on.
    #[verifier::loop_isolation(false)]
    pub fn with_roster(count: usize, animations: Vec<Animation>, now: u64) -> (g: GameState)
        requires
            animations@.len() == 4,
            forall|i: int| 0 <= i < 4 ==> (#[trigger] animations@[i]).wf(),
        ensures
            g.wf(),
            g.last_frame == now,
            g.time_delta == Some(0u64),
            g.current_sprite_frame == 0,
            g.sprite_frame_count == SPRITE_FRAME_COUNT,
            g.last_sprite_frame_time == now,
            g.animations@ == animations@,
            g.instances@.len() == count,
            g.ai_controllers@.len() == count,
            forall|i: int|
                0 <= i < count ==> #[trigger] g.instances@[i]@ == initial_instance_model(
                    spec_animation_models(animations@),
                    i,
                    now,
                ),
            forall|i: int|
                0 <= i < count ==> (#[trigger] g.ai_controllers@[i]).state == (ai::State::Standing {
                    duration: ai::INITIAL_STANDING_MS,
                    started: now,
                }),
    {
        let mut instances: Vec<Instance> = Vec::new();
        let mut ai_controllers: Vec<ai::AIController> = Vec::new();
        let mut i: usize = 0;
        while i < count
            invariant
                i <= count,
                instances@.len() == i,
                ai_controllers@.len() == i,
                forall|j: int|
                    0 <= j < i ==> #[trigger] instances@[j]@ == initial_instance_model(
                        spec_animation_models(animations@),
                        j,
                        now,
                    ),
                forall|j: int| 0 <= j < i ==> (#[trigger] instances@[j]).wf(),
                forall|j: int|
                    0 <= j < i ==> (#[trigger] instances@[j]).animator.last_frame_time == now,
                forall|j: int|
                    0 <= j < i ==> (#[trigger] ai_controllers@[j]).state == (ai::State::Standing {
                        duration: ai::INITIAL_STANDING_MS,
                        started: now,
                    }),
            decreases count - i,
        {
            let idx = i % 4;
            let anim = animations[idx].clone();
            assert(anim.wf());
            instances.push(
                Instance {
                    position: Position { x: 0, y: INITIAL_Y_MICROS, z: 0 },
                    direction: Direction::N,
                    frame: 0,
                    animator: Animator::new(anim, now),
                },
            );
            ai_controllers.push(ai::AIController::new(now));
            i += 1;
        }
        GameState {
            last_frame: now,
            time_delta: Some(0),
            current_sprite_frame: 0,
            sprite_frame_count: SPRITE_FRAME_COUNT,
            last_sprite_frame_time: now,
            instances,
            ai_controllers,
            animations,
        }
    }

    /// The default simulation: the four built-in five-frame directional
    /// animations and a roster of twenty instances, at time `now`.
    pub fn new(now: u64) -> (g: GameState)
        ensures
            g.wf(),
            g.last_frame == now,
            g.time_delta == Some(0u64),
            g.current_sprite_frame == 0,
            g.sprite_frame_count == SPRITE_FRAME_COUNT,
            g.last_sprite_frame_time == now,
            spec_animation_models(g.animations@) == default_animation_models(),
            g.instances@.len() == ROSTER_COUNT,
            g.ai_controllers@.len() == ROSTER_COUNT,
            forall|i: int|
                0 <= i < ROSTER_COUNT ==> #[trigger] g.instances@[i]@ == initial_instance_model(
                    default_animation_models(),
                    i,
                    now,
                ),
            forall|i: int|
                0 <= i < ROSTER_COUNT ==> (#[trigger] g.ai_controllers@[i]).state == (
                ai::State::Standing { duration: ai::INITIAL_STANDING_MS, started: now }),
    {
        let mut animations: Vec<Animation> = Vec::new();
        animations.push(Animation { frames: frame_range(0), default_timing: DEFAULT_TIMING_MS });
        animations.push(Animation { frames: frame_range(6), default_timing: DEFAULT_TIMING_MS });
        animations.push(Animation { frames: frame_range(12), default_timing: DEFAULT_TIMING_MS });
        animations.push(Animation { frames: frame_range(18), default_timing: DEFAULT_TIMING_MS });
        proof {
            assert(spec_animation_models(animations@) =~= default_animation_models()) by {
                assert(animations@[0]@.frames =~= seq![0usize, 1, 2, 3, 4]);
                assert(animations@[1]@.frames =~= seq![6usize, 7, 8, 9, 10]);
                assert(animations@[2]@.frames =~= seq![12usize, 13, 14, 15, 16]);
                assert(animations@[3]@.frames =~= seq![18usize, 19, 20, 21, 22]);
            }
        }
        GameState::with_roster(ROSTER_COUNT, animations, now)
    }

    /// One simulation tick at time `now` (monotonic, in milliseconds).
    ///
    /// First every controller takes one step of the wandering process, in
    /// roster order; each instance whose controller ends up walking is
    /// moved by that walk's velocity over the elapsed time and has its
    /// facing direction re-resolved, rebinding its animator when the
    /// direction changed. Then, if any time elapsed at all, every animator
    /// takes one timer step — standing instances keep animating too. A
    /// zero-length tick still runs the wandering and direction logic but
    /// leaves every animator untouched.
    #[verifier::loop_isolation(false)]
    pub fn update(&mut self, now: u64)
        requires
            old(self).wf(),
            old(self).last_frame <= now,
            now - old(self).last_frame <= DT_LIMIT_MS,
            forall|i: int|
                0 <= i < old(self).instances@.len() ==> position_in_bounds(
                    (#[trigger] old(self).instances@[i]).position,
                ),
        ensures
            final(self).wf(),
            final(self).last_frame == now,
            final(self).time_delta == Some((now - old(self).last_frame) as u64),
            final(self).animations@ == old(self).animations@,
            final(self).current_sprite_frame == old(self).current_sprite_frame,
            final(self).sprite_frame_count == old(self).sprite_frame_count,
            final(self).last_sprite_frame_time == old(self).last_sprite_frame_time,
            final(self).instances@.len() == old(self).instances@.len(),
            final(self).ai_controllers@.len() == old(self).ai_controllers@.len(),
            forall|i: int|
                0 <= i < old(self).ai_controllers@.len() ==> ai::ctrl_step(
                    (#[trigger] old(self).ai_controllers@[i]).state,
                    final(self).ai_controllers@[i].state,
                    now,
                ),
            forall|i: int|
                0 <= i < old(self).instances@.len() ==> #[trigger] final(self).instances@[i]@
                    == instance_tick(
                    old(self).instances@[i]@,
                    final(self).ai_controllers@[i].state,
                    spec_animation_models(old(self).animations@),
                    now - old(self).last_frame,
                    now as int,
                ),
    {
        let ghost s0 = *self;
        let dt = now - self.last_frame;
        self.time_delta = Some(dt);
        self.last_frame = now;

        let n = self.ai_controllers.len();
        let mut i: usize = 0;
        while i < n
            invariant
                i <= n,
                self.instances@.len() == n,
                self.ai_controllers@.len() == n,
                self.animations@ == s0.animations@,
                self.last_frame == now,
                self.time_delta == Some(dt),
                self.current_sprite_frame == s0.current_sprite_frame,
                self.sprite_frame_count == s0.sprite_frame_count,
                self.last_sprite_frame_time == s0.last_sprite_frame_time,
                forall|j: int|
                    0 <= j < i ==> ai::ctrl_step(
                        (#[trigger] s0.ai_controllers@[j]).state,
                        self.ai_controllers@[j].state,
                        now,
                    ),
                forall|j: int|
                    0 <= j < i ==> ai::state_wf((#[trigger] self.ai_controllers@[j]).state),
                forall|j: int|
                    0 <= j < i ==> ai::state_started((#[trigger] self.ai_controllers@[j]).state)
                        <= now,
                forall|j: int|
                    0 <= j < i ==> #[trigger] self.instances@[j]@ == walk_apply(
                        s0.instances@[j]@,
                        self.ai_controllers@[j].state,
                        spec_animation_models(s0.animations@),
                        dt as int,
                    ),
                forall|j: int| 0 <= j < i ==> (#[trigger] self.instances@[j]).wf(),
                forall|j: int|
                    0 <= j < i ==> (#[trigger] self.instances@[j]).animator.last_frame_time <= now,
                forall|j: int| i <= j < n ==> #[trigger] self.instances@[j] == s0.instances@[j],
                forall|j: int|
                    i <= j < n ==> #[trigger] self.ai_controllers@[j] == s0.ai_controllers@[j],
            decreases n - i,
        {
            self.ai_controllers[i].update(now);
            let st = self.ai_controllers[i].state;
            match st {
                ai::State::Walking { velocity, .. } => {
                    let (vx, vy) = velocity;
                    let dtl = dt as i64;
                    proof {
                        assert(-1_000_000_000_000 <= vx * dtl <= 1_000_000_000_000)
                            by (nonlinear_arith)
                            requires
                                -1000 <= vx <= 1000,
                                0 <= dtl <= 1_000_000_000,
                        ;
                        assert(-1_000_000_000_000 <= vy * dtl <= 1_000_000_000_000)
                            by (nonlinear_arith)
                            requires
                                -1000 <= vy <= 1000,
                                0 <= dtl <= 1_000_000_000,
                        ;
                    }
                    let mx = vx * dtl;
                    let my = vy * dtl;
                    let nd = Instance::get_direction_from_velocity(velocity);
                    let rebind = nd != self.instances[i].direction;
                    if rebind {
                        let anim = self.animations[nd.table_index()].clone();
                        let inst = &mut self.instances[i];
                        inst.animator.animation = anim;
                    }
                    let inst = &mut self.instances[i];
                    inst.position.x = inst.position.x + mx;
                    inst.position.y = inst.position.y + my;
                    inst.direction = nd;
                },
                ai::State::Standing { .. } => {},
            }
            i += 1;
        }

        if dt > 0 {
            let ghost s1 = *self;
            let mut i: usize = 0;
            while i < n
                invariant
                    i <= n,
                    s1.instances@.len() == n,
                    s1.ai_controllers@.len() == n,
                    forall|j: int|
                        0 <= j < n ==> #[trigger] s1.instances@[j]@ == walk_apply(
                            s0.instances@[j]@,
                            s1.ai_controllers@[j].state,
                            spec_animation_models(s0.animations@),
                            dt as int,
                        ),
                    forall|j: int| 0 <= j < n ==> (#[trigger] s1.instances@[j]).wf(),
                    forall|j: int|
                        0 <= j < n ==> (#[trigger] s1.instances@[j]).animator.last_frame_time
                            <= now,
                    forall|j: int|
                        0 <= j < n ==> ai::ctrl_step(
                            (#[trigger] s0.ai_controllers@[j]).state,
                            s1.ai_controllers@[j].state,
                            now,
                        ),
                    forall|j: int|
                        0 <= j < n ==> ai::state_wf((#[trigger] s1.ai_controllers@[j]).state),
                    forall|j: int|
                        0 <= j < n ==> ai::state_started(
                            (#[trigger] s1.ai_controllers@[j]).state,
                        ) <= now,
                    self.instances@.len() == n,
                    self.ai_controllers@ == s1.ai_controllers@,
                    self.animations@ == s1.animations@,
                    self.last_frame == now,
                    self.time_delta == Some(dt),
                    self.current_sprite_frame == s1.current_sprite_frame,
                    self.sprite_frame_count == s1.sprite_frame_count,
                    self.last_sprite_frame_time == s1.last_sprite_frame_time,
                    forall|j: int|
                        0 <= j < i ==> #[trigger] self.instances@[j]@ == instance_tick(
                            s0.instances@[j]@,
                            self.ai_controllers@[j].state,
                            spec_animation_models(s0.animations@),
                            dt as int,
                            now as int,
                        ),
                    forall|j: int| 0 <= j < i ==> (#[trigger] self.instances@[j]).wf(),
                    forall|j: int|
                        0 <= j < i ==> (#[trigger] self.instances@[j]).animator.last_frame_time
                            <= now,
                    forall|j: int| i <= j < n ==> #[trigger] self.instances@[j] == s1.instances@[j],
                decreases n - i,
            {
                assert(self.instances@[i as int] == s1.instances@[i as int]);
                assert((self.instances@[i as int]).wf());
                let inst = &mut self.instances[i];
                let _advanced = inst.animator.update(now);
                proof {
                    let j = i as int;
                    let w = walk_apply(
                        s0.instances@[j]@,
                        self.ai_controllers@[j].state,
                        spec_animation_models(s0.animations@),
                        dt as int,
                    );
                    assert(s1.instances@[j]@ == w);
                    assert(self.instances@[j]@.animator == animator_advance(
                        w.animator,
                        now as int,
                    ));
                    assert(self.instances@[j]@ == instance_tick(
                        s0.instances@[j]@,
                        self.ai_controllers@[j].state,
                        spec_animation_models(s0.animations@),
                        dt as int,
                        now as int,
                    ));
                }
                i += 1;
            }
        }
    }
}

} // verus!
