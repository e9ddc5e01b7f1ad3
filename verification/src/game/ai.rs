//! The wandering-motion ("ambient AI") state machine: a per-instance,
//! timer-driven process that alternates forever between standing still and
//! walking with a randomly drawn velocity, each phase lasting a randomly
//! drawn duration.

use vstd::prelude::*;

verus! {

/// How long the very first standing phase lasts, in milliseconds.
pub const INITIAL_STANDING_MS: u64 = 2000;

/// The deterministic minimum of every later phase duration, in milliseconds.
pub const MIN_PHASE_MS: u64 = 800;

/// The random jitter added on top of `MIN_PHASE_MS` is drawn below this
/// bound, so sampled durations lie in `[800, 1799]` milliseconds.
pub const PHASE_JITTER_MS: u64 = 1000;

/// Magnitude bound of a velocity component, in thousandths of a world unit
/// per second; components are drawn from `[-VEL_SCALE, VEL_SCALE]`.
pub const VEL_SCALE: i64 = 1000;

/// Number of distinct values a sampled velocity component can take
/// (`2 * VEL_SCALE + 1`).
pub const VEL_SPAN: u64 = 2001;

/// The two phases of the wandering process. Exactly one is active at a
/// time; `started` is the timestamp at which the phase was entered and
/// `duration` how long it is due to last. A walking phase also carries the
/// velocity, in thousandths of a world unit per second per component, which
/// is dropped when the phase ends.
#[derive(Clone, Copy, Debug)]
pub enum State {
    Standing { duration: u64, started: u64 },
    Walking { duration: u64, started: u64, velocity: (i64, i64) },
}

/// The timestamp at which the current phase was entered.
pub open spec fn state_started(s: State) -> u64 {
    match s {
        State::Standing { started, .. } => started,
        State::Walking { started, .. } => started,
    }
}

/// How long the current phase is due to last.
pub open spec fn state_duration(s: State) -> u64 {
    match s {
        State::Standing { duration, .. } => duration,
        State::Walking { duration, .. } => duration,
    }
}

/// The velocity carried by a walking phase; a standing phase moves nothing.
pub open spec fn state_velocity(s: State) -> (i64, i64) {
    match s {
        State::Walking { velocity, .. } => velocity,
        State::Standing { .. } => (0, 0),
    }
}

/// A walking phase never carries a velocity component outside
/// `[-VEL_SCALE, VEL_SCALE]`.
pub open spec fn state_wf(s: State) -> bool {
    match s {
        State::Walking { velocity, .. } => -VEL_SCALE <= velocity.0 <= VEL_SCALE && -VEL_SCALE
            <= velocity.1 <= VEL_SCALE,
        State::Standing { .. } => true,
    }
}

/// A randomized phase length: the fixed minimum plus jitter drawn from the
/// raw value `r`.
pub open spec fn sampled_duration(r: u64) -> u64 {
    (MIN_PHASE_MS + r % PHASE_JITTER_MS) as u64
}

/// A velocity component folded from the raw value `r` into
/// `[-VEL_SCALE, VEL_SCALE]`.
pub open spec fn sampled_velocity(r: u64) -> i64 {
    (r % VEL_SPAN - VEL_SCALE) as i64
}

/// One tick of the state machine, given the raw random draws: a phase whose
/// duration has strictly elapsed flips to the other phase, re-stamped at
/// `now` with a freshly sampled duration (and, when entering a walk, a
/// freshly sampled velocity); otherwise the state is left untouched.
pub open spec fn ctrl_step_with(s: State, now: u64, r_dur: u64, r_vx: u64, r_vy: u64) -> State {
    match s {
        State::Standing { duration, started } => {
            if now - started > duration {
                State::Walking {
                    duration: sampled_duration(r_dur),
                    started: now,
                    velocity: (sampled_velocity(r_vx), sampled_velocity(r_vy)),
                }
            } else {
                s
            }
        },
        State::Walking { duration, started, .. } => {
            if now - started > duration {
                State::Standing { duration: sampled_duration(r_dur), started: now }
            } else {
                s
            }
        },
    }
}

/// What one tick may do to the state, whatever the random source returned:
/// on a strictly elapsed phase the variant flips, the new phase starts at
/// `now`, its duration lies in `[MIN_PHASE_MS, MIN_PHASE_MS +
/// PHASE_JITTER_MS)`, and any new velocity component lies in
/// `[-VEL_SCALE, VEL_SCALE]`; on anything else the state is unchanged.
pub open spec fn ctrl_step(s0: State, s1: State, now: u64) -> bool {
    if now - state_started(s0) > state_duration(s0) {
        match s0 {
            State::Standing { .. } => {
                &&& s1 matches State::Walking { duration, started, velocity }
                &&& started == now
                &&& MIN_PHASE_MS <= duration < MIN_PHASE_MS + PHASE_JITTER_MS
                &&& -VEL_SCALE <= velocity.0 <= VEL_SCALE
                &&& -VEL_SCALE <= velocity.1 <= VEL_SCALE
            },
            State::Walking { .. } => {
                &&& s1 matches State::Standing { duration, started }
                &&& started == now
                &&& MIN_PHASE_MS <= duration < MIN_PHASE_MS + PHASE_JITTER_MS
            },
        }
    } else {
        s1 == s0
    }
}

/// Every phase length sampled after the first standing phase falls in
/// `[MIN_PHASE_MS, MIN_PHASE_MS + PHASE_JITTER_MS)`, that is `[800, 1799]`
/// milliseconds, whatever the random source returned.
pub proof fn lemma_sampled_duration_in_range(r: u64)
    ensures
        MIN_PHASE_MS <= sampled_duration(r) < MIN_PHASE_MS + PHASE_JITTER_MS,
{
}

/// Every sampled velocity component falls in `[-VEL_SCALE, VEL_SCALE]`,
/// whatever the random source returned.
pub proof fn lemma_sampled_velocity_in_range(r: u64)
    ensures
        -VEL_SCALE <= sampled_velocity(r) <= VEL_SCALE,
{
}

/// On every tick whose phase has strictly elapsed, the phases strictly
/// alternate: standing flips to walking and walking flips to standing,
/// never standing to standing nor walking to walking. (That the controller
/// is in exactly one phase at a time is the shape of `State` itself.)
pub proof fn lemma_state_alternates(s0: State, s1: State, now: u64)
    requires
        ctrl_step(s0, s1, now),
        now - state_started(s0) > state_duration(s0),
    ensures
        s0 is Standing <==> s1 is Walking,
        s0 is Walking <==> s1 is Standing,
{
}

/// Relies on `rand::random` (a draw from the thread-local uniform
/// generator). Nothing is promised of the drawn value: every caller must be
/// correct for every possible draw.
#[verifier::external_body]
fn random_u64() -> u64 {
    rand::random()
}

/// A per-instance wandering-motion controller owning the current phase.
#[derive(Clone, Copy, Debug)]
pub struct AIController {
    pub state: State,
}

impl AIController {
    pub open spec fn wf(self) -> bool {
        state_wf(self.state)
    }

    /// A fresh controller, standing still for the fixed initial duration
    /// from `now` on.
    pub fn new(now: u64) -> (c: AIController)
        ensures
            c.wf(),
            c.state == (State::Standing { duration: INITIAL_STANDING_MS, started: now }),
    {
        AIController { state: State::Standing { duration: INITIAL_STANDING_MS, started: now } }
    }

    /// One tick with the raw random draws supplied by the caller: fully
    /// deterministic, so a test can drive the machine with a chosen
    /// sequence. `r_dur` seeds the next duration; `r_vx` and `r_vy` seed
    /// the velocity when a walking phase begins and are ignored otherwise.
    pub fn update_with(&mut self, now: u64, r_dur: u64, r_vx: u64, r_vy: u64)
        requires
            state_started(old(self).state) <= now,
        ensures
            final(self).state == ctrl_step_with(old(self).state, now, r_dur, r_vx, r_vy),
            ctrl_step(old(self).state, final(self).state, now),
            old(self).wf() ==> final(self).wf(),
    {
        match self.state {
            State::Standing { duration, started } => {
                if now - started > duration {
                    let jitter = r_dur % PHASE_JITTER_MS;
                    let vx = (r_vx % VEL_SPAN) as i64 - VEL_SCALE;
                    let vy = (r_vy % VEL_SPAN) as i64 - VEL_SCALE;
                    self.state = State::Walking {
                        duration: MIN_PHASE_MS + jitter,
                        started: now,
                        velocity: (vx, vy),
                    };
                }
            },
            State::Walking { duration, started, .. } => {
                if now - started > duration {
                    let jitter = r_dur % PHASE_JITTER_MS;
                    self.state = State::Standing { duration: MIN_PHASE_MS + jitter, started: now };
                }
            },
        }
    }

    /// One tick of the wandering process, drawing from the process-wide
    /// random source. Alternates between standing and walking forever; the
    /// postcondition holds whatever values the source returns.
    pub fn update(&mut self, now: u64)
        requires
            state_started(old(self).state) <= now,
        ensures
            ctrl_step(old(self).state, final(self).state, now),
            old(self).wf() ==> final(self).wf(),
    {
        let r_dur = random_u64();
        let r_vx = random_u64();
        let r_vy = random_u64();
        self.update_with(now, r_dur, r_vx, r_vy);
    }
}

} // verus!
