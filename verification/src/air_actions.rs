//! Air action budget: how many times each one-shot action has begun since
//! the character last stood on a standing surface.
//!
//! The composer permits an action in the air while its count is at or
//! under the configured limit; the count includes the use that left the
//! ground, so the limit is the number of additional air re-uses.

use vstd::prelude::*;

verus! {

/// Identity of a layered one-shot action.
#[derive(Clone, Copy, Debug, PartialEq, Eq, Structural)]
pub enum ActionKind {
    Jump,
    Dash,
    Crouch,
}

/// Saturation bound of an action counter.
pub const COUNT_MAX: u64 = 0xffff_ffff_ffff_ffffu64;

/// Per-action counters of initiations since the last ground contact.
#[derive(Clone, Copy, Debug, PartialEq, Eq, Structural)]
pub struct AirActionsTracker {
    pub jump_count: u64,
    pub dash_count: u64,
    pub crouch_count: u64,
}

/// The counter of one action kind.
pub open spec fn count_of(t: AirActionsTracker, kind: ActionKind) -> u64 {
    match kind {
        ActionKind::Jump => t.jump_count,
        ActionKind::Dash => t.dash_count,
        ActionKind::Crouch => t.crouch_count,
    }
}

/// A counter one higher, saturating at the bound.
pub open spec fn bump(c: u64) -> u64 {
    if c == COUNT_MAX {
        c
    } else {
        (c + 1) as u64
    }
}

/// The tracker after one frame: grounded resets every counter; an action
/// newly begun while airborne bumps its own counter and no other; an
/// airborne frame without a new action changes nothing.
pub open spec fn update_spec(
    t: AirActionsTracker,
    grounded: bool,
    started: Option<ActionKind>,
) -> AirActionsTracker {
    if grounded {
        AirActionsTracker { jump_count: 0, dash_count: 0, crouch_count: 0 }
    } else {
        match started {
            None => t,
            Some(ActionKind::Jump) => AirActionsTracker { jump_count: bump(t.jump_count), ..t },
            Some(ActionKind::Dash) => AirActionsTracker { dash_count: bump(t.dash_count), ..t },
            Some(ActionKind::Crouch) => AirActionsTracker {
                crouch_count: bump(t.crouch_count),
                ..t
            },
        }
    }
}

impl AirActionsTracker {
    /// A tracker with every counter at zero.
    pub fn new() -> (r: AirActionsTracker)
        ensures
            r == (AirActionsTracker { jump_count: 0, dash_count: 0, crouch_count: 0 }),
    {
        AirActionsTracker { jump_count: 0, dash_count: 0, crouch_count: 0 }
    }

    /// Absorb one frame of motion state reported by the physics layer.
    pub fn update(&mut self, grounded: bool, started: Option<ActionKind>)
        ensures
            *final(self) == update_spec(*old(self), grounded, started),
    {
        if grounded {
            self.jump_count = 0;
            self.dash_count = 0;
            self.crouch_count = 0;
        } else {
            match started {
                None => {},
                Some(ActionKind::Jump) => {
                    if self.jump_count < COUNT_MAX {
                        self.jump_count = self.jump_count + 1;
                    }
                },
                Some(ActionKind::Dash) => {
                    if self.dash_count < COUNT_MAX {
                        self.dash_count = self.dash_count + 1;
                    }
                },
                Some(ActionKind::Crouch) => {
                    if self.crouch_count < COUNT_MAX {
                        self.crouch_count = self.crouch_count + 1;
                    }
                },
            }
        }
    }

    /// How many times the action has begun since the last ground contact.
    pub fn air_count_for(&self, kind: ActionKind) -> (r: u64)
        ensures
            r == count_of(*self, kind),
    {
        match kind {
            ActionKind::Jump => self.jump_count,
            ActionKind::Dash => self.dash_count,
            ActionKind::Crouch => self.crouch_count,
        }
    }

    /// Whether the action may begin in the air under the given limit: its
    /// count is at or under the limit (inclusive, so the limit is the
    /// number of extra air uses beyond the one that left the ground).
    pub fn allow_in_air(&self, kind: ActionKind, limit: u64) -> (r: bool)
        ensures
            r == (count_of(*self, kind) <= limit),
    {
        self.air_count_for(kind) <= limit
    }
}

impl Default for AirActionsTracker {
    fn default() -> (r: AirActionsTracker)
        ensures
            r == (AirActionsTracker { jump_count: 0, dash_count: 0, crouch_count: 0 }),
    {
        AirActionsTracker { jump_count: 0, dash_count: 0, crouch_count: 0 }
    }
}

/// The tracker after a whole sequence of frames, oldest first.
pub open spec fn run_updates(
    t: AirActionsTracker,
    frames: Seq<(bool, Option<ActionKind>)>,
) -> AirActionsTracker
    decreases frames.len(),
{
    if frames.len() == 0 {
        t
    } else {
        run_updates(update_spec(t, frames[0].0, frames[0].1), frames.drop_first())
    }
}

/// `n` consecutive airborne frames that each begin a jump.
pub open spec fn airborne_jump_frames(n: nat) -> Seq<(bool, Option<ActionKind>)> {
    Seq::new(n, |i: int| (false, Some(ActionKind::Jump)))
}

/// Law: `n` airborne jump initiations raise the jump counter by exactly
/// `n` and touch no other counter.
pub proof fn lemma_air_jump_count(t: AirActionsTracker, n: nat)
    requires
        t.jump_count + n < COUNT_MAX,
    ensures
        run_updates(t, airborne_jump_frames(n)).jump_count == t.jump_count + n,
        run_updates(t, airborne_jump_frames(n)).dash_count == t.dash_count,
        run_updates(t, airborne_jump_frames(n)).crouch_count == t.crouch_count,
    decreases n,
{
    if n == 0 {
        assert(airborne_jump_frames(0) =~= Seq::<(bool, Option<ActionKind>)>::empty());
    } else {
        let t2 = update_spec(t, false, Some(ActionKind::Jump));
        lemma_air_jump_count(t2, (n - 1) as nat);
        assert(airborne_jump_frames(n).drop_first() =~= airborne_jump_frames((n - 1) as nat));
    }
}

/// Law of the air action budget: starting from a grounded reset, once `n`
/// jumps have begun without a new ground contact (the one that left the
/// ground plus `n - 1` in the air), the next jump request is allowed if
/// and only if `n` is at or under the configured limit — so with a limit
/// of `n - 1` the `n`-th in-air request is refused. One grounded frame
/// resets the counter, and a single registered jump is allowed again
/// whenever the limit is at least one.
pub proof fn lemma_air_budget(t: AirActionsTracker, n: nat, limit: u64)
    requires
        0 < n < COUNT_MAX,
    ensures
        ({
            let reset = update_spec(t, true, None);
            let after = run_updates(reset, airborne_jump_frames(n));
            &&& after.jump_count == n
            &&& (count_of(after, ActionKind::Jump) <= limit) == (n <= limit)
            &&& update_spec(after, true, None).jump_count == 0
            &&& count_of(
                run_updates(update_spec(after, true, None), airborne_jump_frames(1)),
                ActionKind::Jump,
            ) == 1
        }),
{
    let reset = update_spec(t, true, None);
    lemma_air_jump_count(reset, n);
    let after = run_updates(reset, airborne_jump_frames(n));
    lemma_air_jump_count(update_spec(after, true, None), 1);
}

} // verus!
