//! Fall-through-platform arbitration.
//!
//! Each frame the controller decides whether the proximity sensor should be
//! redirected onto a one-way ("ghost") platform beneath the character, and
//! whether the character still counts as crouching after a fall-through
//! attempt. Four control schemes exist; the two helper-based ones keep a
//! latch across frames recording the surface currently being fallen
//! through.

use vstd::prelude::*;

verus! {

/// One ghost platform within sensing range: its identity and its measured
/// proximity in thousandths of a unit.
#[derive(Clone, Copy, Debug, PartialEq, Eq, Structural)]
pub struct GhostSurfaceReading {
    pub surface: u64,
    pub proximity: i64,
}

/// The proximity sensor's currently selected standing surface, if any.
/// The controller overwrites it to redirect sensing onto a ghost platform.
#[derive(Clone, Copy, Debug, PartialEq, Eq)]
pub struct ProximitySensorState {
    pub selected: Option<GhostSurfaceReading>,
}

/// Cross-frame latch of the helper-based schemes: the surface the
/// character is currently committed to falling through, if any.
#[derive(Clone, Copy, Debug, PartialEq, Eq)]
pub struct FallThroughHelperState {
    pub falling_through: Option<u64>,
}

impl FallThroughHelperState {
    /// A helper that is not falling through anything.
    pub fn new() -> (r: FallThroughHelperState)
        ensures
            r.falling_through == None::<u64>,
    {
        FallThroughHelperState { falling_through: None }
    }
}

impl Default for FallThroughHelperState {
    fn default() -> (r: FallThroughHelperState)
        ensures
            r.falling_through == None::<u64>,
    {
        FallThroughHelperState { falling_through: None }
    }
}

/// How crouching interacts with one-way platforms; fixed per character.
#[derive(Clone, Copy, Debug, PartialEq, Eq)]
pub enum FallingThroughControlScheme {
    /// Platforms are always solid from below; crouch never drops through.
    JumpThroughOnly,
    /// Crouching over a platform drops through at once, with no latch.
    WithoutHelper,
    /// Each crouch press drops through at most one platform.
    SingleFall,
    /// Holding crouch keeps dropping through platform after platform.
    KeepFalling,
}

impl Default for FallingThroughControlScheme {
    fn default() -> (r: FallingThroughControlScheme)
        ensures
            r == FallingThroughControlScheme::SingleFall,
    {
        FallingThroughControlScheme::SingleFall
    }
}

/// A reading counts when the platform is at least the minimum proximity
/// away.
pub open spec fn qualifies(r: GhostSurfaceReading, min_proximity: int) -> bool {
    min_proximity <= r.proximity
}

/// The first qualifying reading at or after index `i`, in sensing order.
pub open spec fn first_qual_from(
    s: Seq<GhostSurfaceReading>,
    min_proximity: int,
    i: int,
) -> Option<GhostSurfaceReading>
    decreases s.len() - i,
{
    if i < 0 || i >= s.len() {
        None
    } else if qualifies(s[i], min_proximity) {
        Some(s[i])
    } else {
        first_qual_from(s, min_proximity, i + 1)
    }
}

/// The first qualifying reading, in sensing order.
pub open spec fn first_qualifying(
    s: Seq<GhostSurfaceReading>,
    min_proximity: int,
) -> Option<GhostSurfaceReading> {
    first_qual_from(s, min_proximity, 0)
}

/// The first qualifying reading whose surface is not the excluded one.
pub open spec fn first_qual_excl_from(
    s: Seq<GhostSurfaceReading>,
    min_proximity: int,
    excl: Option<u64>,
    i: int,
) -> Option<GhostSurfaceReading>
    decreases s.len() - i,
{
    if i < 0 || i >= s.len() {
        None
    } else if qualifies(s[i], min_proximity) && excl != Some(s[i].surface) {
        Some(s[i])
    } else {
        first_qual_excl_from(s, min_proximity, excl, i + 1)
    }
}

/// The first qualifying reading on a surface other than the excluded one.
pub open spec fn first_qualifying_excluding(
    s: Seq<GhostSurfaceReading>,
    min_proximity: int,
    excl: Option<u64>,
) -> Option<GhostSurfaceReading> {
    first_qual_excl_from(s, min_proximity, excl, 0)
}

/// Whether some reading at or after index `i` senses the given surface at
/// qualifying proximity.
pub open spec fn surface_qual_from(
    s: Seq<GhostSurfaceReading>,
    min_proximity: int,
    surface: u64,
    i: int,
) -> bool
    decreases s.len() - i,
{
    if i < 0 || i >= s.len() {
        false
    } else if qualifies(s[i], min_proximity) && s[i].surface == surface {
        true
    } else {
        surface_qual_from(s, min_proximity, surface, i + 1)
    }
}

/// Whether the latched surface, if any, is still sensed at qualifying
/// proximity — anywhere in sensing order.
pub open spec fn latched_surface_sensed(
    s: Seq<GhostSurfaceReading>,
    min_proximity: int,
    latch: Option<u64>,
) -> bool {
    match latch {
        None => false,
        Some(surface) => surface_qual_from(s, min_proximity, surface, 0),
    }
}

/// Everything one arbitration step decides: the crouch flag handed to the
/// motion composer, the latch after the step, and the sensor's selected
/// surface after the step.
pub struct ArbitrationOutcome {
    pub still_crouching: bool,
    pub latch: Option<u64>,
    pub selected: Option<GhostSurfaceReading>,
}

/// One fall attempt of the helper-based schemes. Returns whether the
/// character is falling, the latch after the attempt, and the sensor
/// selection after the attempt.
///
/// While the latched surface is still sensed at qualifying proximity —
/// wherever its reading stands in sensing order — the fall episode
/// continues without a new decision; a press during the episode is
/// absorbed by it. Once the latched surface is out of range the episode
/// is over: a fresh press starts a new one on the first qualifying
/// surface; without a press the character stands on it — the sensor is
/// redirected there and the latch is cleared; with no qualifying surface
/// in range nothing is latched.
pub open spec fn try_falling_spec(
    latch: Option<u64>,
    selected: Option<GhostSurfaceReading>,
    ghosts: Seq<GhostSurfaceReading>,
    min_proximity: int,
    just_pressed: bool,
) -> (bool, Option<u64>, Option<GhostSurfaceReading>) {
    if latched_surface_sensed(ghosts, min_proximity, latch) {
        (true, latch, selected)
    } else {
        match first_qualifying(ghosts, min_proximity) {
            None => (false, None, selected),
            Some(g) => {
                if just_pressed {
                    (true, Some(g.surface), selected)
                } else {
                    (false, None, Some(g))
                }
            },
        }
    }
}

/// Ending a fall attempt when crouch is not held: the latch clears, and
/// sensing is redirected onto the first qualifying surface that is not the
/// one still being fallen through.
pub open spec fn dont_fall_spec(
    latch: Option<u64>,
    selected: Option<GhostSurfaceReading>,
    ghosts: Seq<GhostSurfaceReading>,
    min_proximity: int,
) -> (Option<u64>, Option<GhostSurfaceReading>) {
    match first_qualifying_excluding(ghosts, min_proximity, latch) {
        None => (None, selected),
        Some(g) => (None, Some(g)),
    }
}

/// The whole arbitration step, scheme by scheme.
///
/// Readings are taken in sensing order: wherever a scheme redirects the
/// sensor, the first qualifying reading wins.
pub open spec fn arbitration_spec(
    scheme: FallingThroughControlScheme,
    crouch: bool,
    crouch_just_pressed: bool,
    latch: Option<u64>,
    selected: Option<GhostSurfaceReading>,
    ghosts: Seq<GhostSurfaceReading>,
    min_proximity: int,
) -> ArbitrationOutcome {
    match scheme {
        FallingThroughControlScheme::JumpThroughOnly => ArbitrationOutcome {
            still_crouching: crouch,
            latch,
            selected: match first_qualifying(ghosts, min_proximity) {
                None => selected,
                Some(g) => Some(g),
            },
        },
        FallingThroughControlScheme::WithoutHelper => {
            if crouch {
                ArbitrationOutcome {
                    still_crouching: first_qualifying(ghosts, min_proximity) is None,
                    latch,
                    selected,
                }
            } else {
                ArbitrationOutcome {
                    still_crouching: false,
                    latch,
                    selected: match first_qualifying(ghosts, min_proximity) {
                        None => selected,
                        Some(g) => Some(g),
                    },
                }
            }
        },
        FallingThroughControlScheme::SingleFall => {
            if crouch {
                let (falling, latch2, selected2) = try_falling_spec(
                    latch,
                    selected,
                    ghosts,
                    min_proximity,
                    crouch_just_pressed,
                );
                ArbitrationOutcome { still_crouching: !falling, latch: latch2, selected: selected2 }
            } else {
                let (latch2, selected2) = dont_fall_spec(latch, selected, ghosts, min_proximity);
                ArbitrationOutcome { still_crouching: false, latch: latch2, selected: selected2 }
            }
        },
        FallingThroughControlScheme::KeepFalling => {
            if crouch {
                let (falling, latch2, selected2) = try_falling_spec(
                    latch,
                    selected,
                    ghosts,
                    min_proximity,
                    true,
                );
                ArbitrationOutcome { still_crouching: !falling, latch: latch2, selected: selected2 }
            } else {
                let (latch2, selected2) = dont_fall_spec(latch, selected, ghosts, min_proximity);
                ArbitrationOutcome { still_crouching: false, latch: latch2, selected: selected2 }
            }
        },
    }
}

proof fn lemma_first_qual_from_qualifies(s: Seq<GhostSurfaceReading>, min_proximity: int, i: int)
    ensures
        first_qual_from(s, min_proximity, i) matches Some(g) ==> qualifies(g, min_proximity),
    decreases s.len() - i,
{
    if i < 0 || i >= s.len() {
    } else if qualifies(s[i], min_proximity) {
    } else {
        lemma_first_qual_from_qualifies(s, min_proximity, i + 1);
    }
}

/// Law: with no ghost platform in range, no scheme redirects the sensor
/// and every scheme hands the crouch input back unchanged.
pub proof fn lemma_empty_ghosts_baseline(
    scheme: FallingThroughControlScheme,
    crouch: bool,
    crouch_just_pressed: bool,
    latch: Option<u64>,
    selected: Option<GhostSurfaceReading>,
    min_proximity: int,
)
    ensures
        ({
            let o = arbitration_spec(
                scheme,
                crouch,
                crouch_just_pressed,
                latch,
                selected,
                Seq::<GhostSurfaceReading>::empty(),
                min_proximity,
            );
            o.selected == selected && o.still_crouching == crouch
        }),
{
}

/// Law: under `JumpThroughOnly` the sensor is always redirected onto the
/// first qualifying reading whenever one is in range, that reading indeed
/// qualifies, and the crouch flag passes through whatever its value.
pub proof fn lemma_jump_through_only_redirects(
    crouch: bool,
    crouch_just_pressed: bool,
    latch: Option<u64>,
    selected: Option<GhostSurfaceReading>,
    ghosts: Seq<GhostSurfaceReading>,
    min_proximity: int,
    g: GhostSurfaceReading,
)
    requires
        first_qualifying(ghosts, min_proximity) == Some(g),
    ensures
        ({
            let o = arbitration_spec(
                FallingThroughControlScheme::JumpThroughOnly,
                crouch,
                crouch_just_pressed,
                latch,
                selected,
                ghosts,
                min_proximity,
            );
            o.selected == Some(g) && qualifies(g, min_proximity) && o.still_crouching == crouch
                && o.latch == latch
        }),
{
    lemma_first_qual_from_qualifies(ghosts, min_proximity, 0);
}

/// Law: under `WithoutHelper`, crouch held with a qualifying reading in
/// range reports falling through at once and touches neither the latch
/// nor the sensor; crouch held with none in range stays crouching.
pub proof fn lemma_without_helper(
    crouch_just_pressed: bool,
    latch: Option<u64>,
    selected: Option<GhostSurfaceReading>,
    ghosts: Seq<GhostSurfaceReading>,
    min_proximity: int,
)
    ensures
        ({
            let o = arbitration_spec(
                FallingThroughControlScheme::WithoutHelper,
                true,
                crouch_just_pressed,
                latch,
                selected,
                ghosts,
                min_proximity,
            );
            &&& first_qualifying(ghosts, min_proximity) is Some ==> !o.still_crouching
                && o.latch == latch && o.selected == selected
            &&& first_qualifying(ghosts, min_proximity) is None ==> o.still_crouching
        }),
{
}

/// Law: under `SingleFall` a fresh crouch press over a qualifying
/// platform starts a fall episode (the frame reports not crouching and
/// the platform is latched), and the next frame — crouch still held, the
/// press gone, the same readings sensed — merely continues the episode:
/// the same answer again, the same latch, and no redirection either
/// frame.
pub proof fn lemma_single_fall_once_per_press(
    selected: Option<GhostSurfaceReading>,
    ghosts: Seq<GhostSurfaceReading>,
    min_proximity: int,
    g: GhostSurfaceReading,
)
    requires
        first_qualifying(ghosts, min_proximity) == Some(g),
    ensures
        ({
            let o1 = arbitration_spec(
                FallingThroughControlScheme::SingleFall,
                true,
                true,
                None::<u64>,
                selected,
                ghosts,
                min_proximity,
            );
            let o2 = arbitration_spec(
                FallingThroughControlScheme::SingleFall,
                true,
                false,
                o1.latch,
                o1.selected,
                ghosts,
                min_proximity,
            );
            &&& !o1.still_crouching
            &&& o1.latch == Some(g.surface)
            &&& o1.selected == selected
            &&& !o2.still_crouching
            &&& o2.latch == o1.latch
            &&& o2.selected == o1.selected
        }),
{
    lemma_first_qual_from_qualifies(ghosts, min_proximity, 0);
    lemma_first_qual_sensed(ghosts, min_proximity, g, 0);
}

/// Law: a fall episode is idempotent while it lasts. Under `SingleFall`
/// with crouch held, a frame whose readings still sense the latched
/// surface at qualifying proximity — anywhere in sensing order, whether
/// or not other platforms qualify, pressed again or not — reports
/// falling, keeps the latch on the same surface, and redirects nothing:
/// no new fall decision is made within the episode.
pub proof fn lemma_single_fall_episode_continues(
    surface: u64,
    crouch_just_pressed: bool,
    selected: Option<GhostSurfaceReading>,
    ghosts: Seq<GhostSurfaceReading>,
    min_proximity: int,
)
    requires
        latched_surface_sensed(ghosts, min_proximity, Some(surface)),
    ensures
        ({
            let o = arbitration_spec(
                FallingThroughControlScheme::SingleFall,
                true,
                crouch_just_pressed,
                Some(surface),
                selected,
                ghosts,
                min_proximity,
            );
            &&& !o.still_crouching
            &&& o.latch == Some(surface)
            &&& o.selected == selected
        }),
{
}

/// The first qualifying reading's surface is itself sensed at qualifying
/// proximity.
proof fn lemma_first_qual_sensed(
    s: Seq<GhostSurfaceReading>,
    min_proximity: int,
    g: GhostSurfaceReading,
    i: int,
)
    requires
        first_qual_from(s, min_proximity, i) == Some(g),
    ensures
        surface_qual_from(s, min_proximity, g.surface, i),
    decreases s.len() - i,
{
    if i < 0 || i >= s.len() {
    } else if qualifies(s[i], min_proximity) {
    } else {
        lemma_first_qual_sensed(s, min_proximity, g, i + 1);
    }
}

/// Law: under `KeepFalling` every frame with crouch held and a qualifying
/// reading in range reports falling through, whatever the latch holds and
/// whether or not the press is fresh — unlike `SingleFall`, which without
/// a fresh press falls only while the latched platform is still among the
/// qualifying readings.
pub proof fn lemma_keep_falling_retriggers(
    crouch_just_pressed: bool,
    latch: Option<u64>,
    selected: Option<GhostSurfaceReading>,
    ghosts: Seq<GhostSurfaceReading>,
    min_proximity: int,
    g: GhostSurfaceReading,
)
    requires
        first_qualifying(ghosts, min_proximity) == Some(g),
    ensures
        !arbitration_spec(
            FallingThroughControlScheme::KeepFalling,
            true,
            crouch_just_pressed,
            latch,
            selected,
            ghosts,
            min_proximity,
        ).still_crouching,
{
}

/// First qualifying reading, walking the readings in sensing order.
fn find_first_qualifying(ghosts: &Vec<GhostSurfaceReading>, min_proximity: i64) -> (r: Option<
    GhostSurfaceReading,
>)
    ensures
        r == first_qualifying(ghosts@, min_proximity as int),
{
    let n: usize = ghosts.len();
    let mut i: usize = 0;
    while i < n
        invariant
            n == ghosts@.len(),
            0 <= i <= n,
            first_qualifying(ghosts@, min_proximity as int) == first_qual_from(
                ghosts@,
                min_proximity as int,
                i as int,
            ),
        decreases n - i,
    {
        if min_proximity <= ghosts[i].proximity {
            return Some(ghosts[i]);
        }
        i = i + 1;
    }
    None
}

/// First qualifying reading on a surface other than the excluded one.
fn find_first_qualifying_excluding(
    ghosts: &Vec<GhostSurfaceReading>,
    min_proximity: i64,
    excl: &Option<u64>,
) -> (r: Option<GhostSurfaceReading>)
    ensures
        r == first_qualifying_excluding(ghosts@, min_proximity as int, *excl),
{
    let n: usize = ghosts.len();
    let mut i: usize = 0;
    while i < n
        invariant
            n == ghosts@.len(),
            0 <= i <= n,
            first_qualifying_excluding(ghosts@, min_proximity as int, *excl)
                == first_qual_excl_from(ghosts@, min_proximity as int, *excl, i as int),
        decreases n - i,
    {
        let g = ghosts[i];
        if min_proximity <= g.proximity {
            let excluded: bool = match excl {
                Some(e) => *e == g.surface,
                None => false,
            };
            if !excluded {
                return Some(g);
            }
        }
        i = i + 1;
    }
    None
}

impl FallingThroughControlScheme {
    /// Run one arbitration step: possibly redirect the proximity sensor
    /// onto a ghost platform, update the fall-through latch, and report
    /// whether the character still counts as crouching.
    pub fn perform_and_check_if_still_crouching(
        &self,
        crouch: bool,
        crouch_just_pressed: bool,
        fall_through_helper: &mut FallThroughHelperState,
        proximity_sensor: &mut ProximitySensorState,
        ghost_sensor: &Vec<GhostSurfaceReading>,
        min_proximity: i64,
    ) -> (still_crouching: bool)
        requires
            min_proximity >= 0,
        ensures
            ({
                let o = arbitration_spec(
                    *self,
                    crouch,
                    crouch_just_pressed,
                    old(fall_through_helper).falling_through,
                    old(proximity_sensor).selected,
                    ghost_sensor@,
                    min_proximity as int,
                );
                still_crouching == o.still_crouching && final(fall_through_helper).falling_through
                    == o.latch && final(proximity_sensor).selected == o.selected
            }),
    {
        match self {
            FallingThroughControlScheme::JumpThroughOnly => {
                let found = find_first_qualifying(ghost_sensor, min_proximity);
                match found {
                    Some(g) => {
                        proximity_sensor.selected = Some(g);
                    },
                    None => {},
                }
                crouch
            },
            FallingThroughControlScheme::WithoutHelper => {
                if crouch {
                    let found = find_first_qualifying(ghost_sensor, min_proximity);
                    match found {
                        Some(_) => false,
                        None => true,
                    }
                } else {
                    let found = find_first_qualifying(ghost_sensor, min_proximity);
                    match found {
                        Some(g) => {
                            proximity_sensor.selected = Some(g);
                        },
                        None => {},
                    }
                    false
                }
            },
            FallingThroughControlScheme::SingleFall => {
                if crouch {
                    !try_falling(
                        fall_through_helper,
                        proximity_sensor,
                        ghost_sensor,
                        min_proximity,
                        crouch_just_pressed,
                    )
                } else {
                    dont_fall(fall_through_helper, proximity_sensor, ghost_sensor, min_proximity);
                    false
                }
            },
            FallingThroughControlScheme::KeepFalling => {
                if crouch {
                    !try_falling(
                        fall_through_helper,
                        proximity_sensor,
                        ghost_sensor,
                        min_proximity,
                        true,
                    )
                } else {
                    dont_fall(fall_through_helper, proximity_sensor, ghost_sensor, min_proximity);
                    false
                }
            },
        }
    }
}

/// Whether the given surface is sensed at qualifying proximity anywhere
/// in the readings.
fn surface_still_sensed(
    ghosts: &Vec<GhostSurfaceReading>,
    min_proximity: i64,
    surface: u64,
) -> (r: bool)
    ensures
        r == surface_qual_from(ghosts@, min_proximity as int, surface, 0),
{
    let n: usize = ghosts.len();
    let mut i: usize = 0;
    while i < n
        invariant
            n == ghosts@.len(),
            0 <= i <= n,
            surface_qual_from(ghosts@, min_proximity as int, surface, 0) == surface_qual_from(
                ghosts@,
                min_proximity as int,
                surface,
                i as int,
            ),
        decreases n - i,
    {
        let g = ghosts[i];
        if min_proximity <= g.proximity && g.surface == surface {
            return true;
        }
        i = i + 1;
    }
    false
}

/// One fall attempt; see `try_falling_spec` for the decision it takes.
fn try_falling(
    helper: &mut FallThroughHelperState,
    sensor: &mut ProximitySensorState,
    ghosts: &Vec<GhostSurfaceReading>,
    min_proximity: i64,
    just_pressed: bool,
) -> (falling: bool)
    ensures
        ({
            let (f, latch2, selected2) = try_falling_spec(
                old(helper).falling_through,
                old(sensor).selected,
                ghosts@,
                min_proximity as int,
                just_pressed,
            );
            falling == f && final(helper).falling_through == latch2 && final(sensor).selected
                == selected2
        }),
{
    let episode_continues: bool = match &helper.falling_through {
        Some(s) => surface_still_sensed(ghosts, min_proximity, *s),
        None => false,
    };
    if episode_continues {
        return true;
    }
    let found = find_first_qualifying(ghosts, min_proximity);
    match found {
        None => {
            helper.falling_through = None;
            false
        },
        Some(g) => {
            if just_pressed {
                helper.falling_through = Some(g.surface);
                true
            } else {
                helper.falling_through = None;
                sensor.selected = Some(g);
                false
            }
        },
    }
}

/// End any fall episode; see `dont_fall_spec` for the redirection it does.
fn dont_fall(
    helper: &mut FallThroughHelperState,
    sensor: &mut ProximitySensorState,
    ghosts: &Vec<GhostSurfaceReading>,
    min_proximity: i64,
)
    ensures
        ({
            let (latch2, selected2) = dont_fall_spec(
                old(helper).falling_through,
                old(sensor).selected,
                ghosts@,
                min_proximity as int,
            );
            final(helper).falling_through == latch2 && final(sensor).selected == selected2
        }),
{
    let found = find_first_qualifying_excluding(ghosts, min_proximity, &helper.falling_through);
    helper.falling_through = None;
    match found {
        Some(g) => {
            sensor.selected = Some(g);
        },
        None => {},
    }
}

} // verus!
