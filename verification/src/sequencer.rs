//! The switch sequencer: once per poll cycle it looks at the wall clock and
//! the resolved program's boundaries and decides which scene should be on
//! air, how long to sleep, and which automation calls bracket the program
//! start. The driving loop performs the sleeps and the HTTP calls and hands
//! their outcomes back.

use vstd::prelude::*;

verus! {

/// The states of the sequencer, one per poll-cycle decision.
#[derive(Clone, Copy, PartialEq, Eq, Structural, Debug)]
pub enum SequencerState {
    /// No program is imminent; keep fallback and re-poll.
    Awaiting,
    /// A program starts within the lead window; hold fallback until the
    /// pre-roll instant.
    PreRoll,
    /// The program is on air (or within ten seconds of its start).
    Live,
    /// The resolved content is out of scope; hold fallback without touching
    /// the automation system.
    Blocked,
}

/// Which of the two compositions should be bound to the output.
#[derive(Clone, Copy, PartialEq, Eq, Structural, Debug)]
pub enum SceneChoice {
    FallbackScene,
    ProgramScene,
}

/// What one poll cycle should do next.
#[derive(Clone, Copy, PartialEq, Eq, Structural, Debug)]
pub enum PollDecision {
    /// Out-of-scope content: fallback, sleep, fresh poll; never an
    /// automation call.
    Blocked { sleep_seconds: u64 },
    /// The program starts too far out even for pre-roll: fallback, sleep,
    /// fresh poll.
    Awaiting { sleep_seconds: u64 },
    /// The program starts within the lead window: fallback, sleep until
    /// twenty seconds before start, then go live without re-polling.
    PreRoll { sleep_seconds: u64 },
    /// Within ten seconds of start or past it: render the program scene and
    /// run the live call sequence now.
    GoLive,
}

/// One outbound automation request. The wire body populates exactly one of
/// its two fields; the enum makes that impossible to get wrong.
#[derive(Clone, Copy, PartialEq, Eq, Structural, Debug)]
pub enum AutomationCall {
    /// Route `device` onto `output` right now.
    SwitchEvent { device: i64, output: i64 },
    /// Seize (or release) manual control of `output`.
    AutomationOverride { override_on: bool, output: i64, do_last_switch_on_resume: bool },
}

/// One step of the live sequence: a blocking sleep or an automation call.
#[derive(Clone, Copy, PartialEq, Eq, Structural, Debug)]
pub enum LiveAction {
    Sleep { seconds: u64 },
    Call { call: AutomationCall },
}

/// An automation call did not come back with a success status, so the cycle
/// fails and the supervisor recovers.
#[derive(Clone, Copy, PartialEq, Eq, Structural, Debug)]
pub struct ForceEventFailed;

/// Seconds between `now` and the pre-roll instant, twenty seconds before
/// `start`; negative while the instant is still ahead.
pub open spec fn lead_seconds(now: i64, start: i64) -> int {
    now - (start - 20)
}

/// The per-poll decision: blocked content holds fallback for five minutes;
/// a start more than five minutes past the pre-roll instant re-polls after
/// five minutes; a start within the lead window sleeps exactly to the
/// pre-roll instant; anything at most ten seconds out goes live.
pub open spec fn decide_spec(now: i64, start: i64, in_scope: bool) -> PollDecision {
    if !in_scope {
        PollDecision::Blocked { sleep_seconds: 300 }
    } else if -300 < lead_seconds(now, start) && lead_seconds(now, start) < -10 {
        PollDecision::PreRoll { sleep_seconds: (start - 20 - now) as u64 }
    } else if lead_seconds(now, start) <= -300 {
        PollDecision::Awaiting { sleep_seconds: 300 }
    } else {
        PollDecision::GoLive
    }
}

/// The scene a decision keeps on air: only going live shows the program.
pub open spec fn scene_spec(d: PollDecision) -> SceneChoice {
    match d {
        PollDecision::GoLive => SceneChoice::ProgramScene,
        _ => SceneChoice::FallbackScene,
    }
}

/// The sequencer state a decision enters.
pub open spec fn state_spec(d: PollDecision) -> SequencerState {
    match d {
        PollDecision::Blocked { .. } => SequencerState::Blocked,
        PollDecision::Awaiting { .. } => SequencerState::Awaiting,
        PollDecision::PreRoll { .. } => SequencerState::PreRoll,
        PollDecision::GoLive => SequencerState::Live,
    }
}

/// Decide what this poll cycle does, from the current wall-clock time, the
/// program's start and whether its project is in scope.
pub fn decide(now: i64, start: i64, in_scope: bool) -> (d: PollDecision)
    ensures
        d == decide_spec(now, start, in_scope),
{
    if !in_scope {
        return PollDecision::Blocked { sleep_seconds: 300 };
    }
    let lead: i128 = now as i128 - (start as i128 - 20);
    if -300 < lead && lead < -10 {
        let sleep: i128 = (start as i128 - 20) - now as i128;
        assert(10 < sleep < 300);
        PollDecision::PreRoll { sleep_seconds: sleep as u64 }
    } else if lead <= -300 {
        PollDecision::Awaiting { sleep_seconds: 300 }
    } else {
        PollDecision::GoLive
    }
}

/// The scene a decision keeps on air.
pub fn scene_for(d: &PollDecision) -> (s: SceneChoice)
    ensures
        s == scene_spec(*d),
{
    match d {
        PollDecision::GoLive => SceneChoice::ProgramScene,
        _ => SceneChoice::FallbackScene,
    }
}

/// The sequencer state a decision enters.
pub fn state_for(d: &PollDecision) -> (s: SequencerState)
    ensures
        s == state_spec(*d),
{
    match d {
        PollDecision::Blocked { .. } => SequencerState::Blocked,
        PollDecision::Awaiting { .. } => SequencerState::Awaiting,
        PollDecision::PreRoll { .. } => SequencerState::PreRoll,
        PollDecision::GoLive => SequencerState::Live,
    }
}

/// Whether a decision calls for a fresh schedule poll after its sleep,
/// rather than proceeding into the live phase.
pub fn repolls(d: &PollDecision) -> (r: bool)
    ensures
        r == !(state_spec(*d) is PreRoll || state_spec(*d) is Live),
{
    match d {
        PollDecision::Blocked { .. } => true,
        PollDecision::Awaiting { .. } => true,
        PollDecision::PreRoll { .. } => false,
        PollDecision::GoLive => false,
    }
}

/// The live call sequence. Catching up (at or past start): wait a second,
/// then one switch. Arrived early: seize manual control at once, wait out
/// the remaining seconds, switch at the start instant, give the switcher a
/// ten-second grace, release manual control.
pub open spec fn live_actions_spec(now: i64, start: i64, device: i64, output: i64) -> Seq<
    LiveAction,
> {
    if now >= start {
        seq![
            LiveAction::Sleep { seconds: 1 },
            LiveAction::Call { call: AutomationCall::SwitchEvent { device, output } },
        ]
    } else {
        seq![
            LiveAction::Call {
                call: AutomationCall::AutomationOverride {
                    override_on: true,
                    output,
                    do_last_switch_on_resume: false,
                },
            },
            LiveAction::Sleep { seconds: (start - now) as u64 },
            LiveAction::Call { call: AutomationCall::SwitchEvent { device, output } },
            LiveAction::Sleep { seconds: 10 },
            LiveAction::Call {
                call: AutomationCall::AutomationOverride {
                    override_on: false,
                    output,
                    do_last_switch_on_resume: false,
                },
            },
        ]
    }
}

/// Build the live call sequence for a program starting at `start`, entered
/// at wall-clock time `now`.
pub fn live_actions(now: i64, start: i64, device: i64, output: i64) -> (acts: Vec<LiveAction>)
    ensures
        acts@ == live_actions_spec(now, start, device, output),
{
    let mut acts: Vec<LiveAction> = Vec::new();
    if now >= start {
        acts.push(LiveAction::Sleep { seconds: 1 });
        acts.push(LiveAction::Call { call: AutomationCall::SwitchEvent { device, output } });
        assert(acts@ =~= live_actions_spec(now, start, device, output));
    } else {
        let wait: i128 = start as i128 - now as i128;
        assert(0 < wait <= u64::MAX);
        acts.push(
            LiveAction::Call {
                call: AutomationCall::AutomationOverride {
                    override_on: true,
                    output,
                    do_last_switch_on_resume: false,
                },
            },
        );
        acts.push(LiveAction::Sleep { seconds: wait as u64 });
        acts.push(LiveAction::Call { call: AutomationCall::SwitchEvent { device, output } });
        acts.push(LiveAction::Sleep { seconds: 10 });
        acts.push(
            LiveAction::Call {
                call: AutomationCall::AutomationOverride {
                    override_on: false,
                    output,
                    do_last_switch_on_resume: false,
                },
            },
        );
        assert(acts@ =~= live_actions_spec(now, start, device, output));
    }
    acts
}

/// How many force-switch calls a live sequence contains.
pub open spec fn switch_calls(s: Seq<LiveAction>) -> int
    decreases s.len(),
{
    if s.len() == 0 {
        0
    } else {
        (match s[0] {
            LiveAction::Call { call: AutomationCall::SwitchEvent { .. } } => 1int,
            _ => 0int,
        }) + switch_calls(s.drop_first())
    }
}

/// Whatever the entry time, the live sequence issues exactly one
/// force-switch call: the on-air instant is seized exactly once.
pub proof fn lemma_live_exactly_one_switch(now: i64, start: i64, device: i64, output: i64)
    ensures
        switch_calls(live_actions_spec(now, start, device, output)) == 1,
{
    let s = live_actions_spec(now, start, device, output);
    if now >= start {
        assert(switch_calls(s.drop_first().drop_first()) == 0);
        assert(switch_calls(s.drop_first()) == 1);
    } else {
        let s4 = s.drop_first().drop_first().drop_first().drop_first();
        assert(switch_calls(s4.drop_first()) == 0);
        assert(switch_calls(s4) == 0);
        assert(switch_calls(s.drop_first().drop_first().drop_first()) == 0);
        assert(switch_calls(s.drop_first().drop_first()) == 1);
        assert(switch_calls(s.drop_first()) == 1);
    }
}

/// A blocked cycle holds fallback, enters the blocked state, and never
/// reaches the live phase, so it issues no automation call at all.
pub proof fn lemma_out_of_scope_no_calls(now: i64, start: i64)
    ensures
        decide_spec(now, start, false) == (PollDecision::Blocked { sleep_seconds: 300u64 }),
        scene_spec(decide_spec(now, start, false)) == SceneChoice::FallbackScene,
        !(decide_spec(now, start, false) is GoLive),
{
}

/// Judge one finished live sequence from the success flags of its calls, in
/// order: the cycle fails with `ForceEventFailed` exactly when some call
/// came back without a success status.
pub fn cycle_outcome(results: &Vec<bool>) -> (r: Result<(), ForceEventFailed>)
    ensures
        r is Ok <==> (forall|i: int| 0 <= i < results@.len() ==> results@[i]),
        r is Err ==> r == Err::<(), ForceEventFailed>(ForceEventFailed),
{
    let mut i: usize = 0;
    while i < results.len()
        invariant
            0 <= i <= results@.len(),
            forall|j: int| 0 <= j < i ==> results@[j],
        decreases results@.len() - i,
    {
        if !results[i] {
            return Err(ForceEventFailed);
        }
        i = i + 1;
    }
    Ok(())
}

/// The switch half of a wire request body.
#[derive(Clone, Copy, PartialEq, Eq, Structural, Debug)]
pub struct SwitchEventBody {
    pub device: i64,
    pub output: i64,
}

/// The override half of a wire request body.
#[derive(Clone, Copy, PartialEq, Eq, Structural, Debug)]
pub struct AutomationOverrideBody {
    pub override_on: bool,
    pub output: i64,
    pub do_last_switch_on_resume: bool,
}

/// One force event as the automation API's wire format carries it.
/// Exactly one of the two fields is populated.
#[derive(Clone, Copy, PartialEq, Eq, Structural, Debug)]
pub struct ForceEventBody {
    pub switch_event: Option<SwitchEventBody>,
    pub automation_override: Option<AutomationOverrideBody>,
}

/// Lay an automation call out in the wire format. The result always
/// populates exactly one of the two fields, the one matching the call.
pub fn to_wire(call: &AutomationCall) -> (w: ForceEventBody)
    ensures
        (w.switch_event is Some) != (w.automation_override is Some),
        match call {
            AutomationCall::SwitchEvent { device, output } => w.switch_event == Some(
                SwitchEventBody { device: *device, output: *output },
            ),
            AutomationCall::AutomationOverride { override_on, output, do_last_switch_on_resume } => w.automation_override
                == Some(
                AutomationOverrideBody {
                    override_on: *override_on,
                    output: *output,
                    do_last_switch_on_resume: *do_last_switch_on_resume,
                },
            ),
        },
{
    match call {
        AutomationCall::SwitchEvent { device, output } => ForceEventBody {
            switch_event: Some(SwitchEventBody { device: *device, output: *output }),
            automation_override: None,
        },
        AutomationCall::AutomationOverride { override_on, output, do_last_switch_on_resume } => ForceEventBody {
            switch_event: None,
            automation_override: Some(
                AutomationOverrideBody {
                    override_on: *override_on,
                    output: *output,
                    do_last_switch_on_resume: *do_last_switch_on_resume,
                },
            ),
        },
    }
}

/// Seconds to sleep after the live window: until ten seconds past the
/// program's end, or not at all if that instant has already passed.
pub fn after_live_sleep(now: i64, end: i64) -> (s: u64)
    ensures
        0 <= end + 10 - now <= u64::MAX ==> s == end + 10 - now,
        end + 10 - now < 0 ==> s == 0,
        end + 10 - now > u64::MAX ==> s == u64::MAX,
{
    let remaining: i128 = (end as i128 + 10) - now as i128;
    if remaining < 0 {
        0
    } else if remaining > u64::MAX as i128 {
        u64::MAX
    } else {
        remaining as u64
    }
}

} // verus!

