//! The per-zone state machines. A zone runs in one of two modes, chosen by
//! its configured timeout: a debounced latch that acts on the last sample
//! seen before a quiet period (Mode A), or immediate dispatch with
//! flick-gesture detection (Mode B). The machines here decide; running the
//! commands and waiting on the inbox is the caller's business.

use vstd::prelude::*;

verus! {

use crate::config::CornerConfig;
use crate::matcher::spec_selector_matches;
use crate::matcher::selector_matches;

/// One pointer motion sample: a receipt timestamp in milliseconds on the
/// router's clock, and surface-local coordinates in whole pixels.
#[derive(Clone, Copy, Debug, PartialEq, Eq, Structural)]
pub struct CornerMotionEvent {
    pub time_ms: u64,
    pub surface_x: i32,
    pub surface_y: i32,
}

/// A pointer sample delivered to one zone.
#[derive(Clone, Copy, Debug, PartialEq, Eq, Structural)]
pub enum CornerEvent {
    Enter,
    Leave,
    Motion(CornerMotionEvent),
}

/// Which of a zone's configured commands to run.
#[derive(Clone, Copy, Debug, PartialEq, Eq, Structural)]
pub enum CommandKind {
    Enter,
    Exit,
    Flick,
}

/// Gesture-tracking state for the current hover session.
#[derive(Clone, Copy, Debug, PartialEq)]
pub struct FlickInfo {
    pub last_motion_event: Option<CornerMotionEvent>,
    pub action_was_done: bool,
}

impl FlickInfo {
    /// The state at the start of a hover session: no sample seen, nothing
    /// fired.
    pub open spec fn cleared() -> FlickInfo {
        FlickInfo { last_motion_event: None, action_was_done: false }
    }
}

impl Default for FlickInfo {
    fn default() -> (r: Self)
        ensures
            r == FlickInfo::cleared(),
    {
        FlickInfo { last_motion_event: None, action_was_done: false }
    }
}

/// Squared distance in pixels between two motion samples.
pub open spec fn spec_dist_sq(a: CornerMotionEvent, b: CornerMotionEvent) -> int {
    (b.surface_x - a.surface_x) * (b.surface_x - a.surface_x) + (b.surface_y - a.surface_y) * (
    b.surface_y - a.surface_y)
}

/// Milliseconds between two samples; a sample stamped before its
/// predecessor counts as simultaneous.
pub open spec fn spec_elapsed_ms(a: CornerMotionEvent, b: CornerMotionEvent) -> int {
    if b.time_ms >= a.time_ms {
        b.time_ms - a.time_ms
    } else {
        0
    }
}

/// Whether the motion from `prev` to `cur` crosses the flick threshold.
///
/// The threshold is in thousandths of a pixel per millisecond, so the
/// instantaneous speed `sqrt(dist_sq) / elapsed` crosses it exactly when
/// `1_000_000 * dist_sq >= threshold^2 * elapsed^2`; squaring keeps the
/// comparison in integers. Two samples with no time between them count as
/// arbitrarily fast: they qualify whenever the pointer moved at all.
pub open spec fn flick_qualifies(
    prev: CornerMotionEvent,
    cur: CornerMotionEvent,
    threshold: u32,
) -> bool {
    let d = spec_elapsed_ms(prev, cur);
    if d == 0 {
        spec_dist_sq(prev, cur) > 0
    } else {
        1_000_000 * spec_dist_sq(prev, cur) >= (threshold * threshold) * (d * d)
    }
}

/// One Mode-B step on a motion sample: while nothing has fired this
/// session, a sample qualifying against the previous one fires the flick
/// command once, and the sample is recorded either way; after a firing the
/// session's remaining motion is ignored.
pub open spec fn spec_motion_step(s: FlickInfo, m: CornerMotionEvent, threshold: u32) -> (
    FlickInfo,
    Option<CommandKind>,
) {
    if s.action_was_done {
        (s, None)
    } else {
        let fires = s.last_motion_event is Some && flick_qualifies(
            s.last_motion_event->Some_0,
            m,
            threshold,
        );
        (
            FlickInfo { last_motion_event: Some(m), action_was_done: fires },
            if fires {
                Some(CommandKind::Flick)
            } else {
                None
            },
        )
    }
}

/// One Mode-B step: Enter runs the enter command, Leave resets the session
/// and runs the exit command, Motion feeds the flick detector.
pub open spec fn spec_event_step(s: FlickInfo, e: CornerEvent, threshold: u32) -> (
    FlickInfo,
    Option<CommandKind>,
) {
    match e {
        CornerEvent::Enter => (s, Some(CommandKind::Enter)),
        CornerEvent::Leave => (FlickInfo::cleared(), Some(CommandKind::Exit)),
        CornerEvent::Motion(m) => spec_motion_step(s, m, threshold),
    }
}

fn motion_qualifies(prev: &CornerMotionEvent, cur: &CornerMotionEvent, threshold: u32) -> (r: bool)
    ensures
        r == flick_qualifies(*prev, *cur, threshold),
{
    let dx: i128 = (cur.surface_x as i128) - (prev.surface_x as i128);
    let dy: i128 = (cur.surface_y as i128) - (prev.surface_y as i128);
    proof {
        assert(dx * dx >= 0 && dx * dx <= 0x1_0000_0000_0000_0000 && dy * dy >= 0 && dy * dy
            <= 0x1_0000_0000_0000_0000) by (nonlinear_arith)
            requires
                -0x1_0000_0000 < dx < 0x1_0000_0000,
                -0x1_0000_0000 < dy < 0x1_0000_0000,
        ;
    }
    let dist_sq: u128 = (dx * dx + dy * dy) as u128;
    let lhs: u128 = 1_000_000 * dist_sq;
    let d: u64 = if cur.time_ms >= prev.time_ms {
        cur.time_ms - prev.time_ms
    } else {
        0
    };
    if d == 0 {
        dist_sq > 0
    } else {
        proof {
            assert((threshold as u128) * (threshold as u128) < 0x1_0000_0000_0000_0000 && (
            d as u128) * (d as u128) < 0x1_0000_0000_0000_0000_0000_0000_0000_0000)
                by (nonlinear_arith)
                requires
                    0 <= (threshold as u128) < 0x1_0000_0000,
                    0 <= (d as u128) < 0x1_0000_0000_0000_0000,
            ;
        }
        let t2: u128 = (threshold as u128) * (threshold as u128);
        let d2: u128 = (d as u128) * (d as u128);
        if t2 == 0 {
            proof {
                assert(threshold * threshold == 0) by (nonlinear_arith)
                    requires
                        (threshold as u128) * (threshold as u128) == 0,
                ;
            }
            true
        } else {
            let r = d2 <= lhs / t2;
            proof {
                let q: int = (lhs as int) / (t2 as int);
                let m: int = (lhs as int) % (t2 as int);
                vstd::arithmetic::div_mod::lemma_fundamental_div_mod(lhs as int, t2 as int);
                vstd::arithmetic::div_mod::lemma_mod_bound(lhs as int, t2 as int);
                assert((d2 as int <= q) <==> ((t2 as int) * (d2 as int) <= lhs as int))
                    by (nonlinear_arith)
                    requires
                        lhs as int == (t2 as int) * q + m,
                        0 <= m < (t2 as int),
                        d2 as int >= 0,
                        t2 as int > 0,
                ;
            }
            r
        }
    }
}

/// The quiet gap Mode A enforces between a command's completion and the
/// next sample it accepts.
pub const DEBOUNCE_WINDOW_MS: u64 = 250;

/// Debounced-latch state: the sample that will be acted on at the next
/// quiet timeout, and when the previous command finished.
#[derive(Clone, Copy, Debug, PartialEq)]
pub struct DebounceState {
    pub pending: Option<CornerEvent>,
    pub cooldown_until: Option<u64>,
}

/// Whether a sample arriving at `now_ms` is taken up: always, unless it
/// comes within the debounce window after the previous command finished.
pub open spec fn accepts_sample(s: DebounceState, now_ms: u64) -> bool {
    match s.cooldown_until {
        Option::None => true,
        Option::Some(t) => now_ms >= t + DEBOUNCE_WINDOW_MS,
    }
}

/// One Mode-A step on an arriving sample: an accepted sample overwrites
/// whatever was pending; a sample inside the debounce window is dropped.
pub open spec fn spec_on_sample(s: DebounceState, event: CornerEvent, now_ms: u64) -> DebounceState {
    if accepts_sample(s, now_ms) {
        DebounceState { pending: Some(event), ..s }
    } else {
        s
    }
}

/// The command a pending sample calls for once the timeout elapses; motion
/// samples are not actionable in Mode A.
pub open spec fn spec_pending_command(e: CornerEvent) -> Option<CommandKind> {
    match e {
        CornerEvent::Enter => Some(CommandKind::Enter),
        CornerEvent::Leave => Some(CommandKind::Exit),
        CornerEvent::Motion(_) => None,
    }
}

impl DebounceState {
    pub open spec fn initial() -> DebounceState {
        DebounceState { pending: None, cooldown_until: None }
    }

    pub fn new() -> (s: DebounceState)
        ensures
            s == DebounceState::initial(),
    {
        DebounceState { pending: None, cooldown_until: None }
    }

    /// Takes in one sample that arrived before the timeout elapsed.
    pub fn on_sample(&mut self, event: CornerEvent, now_ms: u64)
        ensures
            *final(self) == spec_on_sample(*old(self), event, now_ms),
    {
        let accept = match self.cooldown_until {
            Option::None => true,
            Option::Some(t) => now_ms >= t && now_ms - t >= DEBOUNCE_WINDOW_MS,
        };
        if accept {
            self.pending = Some(event);
        }
    }

    /// The timeout elapsed with no sample: clears the pending slot and
    /// says whether a firing cycle ran (so its completion must be
    /// reported) and which command, if any, it runs.
    pub fn on_timeout(&mut self) -> (r: (bool, Option<CommandKind>))
        ensures
            final(self).pending is None,
            final(self).cooldown_until == old(self).cooldown_until,
            r.0 == (old(self).pending is Some),
            r.1 == match old(self).pending {
                Option::Some(e) => spec_pending_command(e),
                Option::None => None,
            },
    {
        match self.pending {
            Option::None => (false, None),
            Option::Some(e) => {
                self.pending = None;
                let k = match e {
                    CornerEvent::Enter => Some(CommandKind::Enter),
                    CornerEvent::Leave => Some(CommandKind::Exit),
                    CornerEvent::Motion(_) => None,
                };
                (true, k)
            },
        }
    }

    /// Records when a firing cycle finished, opening the debounce window.
    pub fn on_command_done(&mut self, done_at_ms: u64)
        ensures
            *final(self) == (DebounceState {
                cooldown_until: Some(done_at_ms),
                ..*old(self)
            }),
    {
        self.cooldown_until = Some(done_at_ms);
    }
}

/// The Mode-A state after a run of samples, none of them followed by a
/// timeout elapse.
pub open spec fn spec_after_samples(
    s: DebounceState,
    samples: Seq<(CornerEvent, u64)>,
) -> DebounceState
    decreases samples.len(),
{
    if samples.len() == 0 {
        s
    } else {
        spec_on_sample(spec_after_samples(s, samples.drop_last()), samples.last().0, samples.last().1)
    }
}

/// Law: while no timeout elapses and no cooldown is open, a run of samples
/// leaves exactly the last one pending; the earlier ones are dropped.
pub proof fn lemma_last_sample_wins(s: DebounceState, samples: Seq<(CornerEvent, u64)>)
    requires
        s.cooldown_until is None,
        samples.len() > 0,
    ensures
        spec_after_samples(s, samples) == (DebounceState {
            pending: Some(samples.last().0),
            cooldown_until: None,
        }),
    decreases samples.len(),
{
    if samples.len() == 1 {
        assert(samples.drop_last().len() == 0);
        assert(spec_after_samples(s, samples.drop_last()) == s);
        assert(s.cooldown_until == None::<u64>);
    } else {
        lemma_last_sample_wins(s, samples.drop_last());
    }
}

/// Law: a sample arriving strictly less than the debounce window after the
/// previous command's completion is discarded whole: it does not update
/// the pending slot.
pub proof fn lemma_cooldown_discards(s: DebounceState, e: CornerEvent, now_ms: u64)
    requires
        s.cooldown_until is Some,
        now_ms < s.cooldown_until->Some_0 + DEBOUNCE_WINDOW_MS,
    ensures
        spec_on_sample(s, e, now_ms) == s,
{
}

/// The Mode-B state after a run of events.
pub open spec fn spec_after_events(s: FlickInfo, events: Seq<CornerEvent>, threshold: u32) -> FlickInfo
    decreases events.len(),
{
    if events.len() == 0 {
        s
    } else {
        spec_event_step(spec_after_events(s, events.drop_last(), threshold), events.last(), threshold).0
    }
}

/// How many of the steps over `events` fire the flick command.
pub open spec fn spec_flick_count(s: FlickInfo, events: Seq<CornerEvent>, threshold: u32) -> int
    decreases events.len(),
{
    if events.len() == 0 {
        0
    } else {
        spec_flick_count(s, events.drop_last(), threshold) + if spec_event_step(
            spec_after_events(s, events.drop_last(), threshold),
            events.last(),
            threshold,
        ).1 == Some(CommandKind::Flick) {
            1int
        } else {
            0int
        }
    }
}

/// Law: within one hover session (no Leave among the events), the flick
/// command fires at most once, and never again once the session's
/// fired-flag is set.
pub proof fn lemma_flick_fires_at_most_once(s: FlickInfo, events: Seq<CornerEvent>, threshold: u32)
    requires
        forall|i: int| 0 <= i < events.len() ==> !((#[trigger] events[i]) is Leave),
    ensures
        s.action_was_done ==> spec_flick_count(s, events, threshold) == 0
            && spec_after_events(s, events, threshold).action_was_done,
        spec_flick_count(s, events, threshold) >= 1 ==> spec_after_events(
            s,
            events,
            threshold,
        ).action_was_done,
        spec_flick_count(s, events, threshold) <= 1,
    decreases events.len(),
{
    if events.len() > 0 {
        assert forall|i: int| 0 <= i < events.drop_last().len() implies !((#[trigger] events.drop_last()[i]) is Leave) by {
            assert(events.drop_last()[i] == events[i]);
        }
        lemma_flick_fires_at_most_once(s, events.drop_last(), threshold);
    }
}

/// Law: in a fresh session, a pair of motion samples crossing the speed
/// threshold fires the flick command on the second sample, exactly then,
/// and marks the session as fired.
pub proof fn lemma_qualifying_pair_fires(m0: CornerMotionEvent, m1: CornerMotionEvent, threshold: u32)
    requires
        flick_qualifies(m0, m1, threshold),
    ensures
        ({
            let s1 = spec_event_step(FlickInfo::cleared(), CornerEvent::Motion(m0), threshold);
            let s2 = spec_event_step(s1.0, CornerEvent::Motion(m1), threshold);
            &&& s1.1 is None
            &&& s2.1 == Some(CommandKind::Flick)
            &&& s2.0.action_was_done
        }),
{
}

/// Law: in a fresh session, a pair of motion samples below the speed
/// threshold fires nothing and leaves the session unfired.
pub proof fn lemma_slow_pair_does_not_fire(
    m0: CornerMotionEvent,
    m1: CornerMotionEvent,
    threshold: u32,
)
    requires
        !flick_qualifies(m0, m1, threshold),
    ensures
        ({
            let s1 = spec_event_step(FlickInfo::cleared(), CornerEvent::Motion(m0), threshold);
            let s2 = spec_event_step(s1.0, CornerEvent::Motion(m1), threshold);
            &&& s1.1 is None
            &&& s2.1 is None
            &&& !s2.0.action_was_done
        }),
{
}

/// Law: processing Leave always resets the gesture state, whatever it was.
pub proof fn lemma_leave_clears_gesture(s: FlickInfo, threshold: u32)
    ensures
        spec_event_step(s, CornerEvent::Leave, threshold).0 == FlickInfo::cleared(),
{
}

/// Law: after a Leave and a fresh Enter, a single Motion can never fire
/// the flick command, however fast the session before the Leave was: a new
/// qualifying pair of samples is needed.
pub proof fn lemma_fresh_session_needs_new_pair(s: FlickInfo, m: CornerMotionEvent, threshold: u32)
    ensures
        ({
            let s1 = spec_event_step(s, CornerEvent::Leave, threshold).0;
            let s2 = spec_event_step(s1, CornerEvent::Enter, threshold).0;
            spec_event_step(s2, CornerEvent::Motion(m), threshold).1 is None
        }),
{
}

/// What an output change means for one zone on that output.
#[derive(Clone, Copy, Debug, PartialEq, Eq, Structural)]
pub enum OutputDisposition {
    /// The output does not satisfy the zone's selector: leave it alone.
    Skip,
    /// The output is gone: drop the zone's regions bound to it.
    ClearBindings,
    /// The output matches and is live: instantiate the zone's regions on it.
    Instantiate,
}

/// The selector pattern a zone's configuration carries, if any.
pub open spec fn spec_selector_pattern(c: CornerConfig) -> Option<Seq<char>> {
    match c.output {
        Option::None => None,
        Option::Some(o) => match o.description {
            Option::None => None,
            Option::Some(d) => Some(d@),
        },
    }
}

/// Whether a zone belongs on an output with the given description.
pub open spec fn spec_is_match(c: CornerConfig, desc: Seq<char>) -> bool {
    spec_selector_matches(spec_selector_pattern(c), desc)
}

/// What an output change means for a zone: an unmatched output is skipped,
/// a matched but obsolete one has the zone's bindings cleared, a matched
/// live one gets the zone's regions.
pub open spec fn spec_output_disposition(
    c: CornerConfig,
    desc: Seq<char>,
    obsolete: bool,
) -> OutputDisposition {
    if !spec_is_match(c, desc) {
        OutputDisposition::Skip
    } else if obsolete {
        OutputDisposition::ClearBindings
    } else {
        OutputDisposition::Instantiate
    }
}

/// One configured zone: its settings and the gesture state of the current
/// hover session.
#[derive(Debug)]
pub struct Corner {
    pub config: CornerConfig,
    pub flick_info: FlickInfo,
}

impl Corner {
    pub fn new(config: CornerConfig) -> (c: Corner)
        ensures
            c.config == config,
            c.flick_info == FlickInfo::cleared(),
    {
        Corner { config, flick_info: Default::default() }
    }

    /// Whether this zone runs the debounced latch (Mode A) rather than
    /// immediate dispatch (Mode B).
    pub fn uses_debounce(&self) -> (r: bool)
        ensures
            r == (self.config.timeout_ms != 0),
    {
        self.config.timeout_ms != 0
    }

    /// Decides whether this zone belongs on an output with the given
    /// description. Reads the configuration only; zone state is untouched.
    pub fn is_match(&self, description: &str) -> (r: bool)
        ensures
            r == spec_is_match(self.config, description@),
    {
        let pattern: Option<&String> = match &self.config.output {
            Option::None => None,
            Option::Some(o) => match &o.description {
                Option::None => None,
                Option::Some(d) => Some(d),
            },
        };
        selector_matches(pattern, description)
    }

    /// Decides what an output change means for this zone.
    pub fn output_disposition(&self, description: &str, obsolete: bool) -> (r: OutputDisposition)
        ensures
            r == spec_output_disposition(self.config, description@, obsolete),
    {
        if !self.is_match(description) {
            OutputDisposition::Skip
        } else if obsolete {
            OutputDisposition::ClearBindings
        } else {
            OutputDisposition::Instantiate
        }
    }

    /// The configured argument vector a command kind names.
    pub fn command_for(&self, kind: CommandKind) -> (r: &Vec<String>)
        ensures
            *r == match kind {
                CommandKind::Enter => self.config.enter_command,
                CommandKind::Exit => self.config.exit_command,
                CommandKind::Flick => self.config.flick_command,
            },
    {
        match kind {
            CommandKind::Enter => &self.config.enter_command,
            CommandKind::Exit => &self.config.exit_command,
            CommandKind::Flick => &self.config.flick_command,
        }
    }

    /// Processes one sample in immediate-dispatch mode and says which of
    /// the zone's commands, if any, is to run now.
    pub fn handle_event(&mut self, event: CornerEvent) -> (r: Option<CommandKind>)
        ensures
            final(self).config == old(self).config,
            (final(self).flick_info, r) == spec_event_step(
                old(self).flick_info,
                event,
                old(self).config.flick_activation_speed,
            ),
    {
        match event {
            CornerEvent::Enter => Some(CommandKind::Enter),
            CornerEvent::Leave => {
                self.flick_info = Default::default();
                Some(CommandKind::Exit)
            },
            CornerEvent::Motion(m) => {
                if self.flick_info.action_was_done {
                    None
                } else {
                    let fires = match &self.flick_info.last_motion_event {
                        Option::Some(prev) => motion_qualifies(
                            prev,
                            &m,
                            self.config.flick_activation_speed,
                        ),
                        Option::None => false,
                    };
                    self.flick_info = FlickInfo { last_motion_event: Some(m), action_was_done: fires };
                    if fires {
                        Some(CommandKind::Flick)
                    } else {
                        None
                    }
                }
            },
        }
    }
}

} // verus!
