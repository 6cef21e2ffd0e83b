//! The decisions of the background session that keeps a presence alive.
//!
//! The session connects to Discord, waits for the READY event, replays the last
//! activity, then serves the client's commands and the server's frames until
//! the connection is lost, and starts again. The waiting and the I/O happen
//! outside; this module decides, from the state and each event, what comes next.

use vstd::prelude::*;

use crate::errors::DisconnectReason;
use crate::frame::{opcode_number, Opcode};
use crate::time::get_current_timestamp;
use crate::types::activity::{ActivitySpec, ActivitySpecModel};

verus! {

/// The delay, in seconds, before each new attempt to connect.
pub const RETRY_DELAY_SECS: u64 = 1;

/// The options of a runner.
#[derive(Debug, Clone, Copy)]
pub struct RunnerOptions {
    /// Whether errors are reported on standard error.
    pub show_errors: bool,
    /// How many failed attempts in a row end the session; 0 retries forever.
    pub max_retries: usize,
}

impl RunnerOptions {
    /// The default options: errors are not shown, and retries never stop.
    pub fn new() -> (o: RunnerOptions)
        ensures
            !o.show_errors,
            o.max_retries == 0,
    {
        RunnerOptions { show_errors: false, max_retries: 0 }
    }

    /// Turns error reporting on.
    pub fn show_errors(self) -> (o: RunnerOptions)
        ensures
            o.show_errors,
            o.max_retries == self.max_retries,
    {
        RunnerOptions { show_errors: true, max_retries: self.max_retries }
    }

    /// Sets how many failed attempts in a row end the session; 0 retries forever.
    pub fn set_max_retries(self, count: usize) -> (o: RunnerOptions)
        ensures
            o.show_errors == self.show_errors,
            o.max_retries == count,
    {
        RunnerOptions { show_errors: self.show_errors, max_retries: count }
    }
}

/// The abstract state of a session.
pub struct SessionModel {
    pub retries: usize,
    pub max_retries: usize,
    pub show_errors: bool,
    pub last_activity: Option<ActivitySpecModel>,
    pub session_start: Option<u64>,
    pub connected: bool,
    pub ready_pending: bool,
}

/// The state of the background session.
pub struct SessionState {
    retries: usize,
    max_retries: usize,
    show_errors: bool,
    last_activity: Option<ActivitySpec>,
    session_start: Option<u64>,
    connected: bool,
    ready_pending: bool,
}

impl View for SessionState {
    type V = SessionModel;

    closed spec fn view(&self) -> SessionModel {
        SessionModel {
            retries: self.retries,
            max_retries: self.max_retries,
            show_errors: self.show_errors,
            last_activity: match self.last_activity {
                Some(a) => Some(a@),
                None => None,
            },
            session_start: self.session_start,
            connected: self.connected,
            ready_pending: self.ready_pending,
        }
    }
}

/// The session gives up: a limit is set and that many attempts in a row failed.
pub open spec fn gives_up(m: SessionModel) -> bool {
    m.max_retries != 0 && m.retries == m.max_retries
}

/// The state after one more failed attempt to connect (the count stops at
/// `usize::MAX`).
pub open spec fn after_failure(m: SessionModel) -> SessionModel {
    SessionModel {
        retries: if m.retries < usize::MAX {
            (m.retries + 1) as usize
        } else {
            usize::MAX
        },
        ..m
    }
}

/// The state after `k` failed attempts in a row.
pub open spec fn after_failures(m: SessionModel, k: nat) -> SessionModel
    decreases k,
{
    if k == 0 {
        m
    } else {
        after_failure(after_failures(m, (k - 1) as nat))
    }
}

/// Without a limit the session never gives up; with a limit of `n`, a session
/// whose failures were forgotten gives up after exactly `n` failed attempts in a
/// row, and not before (counts beyond `usize::MAX` are left out: the count
/// saturates there).
pub proof fn lemma_retry_limit(m: SessionModel, k: nat)
    requires
        m.retries == 0,
        k <= usize::MAX,
    ensures
        m.max_retries == 0 ==> !gives_up(after_failures(m, k)),
        m.max_retries != 0 ==> (gives_up(after_failures(m, k)) <==> k == m.max_retries),
        after_failures(m, k).retries == k,
        after_failures(m, k).max_retries == m.max_retries,
    decreases k,
{
    if k > 0 {
        lemma_retry_limit(m, (k - 1) as nat);
    }
}

/// The state once READY arrived: connected, and the first READY announced.
pub open spec fn after_ready(m: SessionModel) -> SessionModel {
    SessionModel { connected: true, ready_pending: false, ..m }
}

/// The state once a handshake is done: the failures counted so far are forgotten.
pub open spec fn after_established(m: SessionModel) -> SessionModel {
    SessionModel { retries: 0, ..m }
}

/// The state once a connection ended.
pub open spec fn after_end(m: SessionModel) -> SessionModel {
    SessionModel { connected: false, ..m }
}

/// What the end of a connection reports to the disconnect callback: the reason
/// (`Unknown` when none is known) for a connected session, nothing otherwise.
pub open spec fn end_report(m: SessionModel, reason: Option<DisconnectReason>) -> Option<DisconnectReason> {
    if m.connected {
        Some(
            match reason {
                Some(r) => r,
                None => DisconnectReason::Unknown,
            },
        )
    } else {
        None
    }
}

/// The session start an activity set now is sent with: the stored one, or else
/// the clock reading (0 when the clock failed).
pub open spec fn start_for(m: SessionModel, clock: Option<u64>) -> u64 {
    match m.session_start {
        Some(s) => s,
        None => match clock {
            Some(t) => t,
            None => 0,
        },
    }
}

/// The state once the client set an activity, with this clock reading.
pub open spec fn after_set(m: SessionModel, a: ActivitySpecModel, clock: Option<u64>) -> SessionModel {
    SessionModel { last_activity: Some(a), session_start: Some(start_for(m, clock)), ..m }
}

/// The state once the client cleared the activity.
pub open spec fn after_clear(m: SessionModel) -> SessionModel {
    SessionModel { last_activity: None, session_start: None, ..m }
}

/// An event of the session, with what it carries.
pub enum SessionEvent {
    Failure,
    Ready,
    Established,
    End,
    SetActivity(ActivitySpecModel, Option<u64>),
    ClearActivity,
}

/// The state after one event.
pub open spec fn apply_event(m: SessionModel, e: SessionEvent) -> SessionModel {
    match e {
        SessionEvent::Failure => after_failure(m),
        SessionEvent::Ready => after_ready(m),
        SessionEvent::Established => after_established(m),
        SessionEvent::End => after_end(m),
        SessionEvent::SetActivity(a, clock) => after_set(m, a, clock),
        SessionEvent::ClearActivity => after_clear(m),
    }
}

/// The state after a sequence of events, in order.
pub open spec fn apply_events(m: SessionModel, events: Seq<SessionEvent>) -> SessionModel
    decreases events.len(),
{
    if events.len() == 0 {
        m
    } else {
        apply_event(apply_events(m, events.drop_last()), events.last())
    }
}

/// No event of the sequence comes from the client.
pub open spec fn no_commands(events: Seq<SessionEvent>) -> bool {
    forall|i: int| 0 <= i < events.len() ==> !(#[trigger] events[i] is SetActivity) && !(events[i] is ClearActivity)
}

/// No event of the sequence clears the activity.
pub open spec fn no_clear(events: Seq<SessionEvent>) -> bool {
    forall|i: int| 0 <= i < events.len() ==> !(#[trigger] events[i] is ClearActivity)
}

/// No event of the sequence is a READY.
pub open spec fn no_ready(events: Seq<SessionEvent>) -> bool {
    forall|i: int| 0 <= i < events.len() ==> !(#[trigger] events[i] is Ready)
}

/// The presence persists across reconnections: failed attempts, READY events,
/// handshakes and lost connections leave the last activity and its session
/// start as they were, so the next connection replays them.
pub proof fn lemma_presence_persists(m: SessionModel, events: Seq<SessionEvent>)
    requires
        no_commands(events),
    ensures
        apply_events(m, events).last_activity == m.last_activity,
        apply_events(m, events).session_start == m.session_start,
    decreases events.len(),
{
    if events.len() > 0 {
        assert(no_commands(events.drop_last())) by {
            assert forall|i: int| 0 <= i < events.drop_last().len() implies !(
            #[trigger] events.drop_last()[i] is SetActivity) && !(events.drop_last()[i] is ClearActivity) by {
                assert(events.drop_last()[i] == events[i]);
            }
        }
        lemma_presence_persists(m, events.drop_last());
        assert(!(events[events.len() - 1] is SetActivity) && !(events[events.len() - 1] is ClearActivity));
    }
}

/// The session start is stored, not read again: until the activity is
/// cleared, every activity set is sent with the start of the first one. After a
/// clear, the next activity set starts a session at the clock reading of that
/// moment.
pub proof fn lemma_session_start_stored(m: SessionModel, events: Seq<SessionEvent>, a: ActivitySpecModel, clock: Option<u64>)
    requires
        no_clear(events),
    ensures
        m.session_start matches Some(s) ==> apply_events(m, events).session_start == Some(s),
        after_set(after_clear(m), a, clock).session_start == Some(
            match clock {
                Some(t) => t,
                None => 0,
            },
        ),
    decreases events.len(),
{
    if events.len() > 0 {
        assert(no_clear(events.drop_last())) by {
            assert forall|i: int| 0 <= i < events.drop_last().len() implies !(
            #[trigger] events.drop_last()[i] is ClearActivity) by {
                assert(events.drop_last()[i] == events[i]);
            }
        }
        lemma_session_start_stored(m, events.drop_last(), a, clock);
        assert(!(events[events.len() - 1] is ClearActivity));
    }
}

/// A lost connection is reported once: after a connection ends, no further end
/// is reported until a READY comes, and an end is reported for every connection
/// that got READY.
pub proof fn lemma_disconnect_reported_once(
    m: SessionModel,
    events: Seq<SessionEvent>,
    r1: Option<DisconnectReason>,
    r2: Option<DisconnectReason>,
)
    requires
        no_ready(events),
    ensures
        end_report(after_ready(m), r1) is Some,
        end_report(apply_events(after_end(m), events), r2) is None,
    decreases events.len(),
{
    if events.len() > 0 {
        assert(no_ready(events.drop_last())) by {
            assert forall|i: int| 0 <= i < events.drop_last().len() implies !(
            #[trigger] events.drop_last()[i] is Ready) by {
                assert(events.drop_last()[i] == events[i]);
            }
        }
        lemma_disconnect_reported_once(m, events.drop_last(), r1, r2);
        assert(!(events[events.len() - 1] is Ready));
    }
}

/// Setting an activity always makes it the last activity, whatever was set
/// before: the runner sends and replays the activity set most recently. A
/// second activity set before any clear keeps the session start of the first.
pub proof fn lemma_set_activity_keeps_latest(
    m: SessionModel,
    a1: ActivitySpecModel,
    c1: Option<u64>,
    a2: ActivitySpecModel,
    c2: Option<u64>,
)
    ensures
        after_set(m, a1, c1).last_activity == Some(a1),
        after_set(after_set(m, a1, c1), a2, c2).last_activity == Some(a2),
        after_set(after_set(m, a1, c1), a2, c2).session_start == after_set(m, a1, c1).session_start,
        after_set(m, a1, c1).session_start is Some,
        m.session_start matches Some(s) ==> after_set(m, a1, c1).session_start == Some(s),
        m.session_start is None ==> after_set(m, a1, c1).session_start == Some(
            match c1 {
                Some(t) => t,
                None => 0,
            },
        ),
{
}

/// Whether errors are shown never changes whether a READY is recognised: an
/// opcode-1 frame whose command is DISPATCH and whose event is READY makes the
/// session ready (announcing it when it is the first), and flipping
/// `show_errors` changes no step into or out of `Ready`.
pub proof fn lemma_ready_ignores_show_errors(
    m: SessionModel,
    opcode: u32,
    cmd: Option<&str>,
    evt: Option<&str>,
)
    ensures
        is_text(cmd, "DISPATCH"@) && is_text(evt, "READY"@) ==> spec_ready_step(m, 1, Some((cmd, evt)))
            == (ReadyStep::Ready { signal: m.ready_pending }),
        spec_ready_step(m, opcode, Some((cmd, evt))) is Ready <==> spec_ready_step(
            SessionModel { show_errors: !m.show_errors, ..m },
            opcode,
            Some((cmd, evt)),
        ) is Ready,
        spec_ready_step(m, opcode, Some((cmd, evt))) is Ready ==> opcode == 1 && is_text(
            cmd,
            "DISPATCH"@,
        ) && is_text(evt, "READY"@),
        spec_ready_step(m, opcode, Some((cmd, evt))) is ReportError ==> m.show_errors && is_text(
            evt,
            "ERROR"@,
        ),
{
}

/// Showing errors only turns error frames into reports: for a frame whose
/// event is not ERROR the step is the same whether errors are shown or not, and
/// an echo of SET_ACTIVITY without an error always goes to the activity callback.
pub proof fn lemma_active_step_show_errors_only_reports(
    m: SessionModel,
    opcode: u32,
    cmd: Option<&str>,
    evt: Option<&str>,
)
    ensures
        !is_text(evt, "ERROR"@) ==> spec_active_step(m, opcode, Some((cmd, evt))) == spec_active_step(
            SessionModel { show_errors: !m.show_errors, ..m },
            opcode,
            Some((cmd, evt)),
        ),
        is_text(cmd, "SET_ACTIVITY"@) && !is_text(evt, "ERROR"@) ==> spec_active_step(
            m,
            1,
            Some((cmd, evt)),
        ) == ActiveStep::ActivitySent,
        !m.show_errors && is_text(cmd, "SET_ACTIVITY"@) ==> spec_active_step(m, 1, Some((cmd, evt)))
            == ActiveStep::ActivitySent,
        spec_active_step(m, opcode, Some((cmd, evt))) is ReportError ==> m.show_errors && is_text(
            evt,
            "ERROR"@,
        ),
{
}

/// What to do with a frame that arrives while waiting for READY.
#[derive(Debug, Clone, Copy, PartialEq, Eq, Structural)]
pub enum ReadyStep {
    /// Keep waiting.
    Wait,
    /// Report the error the server sent, and keep waiting.
    ReportError,
    /// The session is ready; `signal` says whether the first READY of the
    /// runner is to be announced to whoever waits for it.
    Ready { signal: bool },
}

/// What to do with a frame that arrives during a session.
#[derive(Debug, Clone, Copy, PartialEq, Eq, Structural)]
pub enum ActiveStep {
    /// Nothing.
    Ignore,
    /// Report the error the server sent.
    ReportError,
    /// The server echoed an activity: hand its data to the activity callback.
    ActivitySent,
    /// The server closed the connection.
    ServerClosed,
    /// Answer the ping with a pong that carries the same body.
    Pong,
}

/// The event and command of a frame are those given.
pub open spec fn is_text(o: Option<&str>, t: Seq<char>) -> bool {
    o matches Some(s) && s@ == t
}

/// How a frame is handled while waiting for READY. `parsed` holds the command
/// and event of the frame's JSON body, when it could be read.
pub open spec fn spec_ready_step(
    m: SessionModel,
    opcode: u32,
    parsed: Option<(Option<&str>, Option<&str>)>,
) -> ReadyStep {
    if opcode != opcode_number(Opcode::Frame) {
        ReadyStep::Wait
    } else {
        match parsed {
            None => ReadyStep::Wait,
            Some((cmd, evt)) => if is_text(cmd, "DISPATCH"@) && is_text(evt, "READY"@) {
                ReadyStep::Ready { signal: m.ready_pending }
            } else if is_text(evt, "ERROR"@) && m.show_errors {
                ReadyStep::ReportError
            } else {
                ReadyStep::Wait
            },
        }
    }
}

/// How a frame is handled during a session.
pub open spec fn spec_active_step(
    m: SessionModel,
    opcode: u32,
    parsed: Option<(Option<&str>, Option<&str>)>,
) -> ActiveStep {
    if opcode == opcode_number(Opcode::Frame) {
        match parsed {
            None => ActiveStep::Ignore,
            Some((cmd, evt)) => if is_text(evt, "ERROR"@) && m.show_errors {
                ActiveStep::ReportError
            } else if is_text(cmd, "SET_ACTIVITY"@) {
                ActiveStep::ActivitySent
            } else {
                ActiveStep::Ignore
            },
        }
    } else if opcode == opcode_number(Opcode::Close) {
        ActiveStep::ServerClosed
    } else if opcode == opcode_number(Opcode::Ping) {
        ActiveStep::Pong
    } else {
        ActiveStep::Ignore
    }
}

fn text_is(o: Option<&str>, t: &str) -> (b: bool)
    ensures
        b == is_text(o, t@),
{
    match o {
        Some(s) => str_eq(s, t),
        None => false,
    }
}

fn str_eq(a: &str, b: &str) -> (r: bool)
    ensures
        r == (a@ == b@),
{
    let a_s = a.to_owned();
    let b_s = b.to_owned();
    a_s == b_s
}

impl SessionState {
    /// A session that has not connected yet.
    pub fn new(options: RunnerOptions) -> (s: SessionState)
        ensures
            s@ == (SessionModel {
                retries: 0,
                max_retries: options.max_retries,
                show_errors: options.show_errors,
                last_activity: None,
                session_start: None,
                connected: false,
                ready_pending: true,
            }),
    {
        SessionState {
            retries: 0,
            max_retries: options.max_retries,
            show_errors: options.show_errors,
            last_activity: None,
            session_start: None,
            connected: false,
            ready_pending: true,
        }
    }

    /// Whether errors are to be reported.
    pub fn show_errors(&self) -> (b: bool)
        ensures
            b == self@.show_errors,
    {
        self.show_errors
    }

    /// Whether the session is connected (READY was received since the last
    /// disconnection).
    pub fn connected(&self) -> (b: bool)
        ensures
            b == self@.connected,
    {
        self.connected
    }

    /// Whether to give up before the next attempt to connect.
    pub fn should_give_up(&self) -> (b: bool)
        ensures
            b == gives_up(self@),
    {
        self.max_retries != 0 && self.retries == self.max_retries
    }

    /// An attempt to connect or to shake hands failed: counts it, and returns
    /// the count to hand to the retry callback.
    pub fn record_failed_attempt(&mut self) -> (count: usize)
        ensures
            final(self)@ == after_failure(old(self)@),
            count == final(self)@.retries,
    {
        if self.retries < usize::MAX {
            self.retries = self.retries + 1;
        }
        self.retries
    }

    /// Decides what to do with a frame while waiting for READY. On READY the
    /// session becomes connected, and the first READY of the runner is
    /// announced once.
    pub fn on_ready_frame(&mut self, opcode: u32, parsed: Option<(Option<&str>, Option<&str>)>) -> (step: ReadyStep)
        ensures
            step == spec_ready_step(old(self)@, opcode, parsed),
            step is Ready ==> final(self)@ == after_ready(old(self)@),
            !(step is Ready) ==> final(self)@ == old(self)@,
    {
        if opcode != Opcode::Frame.code() {
            return ReadyStep::Wait;
        }
        match parsed {
            None => ReadyStep::Wait,
            Some((cmd, evt)) => {
                if text_is(cmd, "DISPATCH") && text_is(evt, "READY") {
                    let signal = self.ready_pending;
                    self.ready_pending = false;
                    self.connected = true;
                    ReadyStep::Ready { signal }
                } else if text_is(evt, "ERROR") && self.show_errors {
                    ReadyStep::ReportError
                } else {
                    ReadyStep::Wait
                }
            },
        }
    }

    /// The activity to send again after reconnecting, with the start of its
    /// session: only when both are known.
    pub fn restore_target(&self) -> (r: Option<(&ActivitySpec, u64)>)
        ensures
            r matches Some((a, t)) ==> self@.last_activity == Some(a@) && self@.session_start == Some(t),
            r is None <==> (self@.last_activity is None || self@.session_start is None),
    {
        match (&self.last_activity, self.session_start) {
            (Some(a), Some(t)) => Some((a, t)),
            _ => None,
        }
    }

    /// The handshake is done and the activity restored: the failures counted so
    /// far are forgotten.
    pub fn on_session_established(&mut self)
        ensures
            final(self)@ == after_established(old(self)@),
    {
        self.retries = 0;
    }

    /// The client sets an activity, while the clock reads `clock` (`None` when
    /// it failed). It becomes the last activity; the session start is kept, or
    /// else taken from the clock reading (0 without one). Returns the session
    /// start to send the activity with.
    pub fn on_set_activity_at(&mut self, activity: ActivitySpec, clock: Option<u64>) -> (start: u64)
        ensures
            start == start_for(old(self)@, clock),
            final(self)@ == after_set(old(self)@, activity@, clock),
    {
        let start = match self.session_start {
            Some(s) => s,
            None => match clock {
                Some(t) => t,
                None => 0,
            },
        };
        self.session_start = Some(start);
        self.last_activity = Some(activity);
        start
    }

    /// The client sets an activity: the clock is read, then
    /// `on_set_activity_at` does the rest.
    pub fn on_set_activity(&mut self, activity: ActivitySpec) -> (start: u64)
        ensures
            exists|clock: Option<u64>|
                start == start_for(old(self)@, clock) && final(self)@ == after_set(
                    old(self)@,
                    activity@,
                    clock,
                ),
            old(self)@.session_start matches Some(s) ==> start == s,
    {
        let clock = match self.session_start {
            Some(_) => None,
            None => match get_current_timestamp() {
                Ok(t) => Some(t),
                Err(_) => None,
            },
        };
        self.on_set_activity_at(activity, clock)
    }

    /// The activity set last, if any.
    pub fn last_activity(&self) -> (r: Option<&ActivitySpec>)
        ensures
            r matches Some(a) ==> self@.last_activity == Some(a@),
            r is None <==> self@.last_activity is None,
    {
        self.last_activity.as_ref()
    }

    /// The client clears the activity: neither it nor its session start is kept.
    pub fn on_clear_activity(&mut self)
        ensures
            final(self)@ == after_clear(old(self)@),
    {
        self.last_activity = None;
        self.session_start = None;
    }

    /// Decides what to do with a frame during a session.
    pub fn on_active_frame(&self, opcode: u32, parsed: Option<(Option<&str>, Option<&str>)>) -> (step: ActiveStep)
        ensures
            step == spec_active_step(self@, opcode, parsed),
    {
        if opcode == Opcode::Frame.code() {
            match parsed {
                None => ActiveStep::Ignore,
                Some((cmd, evt)) => {
                    if text_is(evt, "ERROR") && self.show_errors {
                        ActiveStep::ReportError
                    } else if text_is(cmd, "SET_ACTIVITY") {
                        ActiveStep::ActivitySent
                    } else {
                        ActiveStep::Ignore
                    }
                },
            }
        } else if opcode == Opcode::Close.code() {
            ActiveStep::ServerClosed
        } else if opcode == Opcode::Ping.code() {
            ActiveStep::Pong
        } else {
            ActiveStep::Ignore
        }
    }

    /// The session ended, for `reason` if one is known. A connected session
    /// becomes disconnected and returns the reason to hand to the disconnect
    /// callback (`Unknown` when none is known); otherwise nothing is reported.
    pub fn on_session_end(&mut self, reason: Option<DisconnectReason>) -> (report: Option<DisconnectReason>)
        ensures
            final(self)@ == after_end(old(self)@),
            report == end_report(old(self)@, reason),
    {
        if self.connected {
            self.connected = false;
            match reason {
                Some(r) => Some(r),
                None => Some(DisconnectReason::Unknown),
            }
        } else {
            None
        }
    }
}

/// The reason a failed frame read ends the session: the peer closed the
/// connection when the read hit the end of the stream.
pub fn read_failure_reason(unexpected_eof: bool, message: String) -> (r: DisconnectReason)
    ensures
        unexpected_eof ==> r == DisconnectReason::PeerClosed,
        !unexpected_eof ==> r == DisconnectReason::ReadFrameError(message),
{
    if unexpected_eof {
        DisconnectReason::PeerClosed
    } else {
        DisconnectReason::ReadFrameError(message)
    }
}

} // verus!
