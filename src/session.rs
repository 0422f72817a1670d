//! The session with one backend process: its lifecycle, the handshake, and
//! the steps of one call.
//!
//! A call is driven in steps. `begin_call` and `advance` each return the
//! action that the caller performs next (start the process, write a line and
//! read one back, write a line only); the caller reports what happened as an
//! event, until the action is `Finish`, which carries the call's outcome.

use vstd::prelude::*;
use crate::json::{Json, is_text, entry_is};
use crate::codec::{
    Message, Response, frame, frames, request_shape, notification_shape, text_entry,
    parsed_json, parse_json, response_spec, decode_response,
};
use crate::envelope::{call_outcome, call_result};
use crate::error::BridgeError;

verus! {

/// Where the backend process stands.
#[derive(Debug, Clone, Copy, PartialEq, Eq, Structural)]
pub enum Phase {
    /// No process is running.
    Stopped,
    /// A process runs and has not completed the handshake.
    Started,
    /// A process runs and has completed the handshake.
    Ready,
}

/// Where the call in progress stands, with what it still has to send.
#[derive(Debug, PartialEq, Eq)]
pub enum Stage {
    /// No call is in progress.
    Idle,
    /// The process is being started.
    Spawning { tool: String, arguments: Json },
    /// The handshake request `id` was sent; its response is awaited.
    Handshaking { id: u64, tool: String, arguments: Json },
    /// The handshake acknowledgement is being written.
    Acknowledging { tool: String, arguments: Json },
    /// The operation request `id` was sent; its response is awaited.
    Invoking { id: u64 },
}

/// What the caller saw when performing an action.
#[derive(Debug, PartialEq, Eq)]
pub enum Event {
    /// The process was started.
    Spawned,
    /// The process could not be started.
    SpawnFailed { reason: String },
    /// A line that expects no reply was written.
    Written,
    /// A line was read back after a write.
    Line { text: String },
    /// The stream closed: a write failed or a read met its end. `exited`
    /// tells whether the process was then seen to have exited.
    Closed { exited: bool, code: Option<i32> },
}

/// What the caller does next.
#[derive(Debug, PartialEq, Eq)]
pub enum Action {
    /// Start the backend process.
    Spawn,
    /// Write `line`, then read exactly one line back.
    Exchange { line: String },
    /// Write `line` and read nothing.
    Notify { line: String },
    /// The call is over. Where the session is no longer running, the caller
    /// releases the process.
    Finish { outcome: Result<Json, BridgeError> },
}

/// The session: where the process stands, the next request id, and the call
/// in progress.
#[derive(Debug, PartialEq, Eq)]
pub struct Session {
    phase: Phase,
    next_id: u64,
    stage: Stage,
}

/// What a session holds, as contracts speak of it.
pub struct SessionView {
    pub phase: Phase,
    pub next_id: u64,
    pub stage: Stage,
}

impl View for Session {
    type V = SessionView;

    closed spec fn view(&self) -> SessionView {
        SessionView { phase: self.phase, next_id: self.next_id, stage: self.stage }
    }
}

/// The id that follows `id`; numbering starts again at one after the largest.
pub open spec fn next_after(id: u64) -> u64 {
    if id == u64::MAX {
        1
    } else {
        (id + 1) as u64
    }
}

/// `p` holds the protocol version and the client's identity.
pub open spec fn initialize_params(p: Json) -> bool {
    match p {
        Json::Object(e) => {
            &&& e@.len() == 3
            &&& e@[0].0@ == "protocolVersion"@
            &&& is_text(e@[0].1, "2024-11-05"@)
            &&& e@[1].0@ == "capabilities"@
            &&& e@[1].1 matches Json::Object(c) && c@.len() == 0
            &&& e@[2].0@ == "clientInfo"@
            &&& e@[2].1 matches Json::Object(ci) && {
                &&& ci@.len() == 2
                &&& ci@[0].0@ == "name"@
                &&& is_text(ci@[0].1, "apply-task-gui"@)
                &&& ci@[1].0@ == "version"@
                &&& is_text(ci@[1].1, "0.1.0"@)
            }
        },
        _ => false,
    }
}

/// `line` is one whole line: it ends in a line feed and holds no other.
pub open spec fn one_line(line: Seq<char>) -> bool {
    &&& line.len() > 0
    &&& line.last() == '\n'
    &&& forall|i: int| 0 <= i < line.len() - 1 ==> line[i] != '\n'
}

/// `line` is the handshake request with id `id`.
pub open spec fn initialize_line(line: Seq<char>, id: u64) -> bool {
    exists|j: Json, p: Json|
        initialize_params(p) && request_shape(j, id, "initialize"@, Some(p)) && frames(line, j)
            && one_line(line)
}

/// `line` is the handshake acknowledgement.
pub open spec fn initialized_line(line: Seq<char>) -> bool {
    exists|j: Json|
        notification_shape(j, "notifications/initialized"@) && frames(line, j) && one_line(line)
}

/// `p` names the operation `tool` and carries its arguments.
pub open spec fn tool_call_params(p: Json, tool: Seq<char>, arguments: Json) -> bool {
    match p {
        Json::Object(e) => {
            &&& e@.len() == 2
            &&& e@[0].0@ == "name"@
            &&& is_text(e@[0].1, tool)
            &&& entry_is(e@[1], "arguments"@, arguments)
        },
        _ => false,
    }
}

/// `line` is the request `id` that invokes the operation `tool`.
pub open spec fn tool_call_line(line: Seq<char>, id: u64, tool: Seq<char>, arguments: Json) -> bool {
    exists|j: Json, p: Json|
        tool_call_params(p, tool, arguments) && request_shape(j, id, "tools/call"@, Some(p))
            && frames(line, j) && one_line(line)
}

/// What the parsed document of a response line comes to for the request
/// `id`: the response, where it is readable and carries that id.
pub open spec fn paired(parsed: Option<Json>, id: u64) -> Result<Response, BridgeError> {
    match parsed {
        None => Err(BridgeError::MalformedResponse),
        Some(j) => match response_spec(j) {
            None => Err(BridgeError::MalformedResponse),
            Some(r) => if r.id == id {
                Ok(r)
            } else {
                Err(BridgeError::ResponseIdMismatch { expected: id, found: r.id })
            },
        },
    }
}

/// What a response line comes to for the request `id`.
pub open spec fn reply(text: Seq<char>, id: u64) -> Result<Response, BridgeError> {
    paired(parsed_json(text), id)
}

/// The failure reported when the stream closes.
pub open spec fn closed_error(exited: bool, code: Option<i32>) -> BridgeError {
    if exited {
        BridgeError::ProcessExited { status: code }
    } else {
        BridgeError::EmptyResponse
    }
}

/// A session with no call in progress.
pub open spec fn idle(phase: Phase, next_id: u64) -> SessionView {
    SessionView { phase, next_id, stage: Stage::Idle }
}

/// From `phase`, the call of `tool` moves the session to `s` and asks for
/// `a`: start the process, open the handshake, or send the operation.
pub open spec fn dispatched(
    phase: Phase,
    next_id: u64,
    tool: String,
    arguments: Json,
    s: SessionView,
    a: Action,
) -> bool {
    match phase {
        Phase::Stopped => a is Spawn && s == SessionView {
            phase: Phase::Stopped,
            next_id,
            stage: Stage::Spawning { tool, arguments },
        },
        Phase::Started => {
            &&& a matches Action::Exchange { line } && initialize_line(line@, next_id)
            &&& s == SessionView {
                phase: Phase::Started,
                next_id: next_after(next_id),
                stage: Stage::Handshaking { id: next_id, tool, arguments },
            }
        },
        Phase::Ready => {
            &&& a matches Action::Exchange { line } && tool_call_line(line@, next_id, tool@, arguments)
            &&& s == SessionView {
                phase: Phase::Ready,
                next_id: next_after(next_id),
                stage: Stage::Invoking { id: next_id },
            }
        },
    }
}

/// Starting a call of `tool` from `s` gives the session `s2` and the action `a`.
pub open spec fn begins(s: SessionView, tool: String, arguments: Json, s2: SessionView, a: Action) -> bool {
    s.stage is Idle && dispatched(s.phase, s.next_id, tool, arguments, s2, a)
}

/// `e` is an event that the stage of `s` waits for.
pub open spec fn accepts(s: SessionView, e: Event) -> bool {
    match s.stage {
        Stage::Idle => false,
        Stage::Spawning { .. } => e is Spawned || e is SpawnFailed,
        Stage::Handshaking { .. } => e is Line || e is Closed,
        Stage::Acknowledging { .. } => e is Written || e is Closed,
        Stage::Invoking { .. } => e is Line || e is Closed,
    }
}

/// The event `e` moves the session from `s` to `s2` and asks for `a`.
pub open spec fn transition(s: SessionView, e: Event, s2: SessionView, a: Action) -> bool {
    match (s.stage, e) {
        (Stage::Spawning { tool, arguments }, Event::Spawned) =>
            dispatched(Phase::Started, s.next_id, tool, arguments, s2, a),
        (Stage::Spawning { .. }, Event::SpawnFailed { reason }) => {
            &&& s2 == idle(Phase::Stopped, s.next_id)
            &&& a == Action::Finish { outcome: Err(BridgeError::ProcessSpawnFailed { reason }) }
        },
        (Stage::Handshaking { id, tool, arguments }, Event::Line { text }) => match reply(text@, id) {
            Err(err) => s2 == idle(s.phase, s.next_id) && a == Action::Finish { outcome: Err(err) },
            Ok(resp) => match resp.error {
                Some(re) => {
                    &&& s2 == idle(s.phase, s.next_id)
                    &&& a == Action::Finish {
                        outcome: Err(BridgeError::HandshakeFailed { code: re.code, message: re.message }),
                    }
                },
                None => {
                    &&& s2 == SessionView {
                        phase: s.phase,
                        next_id: s.next_id,
                        stage: Stage::Acknowledging { tool, arguments },
                    }
                    &&& a matches Action::Notify { line } && initialized_line(line@)
                },
            },
        },
        (Stage::Acknowledging { tool, arguments }, Event::Written) =>
            dispatched(Phase::Ready, s.next_id, tool, arguments, s2, a),
        (Stage::Invoking { id }, Event::Line { text }) => {
            &&& s2 == idle(s.phase, s.next_id)
            &&& a == Action::Finish {
                outcome: match reply(text@, id) {
                    Err(err) => Err(err),
                    Ok(resp) => call_outcome(resp),
                },
            }
        },
        (_, Event::Closed { exited, code }) => {
            &&& s2 == idle(if exited { Phase::Stopped } else { s.phase }, s.next_id)
            &&& a == Action::Finish { outcome: Err(closed_error(exited, code)) }
        },
        _ => false,
    }
}

/// The session after `shutdown`: stopped, with no call in progress.
pub open spec fn shut(s: SessionView) -> SessionView {
    idle(Phase::Stopped, s.next_id)
}

/// The handshake parameters: the protocol version and the client's identity.
pub fn initialize_payload() -> (p: Json)
    ensures
        initialize_params(p),
{
    let mut info: Vec<(String, Json)> = Vec::new();
    info.push(text_entry("name", "apply-task-gui"));
    info.push(text_entry("version", "0.1.0"));
    let mut e: Vec<(String, Json)> = Vec::new();
    e.push(text_entry("protocolVersion", "2024-11-05"));
    e.push((String::from_str("capabilities"), Json::Object(Vec::new())));
    e.push((String::from_str("clientInfo"), Json::Object(info)));
    Json::Object(e)
}

/// The parameters of an operation call: its name and its arguments.
pub fn tool_call_payload(tool: String, arguments: Json) -> (p: Json)
    ensures
        tool_call_params(p, tool@, arguments),
{
    let mut e: Vec<(String, Json)> = Vec::new();
    e.push(text_entry("name", tool.as_str()));
    e.push((String::from_str("arguments"), arguments));
    Json::Object(e)
}

/// Pairs the parsed document of a response line with the request `id`.
pub fn pair_reply(parsed: Option<Json>, id: u64) -> (r: Result<Response, BridgeError>)
    ensures
        r == paired(parsed, id),
{
    match parsed {
        None => Err(BridgeError::MalformedResponse),
        Some(j) => match decode_response(j) {
            None => Err(BridgeError::MalformedResponse),
            Some(resp) => if resp.id == id {
                Ok(resp)
            } else {
                Err(BridgeError::ResponseIdMismatch { expected: id, found: resp.id })
            },
        },
    }
}

/// Reads a response line and pairs it with the request `id`.
pub fn read_reply(text: &str, id: u64) -> (r: Result<Response, BridgeError>)
    ensures
        r == reply(text@, id),
{
    pair_reply(parse_json(text), id)
}

impl SessionView {
    /// The session invariant: the stage agrees with the phase, and ids start at one.
    pub open spec fn wf(&self) -> bool {
        &&& self.next_id >= 1
        &&& match self.stage {
            Stage::Idle => true,
            Stage::Spawning { .. } => self.phase == Phase::Stopped,
            Stage::Handshaking { .. } => self.phase == Phase::Started,
            Stage::Acknowledging { .. } => self.phase == Phase::Started,
            Stage::Invoking { .. } => self.phase == Phase::Ready,
        }
    }
}

impl Session {
    /// A session with no process yet: it starts on the first call.
    pub fn new() -> (s: Session)
        ensures
            s@ == idle(Phase::Stopped, 1),
            s@.wf(),
    {
        Session { phase: Phase::Stopped, next_id: 1, stage: Stage::Idle }
    }

    /// Whether a backend process is running.
    pub fn is_running(&self) -> (r: bool)
        ensures
            r == (self@.phase != Phase::Stopped),
    {
        self.phase != Phase::Stopped
    }

    /// Where the backend process stands.
    pub fn phase(&self) -> (r: Phase)
        ensures
            r == self@.phase,
    {
        self.phase
    }

    /// The id that the next request will carry.
    pub fn next_id(&self) -> (r: u64)
        ensures
            r == self@.next_id,
    {
        self.next_id
    }

    /// Whether no call is in progress.
    pub fn is_idle(&self) -> (r: bool)
        ensures
            r == (self@.stage is Idle),
    {
        match self.stage {
            Stage::Idle => true,
            _ => false,
        }
    }

    /// Whether the call in progress waits for `e`.
    pub fn accepts(&self, e: &Event) -> (r: bool)
        ensures
            r == accepts(self@, *e),
    {
        match (&self.stage, e) {
            (Stage::Spawning { .. }, Event::Spawned) => true,
            (Stage::Spawning { .. }, Event::SpawnFailed { .. }) => true,
            (Stage::Handshaking { .. }, Event::Line { .. }) => true,
            (Stage::Handshaking { .. }, Event::Closed { .. }) => true,
            (Stage::Acknowledging { .. }, Event::Written) => true,
            (Stage::Acknowledging { .. }, Event::Closed { .. }) => true,
            (Stage::Invoking { .. }, Event::Line { .. }) => true,
            (Stage::Invoking { .. }, Event::Closed { .. }) => true,
            _ => false,
        }
    }

    /// Ends the session's process: the session is stopped and the next call
    /// starts a new process and a new handshake. Returns whether a process
    /// was running, which the caller then terminates.
    pub fn shutdown(&mut self) -> (r: bool)
        requires
            old(self)@.wf(),
            old(self)@.stage is Idle,
        ensures
            final(self)@ == shut(old(self)@),
            final(self)@.wf(),
            r == (old(self)@.phase != Phase::Stopped),
    {
        let was = self.phase != Phase::Stopped;
        self.phase = Phase::Stopped;
        was
    }

    /// Starts a call of the operation `tool` with `arguments`: the first
    /// action starts the process, opens the handshake, or sends the
    /// operation request, as the phase asks.
    pub fn begin_call(&mut self, tool: String, arguments: Json) -> (a: Action)
        requires
            old(self)@.wf(),
            old(self)@.stage is Idle,
        ensures
            begins(old(self)@, tool, arguments, final(self)@, a),
            final(self)@.wf(),
    {
        self.dispatch(tool, arguments)
    }

    /// Takes the event that the last action brought about, and gives the
    /// next action.
    pub fn advance(&mut self, e: Event) -> (a: Action)
        requires
            old(self)@.wf(),
            accepts(old(self)@, e),
        ensures
            transition(old(self)@, e, final(self)@, a),
            final(self)@.wf(),
    {
        let mut stage = Stage::Idle;
        std::mem::swap(&mut self.stage, &mut stage);
        match (stage, e) {
            (Stage::Spawning { tool, arguments }, Event::Spawned) => {
                self.phase = Phase::Started;
                self.dispatch(tool, arguments)
            },
            (Stage::Spawning { .. }, Event::SpawnFailed { reason }) => {
                Action::Finish { outcome: Err(BridgeError::ProcessSpawnFailed { reason }) }
            },
            (Stage::Handshaking { id, tool, arguments }, Event::Line { text }) => {
                match read_reply(text.as_str(), id) {
                    Err(err) => Action::Finish { outcome: Err(err) },
                    Ok(resp) => match resp.error {
                        Some(re) => Action::Finish {
                            outcome: Err(BridgeError::HandshakeFailed { code: re.code, message: re.message }),
                        },
                        None => {
                            let j = Message::Notification {
                                method: String::from_str("notifications/initialized"),
                            }.to_json();
                            let line = frame(&j);
                            assert(initialized_line(line@));
                            self.stage = Stage::Acknowledging { tool, arguments };
                            Action::Notify { line }
                        },
                    },
                }
            },
            (Stage::Acknowledging { tool, arguments }, Event::Written) => {
                self.phase = Phase::Ready;
                self.dispatch(tool, arguments)
            },
            (Stage::Invoking { id }, Event::Line { text }) => {
                let outcome = match read_reply(text.as_str(), id) {
                    Err(err) => Err(err),
                    Ok(resp) => call_result(resp),
                };
                Action::Finish { outcome }
            },
            (_, Event::Closed { exited, code }) => {
                if exited {
                    self.phase = Phase::Stopped;
                    Action::Finish { outcome: Err(BridgeError::ProcessExited { status: code }) }
                } else {
                    Action::Finish { outcome: Err(BridgeError::EmptyResponse) }
                }
            },
            _ => Action::Finish { outcome: Err(BridgeError::EmptyResponse) },
        }
    }

    fn take_id(&mut self) -> (id: u64)
        ensures
            id == old(self).next_id,
            final(self).next_id == next_after(old(self).next_id),
            final(self).phase == old(self).phase,
            final(self).stage == old(self).stage,
    {
        let id = self.next_id;
        self.next_id = if id == u64::MAX { 1 } else { id + 1 };
        id
    }

    fn dispatch(&mut self, tool: String, arguments: Json) -> (a: Action)
        requires
            old(self).next_id >= 1,
        ensures
            dispatched(old(self).phase, old(self).next_id, tool, arguments, final(self)@, a),
    {
        match self.phase {
            Phase::Stopped => {
                self.stage = Stage::Spawning { tool, arguments };
                Action::Spawn
            },
            Phase::Started => {
                let id = self.take_id();
                let p = initialize_payload();
                let j = Message::Request { id, method: String::from_str("initialize"), params: Some(p) }.to_json();
                let line = frame(&j);
                assert(initialize_line(line@, id));
                self.stage = Stage::Handshaking { id, tool, arguments };
                Action::Exchange { line }
            },
            Phase::Ready => {
                let id = self.take_id();
                let ghost t = tool;
                let p = tool_call_payload(tool, arguments);
                let j = Message::Request { id, method: String::from_str("tools/call"), params: Some(p) }.to_json();
                let line = frame(&j);
                assert(tool_call_line(line@, id, t@, arguments));
                self.stage = Stage::Invoking { id };
                Action::Exchange { line }
            },
        }
    }
}

/// The id of the request whose response the stage waits for.
pub open spec fn awaited(stage: Stage) -> Option<u64> {
    match stage {
        Stage::Handshaking { id, .. } => Some(id),
        Stage::Invoking { id } => Some(id),
        _ => None,
    }
}

/// A response line is never paired with another request than the one it
/// answers: where the line holds a response with another id, the call
/// fails with `ResponseIdMismatch`; where the call goes on or succeeds,
/// the line's response carries the awaited id.
pub proof fn lemma_response_paired(s: SessionView, text: String, s2: SessionView, a: Action)
    requires
        s.wf(),
        transition(s, Event::Line { text }, s2, a),
    ensures
        awaited(s.stage) matches Some(id) ==> {
            &&& (a is Notify || a matches Action::Finish { outcome: Ok(_) }) ==> (reply(text@, id) matches Ok(r)
                && r.id == id)
            &&& match parsed_json(text@) {
                Some(j) => match response_spec(j) {
                    Some(r) => r.id != id ==> a == Action::Finish {
                        outcome: Err(BridgeError::ResponseIdMismatch { expected: id, found: r.id }),
                    },
                    None => true,
                },
                None => true,
            }
        },
{
}

/// Once the handshake is done, a call sends the operation request at once,
/// with no new handshake.
pub proof fn lemma_ready_skips_handshake(
    s: SessionView,
    tool: String,
    arguments: Json,
    s2: SessionView,
    a: Action,
)
    requires
        s.wf(),
        s.phase == Phase::Ready,
        begins(s, tool, arguments, s2, a),
    ensures
        s2.stage == (Stage::Invoking { id: s.next_id }),
        a matches Action::Exchange { line } && tool_call_line(line@, s.next_id, tool@, arguments),
{
}

/// A session that completed its handshake keeps it, and never opens
/// another, until its process is seen to exit (or it is shut down).
pub proof fn lemma_ready_until_exit(s: SessionView, e: Event, s2: SessionView, a: Action)
    requires
        s.wf(),
        s.phase == Phase::Ready,
        transition(s, e, s2, a),
    ensures
        !(s2.stage is Handshaking),
        s2.phase == Phase::Ready || e matches Event::Closed { exited: true, .. },
{
}

/// The only step into the completed handshake is the written
/// acknowledgement, which follows an accepted handshake response.
pub proof fn lemma_ready_after_handshake(s: SessionView, e: Event, s2: SessionView, a: Action)
    requires
        s.wf(),
        s.phase != Phase::Ready,
        s2.phase == Phase::Ready,
        transition(s, e, s2, a),
    ensures
        s.stage is Acknowledging,
        e is Written,
{
}

/// The handshake is opened only where the process has not completed one.
pub proof fn lemma_handshake_only_unready(s: SessionView, e: Event, s2: SessionView, a: Action)
    requires
        s.wf(),
        transition(s, e, s2, a),
        s2.stage is Handshaking,
    ensures
        s.phase != Phase::Ready,
        s.stage is Spawning,
        s2.phase == Phase::Started,
{
}

/// After `shutdown`, a call starts a new process and, once it runs, opens a
/// new handshake: nothing of the old handshake is kept.
pub proof fn lemma_shutdown_respawns(
    s: SessionView,
    tool: String,
    arguments: Json,
    s2: SessionView,
    a: Action,
    s3: SessionView,
    a3: Action,
)
    requires
        s.wf(),
        s.stage is Idle,
        begins(shut(s), tool, arguments, s2, a),
        transition(s2, Event::Spawned, s3, a3),
    ensures
        a is Spawn,
        s2.phase == Phase::Stopped,
        s3.phase == Phase::Started,
        s3.stage == (Stage::Handshaking { id: s.next_id, tool, arguments }),
        a3 matches Action::Exchange { line } && initialize_line(line@, s.next_id),
{
}

/// Where the stream closes and the process is seen to have exited, the call
/// reports `ProcessExited` and the session stops, so that the next call
/// starts a new process.
pub proof fn lemma_exit_reported(s: SessionView, code: Option<i32>, s2: SessionView, a: Action)
    requires
        s.wf(),
        transition(s, Event::Closed { exited: true, code }, s2, a),
    ensures
        a == (Action::Finish { outcome: Err(BridgeError::ProcessExited { status: code }) }),
        s2.phase == Phase::Stopped,
        s2.stage is Idle,
{
}

/// Every line that the session asks to be written is one whole line, so
/// writes made one call at a time never interleave within a line.
pub proof fn lemma_whole_lines(s: SessionView, e: Event, s2: SessionView, a: Action)
    requires
        s.wf(),
        transition(s, e, s2, a),
    ensures
        a matches Action::Exchange { line } ==> one_line(line@),
        a matches Action::Notify { line } ==> one_line(line@),
{
}

/// Request ids are handed out in order: each request that a step sends
/// carries the session's next id, and the counter moves past it.
pub proof fn lemma_ids_advance(s: SessionView, e: Event, s2: SessionView, a: Action)
    requires
        s.wf(),
        transition(s, e, s2, a),
    ensures
        match awaited(s2.stage) {
            Some(id) => id == s.next_id && s2.next_id == next_after(s.next_id),
            None => true,
        },
        !(a is Exchange) ==> s2.next_id == s.next_id,
{
}

} // verus!
