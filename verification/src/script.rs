//! The session of one script engine and the protocol of a call.
//!
//! The engine itself is driven by the host. A call is a short dialogue: the
//! pending call names the next thing to do on the engine, the host does it and
//! reports what happened, until the call is finished.

use vstd::prelude::*;
use crate::call_compiler::{compile_call, wrapper_source};
use crate::js_error::{JsError, JsErrorView, result_view};
use crate::js_value::{json_text, to_json_text, JsValue};
use crate::timeout::Timeout;

verus! {

/// The bookkeeping of one engine instance: the id of the slot in which the
/// next call will find its result, and the timeout of calls, if any.
#[derive(Debug)]
pub struct Script {
    last_rid: u32,
    timeout: Option<Timeout>,
}

/// What a `Script` stands for.
pub struct ScriptView {
    /// Id of the result slot of the next call; one is used up by each call
    /// that returns a value.
    pub last_rid: nat,
    /// How long a call may run before the watchdog terminates it.
    pub timeout: Option<Timeout>,
}

impl View for Script {
    type V = ScriptView;

    closed spec fn view(&self) -> ScriptView {
        ScriptView { last_rid: self.last_rid as nat, timeout: self.timeout }
    }
}

/// What the host has to do next on the engine.
#[derive(Clone, Copy, Debug, PartialEq, Eq, Structural)]
pub enum CallAction {
    /// Start a watchdog that terminates the engine's execution after the
    /// given time.
    ArmWatchdog(Timeout),
    /// Execute the snippet of the pending call.
    Execute,
    /// Run the event loop until no work is left.
    RunEventLoop,
    /// Take the value out of the result slot with the given id.
    TakeSlot(u32),
}

/// What the host reports back.
#[derive(Debug)]
pub enum CallEvent {
    /// The watchdog is running.
    WatchdogArmed,
    /// The snippet was executed, or the engine refused or aborted it.
    Executed(Result<(), String>),
    /// The event loop ran dry, or failed.
    EventLoopFinished(Result<(), String>),
    /// The value found in the slot, if there was one. The slot is empty now.
    SlotTaken(Option<JsValue>),
}

/// A `CallEvent` with texts in place of strings.
pub enum CallEventView {
    WatchdogArmed,
    Executed(Result<(), Seq<char>>),
    EventLoopFinished(Result<(), Seq<char>>),
    SlotTaken(Option<JsValue>),
}

/// The view of what the engine answered to a request that can only fail with
/// a message.
pub open spec fn answer_view(answer: Result<(), String>) -> Result<(), Seq<char>> {
    match answer {
        Ok(()) => Ok(()),
        Err(message) => Err(message@),
    }
}

impl View for CallEvent {
    type V = CallEventView;

    open spec fn view(&self) -> CallEventView {
        match *self {
            CallEvent::WatchdogArmed => CallEventView::WatchdogArmed,
            CallEvent::Executed(answer) => CallEventView::Executed(answer_view(answer)),
            CallEvent::EventLoopFinished(answer) => CallEventView::EventLoopFinished(
                answer_view(answer),
            ),
            CallEvent::SlotTaken(value) => CallEventView::SlotTaken(value),
        }
    }
}

/// A call that is under way. It holds the session until the call is finished.
#[derive(Debug)]
pub struct PendingCall {
    script: Script,
    source: String,
    action: CallAction,
}

/// What a `PendingCall` stands for.
pub struct CallModel {
    /// The session as it was when the call began.
    pub script: ScriptView,
    /// The snippet that makes the call.
    pub source: Seq<char>,
    /// What the host is asked to do.
    pub action: CallAction,
}

impl CallModel {
    /// The action fits the session: a watchdog is asked for only with the
    /// session's own timeout, a slot only with the session's slot id, and that
    /// id is not the last one there is.
    pub open spec fn wf(self) -> bool {
        &&& self.script.last_rid < u32::MAX
        &&& self.action matches CallAction::ArmWatchdog(t) ==> self.script.timeout == Some(t)
        &&& self.action matches CallAction::TakeSlot(rid) ==> rid == self.script.last_rid
    }
}

impl View for PendingCall {
    type V = CallModel;

    closed spec fn view(&self) -> CallModel {
        CallModel { script: self.script@, source: self.source@, action: self.action }
    }
}

/// How far a call has come after an event.
#[derive(Debug)]
pub enum CallProgress {
    /// The call goes on.
    Pending(PendingCall),
    /// The call is over: the session, and what the call returns.
    Finished(Script, Result<JsValue, JsError>),
}

/// What a `CallProgress` stands for.
pub enum CallProgressView {
    Pending(CallModel),
    Finished(ScriptView, Result<JsValue, JsErrorView>),
}

impl View for CallProgress {
    type V = CallProgressView;

    open spec fn view(&self) -> CallProgressView {
        match *self {
            CallProgress::Pending(call) => CallProgressView::Pending(call@),
            CallProgress::Finished(script, result) => CallProgressView::Finished(
                script@,
                result_view(result),
            ),
        }
    }
}

/// The first thing to do for a call: arm the watchdog if the session has a
/// timeout, else execute the snippet right away.
pub open spec fn first_action(script: ScriptView) -> CallAction {
    match script.timeout {
        Some(t) => CallAction::ArmWatchdog(t),
        None => CallAction::Execute,
    }
}

/// The session after a call that returned a value: the slot id has moved on
/// by one.
pub open spec fn after_result(script: ScriptView) -> ScriptView {
    ScriptView { last_rid: script.last_rid + 1, timeout: script.timeout }
}

/// The call with another action asked for.
pub open spec fn asking(call: CallModel, action: CallAction) -> CallModel {
    CallModel { script: call.script, source: call.source, action }
}

/// The protocol of a call. The watchdog is armed before anything runs. The
/// snippet is executed, then the event loop is run, then the slot is taken;
/// a failure of the engine ends the call with its message. A value in the
/// slot is the call's result and uses up the slot id; an empty slot is an
/// error. An event that does not answer the action asked for changes
/// nothing, so that the action is asked for again.
pub open spec fn after_event(call: CallModel, event: CallEventView) -> CallProgressView {
    match (call.action, event) {
        (CallAction::ArmWatchdog(_), CallEventView::WatchdogArmed) => CallProgressView::Pending(
            asking(call, CallAction::Execute),
        ),
        (CallAction::Execute, CallEventView::Executed(Ok(_))) => CallProgressView::Pending(
            asking(call, CallAction::RunEventLoop),
        ),
        (CallAction::Execute, CallEventView::Executed(Err(message))) => CallProgressView::Finished(
            call.script,
            Err(JsErrorView::Runtime(message)),
        ),
        (
            CallAction::RunEventLoop,
            CallEventView::EventLoopFinished(Ok(_)),
        ) => CallProgressView::Pending(
            asking(call, CallAction::TakeSlot(call.script.last_rid as u32)),
        ),
        (
            CallAction::RunEventLoop,
            CallEventView::EventLoopFinished(Err(message)),
        ) => CallProgressView::Finished(call.script, Err(JsErrorView::Runtime(message))),
        (
            CallAction::TakeSlot(_),
            CallEventView::SlotTaken(Some(value)),
        ) => CallProgressView::Finished(after_result(call.script), Ok(value)),
        (CallAction::TakeSlot(_), CallEventView::SlotTaken(None)) => CallProgressView::Finished(
            call.script,
            Err(JsErrorView::MissingResult),
        ),
        _ => CallProgressView::Pending(call),
    }
}

/// What the engine does during one call, as far as the call depends on it.
pub struct EngineAnswers {
    /// Whether the snippet could be executed.
    pub executed: Result<(), Seq<char>>,
    /// Whether the event loop ran dry without an error.
    pub quiesced: Result<(), Seq<char>>,
    /// What the script left in the result slot.
    pub slot: Option<JsValue>,
}

/// The report of a host that did what it was asked to do.
pub open spec fn answer_to(action: CallAction, engine: EngineAnswers) -> CallEventView {
    match action {
        CallAction::ArmWatchdog(_) => CallEventView::WatchdogArmed,
        CallAction::Execute => CallEventView::Executed(engine.executed),
        CallAction::RunEventLoop => CallEventView::EventLoopFinished(engine.quiesced),
        CallAction::TakeSlot(_) => CallEventView::SlotTaken(engine.slot),
    }
}

/// The number of actions that follow `action` in a call that goes well.
pub open spec fn actions_left(action: CallAction) -> nat {
    match action {
        CallAction::ArmWatchdog(_) => 3,
        CallAction::Execute => 2,
        CallAction::RunEventLoop => 1,
        CallAction::TakeSlot(_) => 0,
    }
}

/// The end of a call whose host answers every action with what the engine
/// did: the session after the call, and what the call returns.
pub open spec fn run_call(call: CallModel, engine: EngineAnswers) -> (
    ScriptView,
    Result<JsValue, JsErrorView>,
)
    decreases actions_left(call.action),
{
    match after_event(call, answer_to(call.action, engine)) {
        CallProgressView::Finished(script, result) => (script, result),
        CallProgressView::Pending(next) => if actions_left(next.action) < actions_left(
            call.action,
        ) {
            run_call(next, engine)
        } else {
            (call.script, Err(JsErrorView::MissingResult))
        },
    }
}

/// What a call comes to: the first failure of the engine, else the value in
/// the slot, else the error for an empty slot. Only a call that returns a
/// value moves the session's slot id.
pub open spec fn call_outcome(script: ScriptView, engine: EngineAnswers) -> (
    ScriptView,
    Result<JsValue, JsErrorView>,
) {
    match (engine.executed, engine.quiesced, engine.slot) {
        (Err(message), _, _) => (script, Err(JsErrorView::Runtime(message))),
        (Ok(_), Err(message), _) => (script, Err(JsErrorView::Runtime(message))),
        (Ok(_), Ok(_), None) => (script, Err(JsErrorView::MissingResult)),
        (Ok(_), Ok(_), Some(value)) => (after_result(script), Ok(value)),
    }
}

/// A call that has just begun on `script` with the snippet `source`.
pub open spec fn begun(script: ScriptView, source: Seq<char>) -> CallModel {
    CallModel { script, source, action: first_action(script) }
}

/// A call on a session with a timeout begins by arming the watchdog with
/// that timeout, and the snippet is asked to be executed only once the host
/// has reported the watchdog armed. A call on a session without a timeout
/// begins by executing the snippet.
pub proof fn lemma_watchdog_armed_before_execution(
    script: ScriptView,
    source: Seq<char>,
    event: CallEventView,
)
    ensures
        script.timeout is None ==> begun(script, source).action == CallAction::Execute,
        script.timeout matches Some(t) ==> {
            &&& begun(script, source).action == CallAction::ArmWatchdog(t)
            &&& after_event(begun(script, source), event) == if event is WatchdogArmed {
                CallProgressView::Pending(asking(begun(script, source), CallAction::Execute))
            } else {
                CallProgressView::Pending(begun(script, source))
            }
        },
{
}

/// No event changes the snippet or the session of a call that goes on, and
/// the call stays well-formed. When a call ends, the timeout is as before,
/// and the slot id has moved on by one if the call returns a value and not
/// at all if it fails.
pub proof fn lemma_event_keeps_session(call: CallModel, event: CallEventView)
    requires
        call.wf(),
    ensures
        match after_event(call, event) {
            CallProgressView::Pending(next) => {
                &&& next.script == call.script
                &&& next.source == call.source
                &&& next.wf()
                &&& actions_left(next.action) <= actions_left(call.action)
            },
            CallProgressView::Finished(script, result) => {
                &&& script.timeout == call.script.timeout
                &&& script.last_rid == call.script.last_rid + if result is Ok {
                    1nat
                } else {
                    0nat
                }
            },
        },
{
}

/// A call that the host drives faithfully comes to `call_outcome`: it fails
/// with the engine's message if the snippet or the event loop failed, returns
/// the value that the script left in the slot, and fails if the slot is
/// empty.
pub proof fn lemma_faithful_call_outcome(
    script: ScriptView,
    source: Seq<char>,
    engine: EngineAnswers,
)
    requires
        script.last_rid < u32::MAX,
    ensures
        run_call(begun(script, source), engine) == call_outcome(script, engine),
{
    let start = begun(script, source);
    let execute = asking(start, CallAction::Execute);
    let run_loop = asking(start, CallAction::RunEventLoop);
    let take = asking(start, CallAction::TakeSlot(script.last_rid as u32));
    assert(run_call(take, engine) == call_outcome(script, engine) || engine.executed is Err
        || engine.quiesced is Err);
    assert(run_call(run_loop, engine) == call_outcome(script, engine) || engine.executed is Err);
    assert(run_call(execute, engine) == call_outcome(script, engine));
    if script.timeout is Some {
        assert(after_event(start, answer_to(start.action, engine)) == CallProgressView::Pending(
            execute,
        ));
    } else {
        assert(start == execute);
    }
}

impl Script {
    /// The session of an engine that has made no call yet.
    pub fn new() -> (script: Script)
        ensures
            script@ == (ScriptView { last_rid: 0, timeout: None }),
    {
        Script { last_rid: 0, timeout: None }
    }

    /// The session of an engine on which the initial source has just been
    /// evaluated: a new session if that went well, else the engine's error.
    pub fn create_script(evaluated: Result<(), String>) -> (created: Result<Script, JsError>)
        ensures
            match evaluated {
                Ok(_) => created matches Ok(script) && script@ == (ScriptView {
                    last_rid: 0,
                    timeout: None,
                }),
                Err(message) => created matches Err(e) && e@ == JsErrorView::Runtime(message@),
            },
    {
        match evaluated {
            Ok(_) => Ok(Script::new()),
            Err(message) => Err(JsError::Runtime(message)),
        }
    }

    /// Id of the slot in which the next call will find its result.
    pub fn last_rid(&self) -> (rid: u32)
        ensures
            rid == self@.last_rid,
    {
        self.last_rid
    }

    /// The timeout of calls, if one was set.
    pub fn timeout(&self) -> (timeout: Option<Timeout>)
        ensures
            timeout == self@.timeout,
    {
        self.timeout
    }

    /// Gives the session a timeout: from now on every call arms a watchdog
    /// that terminates the engine's execution after that time. A session takes
    /// a timeout once, and the time must not be zero.
    pub fn with_timeout(self, timeout: Timeout) -> (script: Script)
        requires
            self@.timeout is None,
            timeout.is_positive(),
        ensures
            script@ == (ScriptView { last_rid: self@.last_rid, timeout: Some(timeout) }),
    {
        Script { last_rid: self.last_rid, timeout: Some(timeout) }
    }

    /// Begins a call of the function `fn_name` with the encoded, comma-joined
    /// arguments `json_args`. The session goes into the pending call and comes
    /// back when the call is finished.
    pub fn begin_call(self, fn_name: &str, json_args: &str) -> (call: PendingCall)
        requires
            self@.last_rid < u32::MAX,
        ensures
            call@ == (CallModel {
                script: self@,
                source: wrapper_source(fn_name@, json_args@),
                action: first_action(self@),
            }),
            call@.wf(),
    {
        let source = compile_call(fn_name, json_args);
        let action = match self.timeout {
            Some(t) => CallAction::ArmWatchdog(t),
            None => CallAction::Execute,
        };
        PendingCall { script: self, source, action }
    }

    /// Begins a call of the function `fn_name` with one JSON value, printed in
    /// compact form, as its argument list.
    pub fn begin_call_json(self, fn_name: &str, args: &JsValue) -> (call: PendingCall)
        requires
            self@.last_rid < u32::MAX,
        ensures
            call@ == (CallModel {
                script: self@,
                source: wrapper_source(fn_name@, json_text(*args)),
                action: first_action(self@),
            }),
            call@.wf(),
    {
        let json_args = to_json_text(args);
        self.begin_call(fn_name, json_args.as_str())
    }
}

impl PendingCall {
    #[verifier::type_invariant]
    spec fn inv(self) -> bool {
        self@.wf()
    }

    /// What the host has to do next.
    pub fn action(&self) -> (action: CallAction)
        ensures
            action == self@.action,
    {
        self.action
    }

    /// The snippet that makes the call.
    pub fn source(&self) -> (source: &str)
        ensures
            source@ == self@.source,
    {
        self.source.as_str()
    }

    /// Takes the host's report of what the engine did and moves the call on.
    pub fn advance(self, event: CallEvent) -> (progress: CallProgress)
        ensures
            progress@ == after_event(self@, event@),
            progress@ matches CallProgressView::Pending(next) ==> next.wf(),
    {
        proof {
            use_type_invariant(&self);
        }
        let PendingCall { script, source, action } = self;
        match (action, event) {
            (CallAction::ArmWatchdog(_), CallEvent::WatchdogArmed) => CallProgress::Pending(
                PendingCall { script, source, action: CallAction::Execute },
            ),
            (CallAction::Execute, CallEvent::Executed(Ok(_))) => CallProgress::Pending(
                PendingCall { script, source, action: CallAction::RunEventLoop },
            ),
            (CallAction::Execute, CallEvent::Executed(Err(message))) => CallProgress::Finished(
                script,
                Err(JsError::Runtime(message)),
            ),
            (CallAction::RunEventLoop, CallEvent::EventLoopFinished(Ok(_))) => {
                let rid = script.last_rid;
                CallProgress::Pending(
                    PendingCall { script, source, action: CallAction::TakeSlot(rid) },
                )
            },
            (
                CallAction::RunEventLoop,
                CallEvent::EventLoopFinished(Err(message)),
            ) => CallProgress::Finished(script, Err(JsError::Runtime(message))),
            (CallAction::TakeSlot(_), CallEvent::SlotTaken(Some(value))) => CallProgress::Finished(
                Script { last_rid: script.last_rid + 1, timeout: script.timeout },
                Ok(value),
            ),
            (CallAction::TakeSlot(_), CallEvent::SlotTaken(None)) => CallProgress::Finished(
                script,
                Err(JsError::MissingResult),
            ),
            (action, _) => CallProgress::Pending(PendingCall { script, source, action }),
        }
    }
}

} // verus!
