//! The callout engine: wraps one lifecycle action in hook-script stages.
//!
//! A wrapped invocation runs the pre stage, then the operation itself,
//! then the post stage, and finally — whatever happened before — the
//! notification stage. The engine is a verified state machine: the
//! surrounding program performs each directory probe, directory listing
//! and script run it is asked for, and reports the observed outcome; the
//! engine decides every next step.
//!
//! Discovery (pre/post): scripts are tried in listing order; exit code 0
//! claims the device and makes that script sticky for the rest of the
//! session, exit code 2 declines and the next script is tried, and any
//! other exit — or a death without an exit code — is a hard failure for
//! the stage, carrying the script path and exit code (the script is not
//! remembered as matched). A script that cannot be executed is skipped. A
//! missing or empty directory, or one whose scripts all decline, is a
//! no-op success. The notification stage invokes every script and ignores
//! their failures.

use vstd::prelude::*;

use crate::config::device_json;
use crate::errors::MdevError;
use crate::mdev::MDev;
use crate::mdev::start_label;
use crate::strutil::attrs_view;
use crate::strutil::basename;
use crate::strutil::basename_spec;
use crate::uuidstr::uuid_hyphenated;

verus! {

/// The stage a script is invoked for.
#[derive(Clone, Copy, Debug, PartialEq, Eq, Structural)]
pub enum Event {
    Pre,
    Post,
    Notify,
}

/// The lifecycle operation being wrapped, passed to scripts verbatim.
#[derive(Clone, Copy, Debug, PartialEq, Eq, Structural)]
pub enum Action {
    Start,
    Stop,
    Define,
    Undefine,
    Modify,
    List,
    Test,
    Attributes,
}

/// The operation outcome label passed to post and notify scripts.
#[derive(Clone, Copy, Debug, PartialEq, Eq, Structural)]
pub enum State {
    Unset,
    Success,
    Failure,
}

impl Event {
    /// The protocol label of this stage.
    pub fn label(&self) -> (r: &'static str)
        ensures
            *self is Pre ==> r@ == "pre"@,
            *self is Post ==> r@ == "post"@,
            *self is Notify ==> r@ == "notify"@,
    {
        match self {
            Event::Pre => "pre",
            Event::Post => "post",
            Event::Notify => "notify",
        }
    }
}

impl Action {
    /// The protocol label of this action.
    pub fn label(&self) -> (r: &'static str)
        ensures
            *self is Start ==> r@ == "start"@,
            *self is Stop ==> r@ == "stop"@,
            *self is Define ==> r@ == "define"@,
            *self is Undefine ==> r@ == "undefine"@,
            *self is Modify ==> r@ == "modify"@,
            *self is List ==> r@ == "list"@,
            *self is Test ==> r@ == "test"@,
            *self is Attributes ==> r@ == "attributes"@,
    {
        match self {
            Action::Start => "start",
            Action::Stop => "stop",
            Action::Define => "define",
            Action::Undefine => "undefine",
            Action::Modify => "modify",
            Action::List => "list",
            Action::Test => "test",
            Action::Attributes => "attributes",
        }
    }
}

impl State {
    /// The protocol label of this outcome.
    pub fn label(&self) -> (r: &'static str)
        ensures
            *self is Unset ==> r@ == "none"@,
            *self is Success ==> r@ == "success"@,
            *self is Failure ==> r@ == "failure"@,
    {
        match self {
            State::Unset => "none",
            State::Success => "success",
            State::Failure => "failure",
        }
    }
}

/// What the driver observed of one script run.
pub struct ScriptOutput {
    /// The exit code, or `None` when the process died without one.
    pub code: Option<i32>,
    pub stdout: String,
    pub stderr: String,
}

/// Captured script output the driver must surface, prefixed with the
/// script's file name, to the console or the journal per the sink mode.
pub struct Emission {
    pub script: String,
    pub stderr: String,
    pub stdout: String,
    pub use_syslog: bool,
}

/// One script invocation the driver must perform: spawn the script with
/// the protocol arguments and write `stdin_json` to its input stream.
/// `mdev_type` is `None` for the notification stage, whose argument list
/// omits the type.
pub struct ScriptCall {
    pub script: String,
    pub event: Event,
    pub action: Action,
    pub state: State,
    pub uuid: String,
    pub parent: String,
    pub mdev_type: Option<String>,
    pub stdin_json: String,
}

/// What the engine asks the driver to do next.
pub enum Op {
    /// Probe whether the stage's script directory exists; reply with
    /// `DirExists`.
    CheckDir { notify: bool },
    /// List the stage's script directory; reply with `Scripts`.
    ListScripts { notify: bool },
    /// Run one script; reply with `Ran`.
    RunScript { call: ScriptCall },
    /// Perform the wrapped operation itself; reply with `OperationDone`.
    RunOperation,
    /// The session is over with this result; no reply.
    Done { result: Result<(), MdevError> },
}

/// One step: output to surface first, if any, then the next thing to do.
pub struct Step {
    pub emit: Option<Emission>,
    pub op: Op,
}

/// What the driver reports back for the previous step.
pub enum Reply {
    DirExists { exists: bool },
    /// The directory listing in order, or `None` where it could not be
    /// read.
    Scripts { entries: Option<Vec<String>> },
    /// The script's captured output, or `None` where it could not be
    /// executed.
    Ran { output: Option<ScriptOutput> },
    OperationDone { result: Result<(), MdevError> },
}

/// The per-session callout state: the outcome label scripts are told, the
/// sticky script selected during discovery, and the output sink mode.
pub struct Callout {
    pub state: State,
    pub script: Option<String>,
    pub use_syslog: bool,
}

impl Callout {
    fn new() -> (r: Callout)
        ensures
            r.state is Unset,
            r.script is None,
            r.use_syslog == false,
    {
        Callout { state: State::Unset, script: None, use_syslog: false }
    }

    pub fn set_use_syslog(&mut self, use_syslog: bool)
        ensures
            final(self).use_syslog == use_syslog,
            final(self).state == old(self).state,
            final(self).script == old(self).script,
    {
        self.use_syslog = use_syslog;
    }

    /// Overrides the outcome label told to scripts.
    pub fn set_state(&mut self, state: State)
        ensures
            final(self).state == state,
            final(self).script == old(self).script,
            final(self).use_syslog == old(self).use_syslog,
    {
        self.state = state;
    }

    /// Begins one wrapped invocation of `action` around a device: the
    /// returned session drives pre stage, operation, post stage and
    /// notification stage in order, and the first step starts the pre
    /// stage. The device's JSON projection is computed here, once, and
    /// reused for every script of the session.
    pub fn invoke(dev: &MDev, use_syslog: bool, action: Action) -> (r: (Session, Step))
        ensures
            r.0.wf(),
            r.0.phase is PreCheck,
            r.0.action == action,
            r.0.callout.state is Unset,
            r.0.callout.script is None,
            r.0.callout.use_syslog == use_syslog,
            r.0.uuid@ == uuid_hyphenated(dev.uuid),
            r.0.parent == dev.parent,
            r.0.mdev_type == dev.mdev_type,
            r.0.pre_error is None,
            r.0.op_result is None,
            dev.mdev_type matches Some(t) ==> (r.0.conf matches Some(c) && c@ == device_json(
                t@,
                start_label(dev.autostart),
                attrs_view(dev.attrs@),
            )),
            dev.mdev_type is None ==> r.0.conf is None,
            r.1.emit is None,
            r.1.op == (Op::CheckDir { notify: false }),
    {
        let mut c = Callout::new();
        if use_syslog {
            c.set_use_syslog(use_syslog);
        }
        let conf = match dev.to_json(false) {
            Ok(s) => Some(s),
            Err(_) => None,
        };
        let parent = match &dev.parent {
            Some(p) => Some(p.clone()),
            None => None,
        };
        let mdev_type = match &dev.mdev_type {
            Some(t) => Some(t.clone()),
            None => None,
        };
        let session = Session {
            callout: c,
            action,
            uuid: dev.uuid_str(),
            parent,
            mdev_type,
            conf,
            phase: Phase::PreCheck,
            op_result: None,
            pre_error: None,
        };
        (session, Step { emit: None, op: Op::CheckDir { notify: false } })
    }
}

/// Where a session stands, with the stage-local scan position.
pub enum Phase {
    PreCheck,
    PreList,
    PreScan { entries: Vec<String>, idx: usize },
    Op,
    PostCheck,
    PostList,
    PostScan { entries: Vec<String>, idx: usize },
    PostSticky,
    NotifyCheck,
    NotifyList,
    NotifyScan { entries: Vec<String>, idx: usize },
    Finished,
}

/// One wrapped invocation in flight.
pub struct Session {
    pub callout: Callout,
    pub action: Action,
    pub uuid: String,
    pub parent: Option<String>,
    pub mdev_type: Option<String>,
    pub conf: Option<String>,
    pub phase: Phase,
    pub op_result: Option<Result<(), MdevError>>,
    pub pre_error: Option<MdevError>,
}

/// The result a finished session reports: the pre-stage failure where one
/// aborted the operation, else the operation's own result.
pub open spec fn session_result(
    pre_error: Option<MdevError>,
    op_result: Option<Result<(), MdevError>>,
) -> Result<(), MdevError> {
    match pre_error {
        Some(e) => Err(e),
        None => match op_result {
            Some(res) => res,
            None => Ok(()),
        },
    }
}

/// The expected surfacing of one script run: nothing where the script
/// could not be executed; otherwise its error stream when non-empty, and
/// for the notification stage also its output stream, prefixed with the
/// script's file name.
pub open spec fn emission_expected(
    script_path: String,
    output: Option<ScriptOutput>,
    notify: bool,
    use_syslog: bool,
    emit: Option<Emission>,
) -> bool {
    match output {
        None => emit is None,
        Some(out) => {
            if out.stderr@.len() > 0 || (notify && out.stdout@.len() > 0) {
                emit matches Some(em) && em.script@ == basename_spec(script_path@) && em.stderr
                    == out.stderr && (if notify {
                    em.stdout == out.stdout
                } else {
                    em.stdout@.len() == 0
                }) && em.use_syslog == use_syslog
            } else {
                emit is None
            }
        },
    }
}

/// The expected shape of one script invocation, over its ingredients.
pub open spec fn call_matches(
    call: ScriptCall,
    script: String,
    event: Event,
    action: Action,
    state: State,
    uuid: String,
    parent: Option<String>,
    mdev_type: Option<String>,
    conf: Option<String>,
) -> bool {
    &&& call.script == script
    &&& call.event == event
    &&& call.action == action
    &&& call.state == state
    &&& call.uuid == uuid
    &&& Some(call.parent) == parent
    &&& call.mdev_type == (if event is Notify {
        Option::<String>::None
    } else {
        mdev_type
    })
    &&& Some(call.stdin_json) == conf
}

/// The expected shape of a script invocation issued by session `s`.
pub open spec fn call_expected(s: Session, script: String, event: Event, call: ScriptCall) -> bool {
    call_matches(
        call,
        script,
        event,
        s.action,
        s.callout.state,
        s.uuid,
        s.parent,
        s.mdev_type,
        s.conf,
    )
}

impl Session {
    /// Whether the session holds everything a script invocation needs:
    /// the configuration text, a parent, and — outside the notification
    /// stage — a type.
    pub open spec fn can_run(self, notify: bool) -> bool {
        self.conf is Some && self.parent is Some && (notify || self.mdev_type is Some)
    }

    /// Well-formedness: scan positions address an entry, the sticky phase
    /// holds a selection, running phases hold what invocations need, and
    /// the fields a finished stage decided are present.
    pub open spec fn wf(self) -> bool {
        &&& match self.phase {
            Phase::PreCheck => self.op_result is None && self.pre_error is None,
            Phase::PreList => self.op_result is None && self.pre_error is None && self.can_run(
                false,
            ),
            Phase::PreScan { entries, idx } => self.op_result is None && self.pre_error is None
                && self.can_run(false) && idx < entries@.len(),
            Phase::Op => self.op_result is None && self.pre_error is None,
            Phase::PostCheck => self.op_result is Some && self.pre_error is None,
            Phase::PostList => self.op_result is Some && self.pre_error is None && self.can_run(
                false,
            ),
            Phase::PostScan { entries, idx } => self.op_result is Some && self.pre_error is None
                && self.can_run(false) && idx < entries@.len(),
            Phase::PostSticky => self.op_result is Some && self.pre_error is None && self.can_run(
                false,
            ) && self.callout.script is Some,
            Phase::NotifyCheck => self.op_result is Some || self.pre_error is Some,
            Phase::NotifyList => (self.op_result is Some || self.pre_error is Some)
                && self.can_run(true),
            Phase::NotifyScan { entries, idx } => (self.op_result is Some
                || self.pre_error is Some) && self.can_run(true) && idx < entries@.len(),
            Phase::Finished => true,
        }
    }

    /// Which reply kind the session expects next.
    pub open spec fn expects(self, reply: Reply) -> bool {
        match self.phase {
            Phase::PreCheck | Phase::PostCheck | Phase::NotifyCheck => reply is DirExists,
            Phase::PreList | Phase::PostList | Phase::NotifyList => reply is Scripts,
            Phase::PreScan { .. } | Phase::PostScan { .. } | Phase::PostSticky
                | Phase::NotifyScan { .. } => reply is Ran,
            Phase::Op => reply is OperationDone,
            Phase::Finished => false,
        }
    }
}

/// Copies an optional string, preserving its value.
fn clone_opt(o: &Option<String>) -> (r: Option<String>)
    ensures
        r == *o,
{
    match o {
        Some(s) => Some(s.clone()),
        None => None,
    }
}

/// Builds one script invocation from its ingredients.
fn make_call(
    callout: &Callout,
    action: Action,
    uuid: &String,
    parent: &Option<String>,
    mdev_type: &Option<String>,
    conf: &Option<String>,
    script: String,
    event: Event,
) -> (r: ScriptCall)
    requires
        parent is Some,
        conf is Some,
    ensures
        call_matches(
            r,
            script,
            event,
            action,
            callout.state,
            *uuid,
            *parent,
            *mdev_type,
            *conf,
        ),
{
    let parent = match parent {
        Some(p) => p.clone(),
        None => String::new(),
    };
    let stdin_json = match conf {
        Some(c) => c.clone(),
        None => String::new(),
    };
    let mdev_type = match event {
        Event::Notify => None,
        _ => clone_opt(mdev_type),
    };
    ScriptCall {
        script,
        event,
        action,
        state: callout.state,
        uuid: uuid.clone(),
        parent,
        mdev_type,
        stdin_json,
    }
}

/// What a pre-stage scan does after one non-claiming, non-failing
/// outcome: run the next script, or — the directory exhausted without a
/// claim or a hard failure — a no-op success that runs the operation.
pub open spec fn pre_continue_ok(
    s: Session,
    entries: Vec<String>,
    idx: usize,
    r: (Session, Step),
) -> bool {
    &&& r.0.callout.script == s.callout.script
    &&& r.0.callout.state == s.callout.state
    &&& r.0.pre_error is None
    &&& r.0.op_result is None
    &&& if idx + 1 < entries@.len() {
        ({
            &&& r.0.phase matches Phase::PreScan { entries: e2, idx: i2 } && e2 == entries && i2
                == idx + 1
            &&& r.1.op matches Op::RunScript { call } && call_expected(
                s,
                entries@[idx as int + 1],
                Event::Pre,
                call,
            )
        })
    } else {
        ({
            &&& r.0.phase is Op
            &&& r.1.op is RunOperation
        })
    }
}

/// A pre-stage hard failure: the operation is aborted, the error carries
/// the script path and exit code, nothing is remembered as matched, and
/// the session moves straight to the notification stage.
pub open spec fn pre_hard_failure(
    s: Session,
    entries: Vec<String>,
    idx: usize,
    code: Option<i32>,
    r: (Session, Step),
) -> bool {
    &&& r.0.phase is NotifyCheck
    &&& r.1.op == (Op::CheckDir { notify: true })
    &&& r.0.pre_error matches Some(e) && e matches MdevError::ScriptFailure { script, code: c2 }
        && script == entries@[idx as int] && c2 == code
    &&& r.0.callout.script == s.callout.script
    &&& r.0.callout.state == s.callout.state
    &&& r.0.op_result is None
}

/// The post stage is over — its own failures never change the already
/// determined operation outcome — and the notification stage begins.
pub open spec fn post_stage_end(s: Session, r: (Session, Step)) -> bool {
    &&& r.0.phase is NotifyCheck
    &&& r.1.op == (Op::CheckDir { notify: true })
    &&& r.0.op_result == s.op_result
    &&& r.0.callout.state == s.callout.state
    &&& r.0.pre_error is None
}

/// What a post-stage scan does after one non-claiming, non-failing
/// outcome: run the next script, or end the stage.
pub open spec fn post_continue_ok(
    s: Session,
    entries: Vec<String>,
    idx: usize,
    r: (Session, Step),
) -> bool {
    &&& r.0.callout.script == s.callout.script
    &&& r.0.callout.state == s.callout.state
    &&& if idx + 1 < entries@.len() {
        ({
            &&& r.0.phase matches Phase::PostScan { entries: e2, idx: i2 } && e2 == entries && i2
                == idx + 1
            &&& r.1.op matches Op::RunScript { call } && call_expected(
                s,
                entries@[idx as int + 1],
                Event::Post,
                call,
            )
            &&& r.0.op_result == s.op_result
            &&& r.0.pre_error is None
        })
    } else {
        post_stage_end(s, r)
    }
}

/// The session is over: the step reports the pre-stage failure where one
/// aborted the operation, else the operation's own result.
pub open spec fn session_finished(s: Session, r: (Session, Step)) -> bool {
    &&& r.0.phase is Finished
    &&& r.1.op matches Op::Done { result } && result == session_result(s.pre_error, s.op_result)
}

/// What the notification stage does after one script: run the next one —
/// every notification script runs, whatever the previous ones did — or
/// finish the session.
pub open spec fn notify_continue_ok(
    s: Session,
    entries: Vec<String>,
    idx: usize,
    r: (Session, Step),
) -> bool {
    if idx + 1 < entries@.len() {
        ({
            &&& r.0.phase matches Phase::NotifyScan { entries: e2, idx: i2 } && e2 == entries
                && i2 == idx + 1
            &&& r.1.op matches Op::RunScript { call } && call_expected(
                s,
                entries@[idx as int + 1],
                Event::Notify,
                call,
            )
            &&& r.0.pre_error == s.pre_error
            &&& r.0.op_result == s.op_result
        })
    } else {
        session_finished(s, r)
    }
}

/// Builds the surfacing of one script run.
fn build_emission(
    script_path: &String,
    output: &Option<ScriptOutput>,
    notify: bool,
    use_syslog: bool,
) -> (r: Option<Emission>)
    ensures
        emission_expected(*script_path, *output, notify, use_syslog, r),
{
    match output {
        None => None,
        Some(out) => {
            let has_stderr = !out.stderr.as_str().is_empty();
            let has_stdout = notify && !out.stdout.as_str().is_empty();
            if has_stderr || has_stdout {
                let stdout = if notify {
                    out.stdout.clone()
                } else {
                    String::new()
                };
                Some(
                    Emission {
                        script: basename(script_path.as_str()),
                        stderr: out.stderr.clone(),
                        stdout,
                        use_syslog,
                    },
                )
            } else {
                None
            }
        },
    }
}

/// The finished session's result.
fn finish_result(
    pre_error: Option<MdevError>,
    op_result: Option<Result<(), MdevError>>,
) -> (r: Result<(), MdevError>)
    ensures
        r == session_result(pre_error, op_result),
{
    match pre_error {
        Some(e) => Err(e),
        None => match op_result {
            Some(res) => res,
            None => Ok(()),
        },
    }
}

/// Everything one engine step guarantees, over the session before the
/// step, the reply, and the resulting session and step. This is the whole
/// contract of `Session::step`, named so that laws spanning several steps
/// can be stated and proved over chains of it.
pub open spec fn step_post(s: Session, reply: Reply, r: (Session, Step)) -> bool {
        &&& (r.0.wf())
        &&& (r.0.action == s.action)
        &&& (r.0.uuid == s.uuid)
        &&& (r.0.parent == s.parent)
        &&& (r.0.mdev_type == s.mdev_type)
        &&& (r.0.conf == s.conf)
        &&& (r.0.callout.use_syslog == s.callout.use_syslog)
        &&& (s.pre_error is Some ==> !(r.1.op is RunOperation))
        &&& (s.phase is PreCheck ==> (reply matches Reply::DirExists { exists } ==> ({
                    &&& r.0.callout == s.callout
                    &&& r.0.pre_error is None
                    &&& r.0.op_result is None
                    &&& r.1.emit is None
                    &&& (!(exists && s.can_run(false)) ==> r.0.phase is Op
                        && r.1.op is RunOperation)
                    &&& (exists && s.can_run(false) ==> r.0.phase is PreList && r.1.op == (
                    Op::ListScripts { notify: false }))
                })))
        &&& (s.phase is PreList ==> (reply matches Reply::Scripts { entries } ==> ({
                    &&& r.0.callout == s.callout
                    &&& r.0.pre_error is None
                    &&& r.0.op_result is None
                    &&& r.1.emit is None
                    &&& (match entries {
                        None => r.0.phase is Op && r.1.op is RunOperation,
                        Some(v) => {
                            &&& (v@.len() == 0 ==> r.0.phase is Op && r.1.op is RunOperation)
                            &&& (v@.len() > 0 ==> ({
                                &&& r.0.phase matches Phase::PreScan { entries: e2, idx: i2 } && e2
                                    == v && i2 == 0
                                &&& r.1.op matches Op::RunScript { call } && call_expected(
                                    s,
                                    v@[0],
                                    Event::Pre,
                                    call,
                                )
                            }))
                        },
                    })
                })))
        &&& (s.phase matches Phase::PreScan { entries, idx } ==> (reply matches Reply::Ran {
                    output,
                } ==> ({
                    &&& emission_expected(
                        entries@[idx as int],
                        output,
                        false,
                        s.callout.use_syslog,
                        r.1.emit,
                    )
                    &&& (match output {
                        None => pre_continue_ok(s, entries, idx, r),
                        Some(out) => match out.code {
                            Some(c) => {
                                &&& (c == 2 ==> pre_continue_ok(s, entries, idx, r))
                                &&& (c == 0 ==> ({
                                    &&& r.0.callout.script == Some(entries@[idx as int])
                                    &&& r.0.callout.state == s.callout.state
                                    &&& r.0.phase is Op
                                    &&& r.1.op is RunOperation
                                    &&& r.0.pre_error is None
                                    &&& r.0.op_result is None
                                }))
                                &&& (c != 0 && c != 2 ==> pre_hard_failure(
                                    s,
                                    entries,
                                    idx,
                                    Some(c),
                                    r,
                                ))
                            },
                            None => pre_hard_failure(s, entries, idx, None, r),
                        },
                    })
                })))
        &&& (s.phase is Op ==> (reply matches Reply::OperationDone { result } ==> ({
                    &&& r.0.op_result == Some(result)
                    &&& r.0.callout.state == (if result is Ok {
                        State::Success
                    } else {
                        State::Failure
                    })
                    &&& r.0.callout.script == s.callout.script
                    &&& r.0.pre_error is None
                    &&& r.0.phase is PostCheck
                    &&& r.1.op == (Op::CheckDir { notify: false })
                    &&& r.1.emit is None
                })))
        &&& (s.phase is PostCheck ==> (reply matches Reply::DirExists { exists } ==> ({
                    &&& r.0.callout == s.callout
                    &&& r.1.emit is None
                    &&& (!(exists && s.can_run(false)) ==> post_stage_end(s, r))
                    &&& (exists && s.can_run(false) ==> (match s.callout.script {
                        Some(sel) => ({
                            &&& r.0.phase is PostSticky
                            &&& r.1.op matches Op::RunScript { call } && call_expected(
                                s,
                                sel,
                                Event::Post,
                                call,
                            )
                            &&& r.0.op_result == s.op_result
                            &&& r.0.pre_error is None
                        }),
                        None => ({
                            &&& r.0.phase is PostList
                            &&& r.1.op == (Op::ListScripts { notify: false })
                            &&& r.0.op_result == s.op_result
                            &&& r.0.pre_error is None
                        }),
                    }))
                })))
        &&& (s.phase is PostList ==> (reply matches Reply::Scripts { entries } ==> ({
                    &&& r.0.callout == s.callout
                    &&& r.1.emit is None
                    &&& (match entries {
                        None => post_stage_end(s, r),
                        Some(v) => {
                            &&& (v@.len() == 0 ==> post_stage_end(s, r))
                            &&& (v@.len() > 0 ==> ({
                                &&& r.0.phase matches Phase::PostScan { entries: e2, idx: i2 } && e2
                                    == v && i2 == 0
                                &&& r.1.op matches Op::RunScript { call } && call_expected(
                                    s,
                                    v@[0],
                                    Event::Post,
                                    call,
                                )
                                &&& r.0.op_result == s.op_result
                                &&& r.0.pre_error is None
                            }))
                        },
                    })
                })))
        &&& (s.phase matches Phase::PostScan { entries, idx } ==> (reply matches Reply::Ran {
                    output,
                } ==> ({
                    &&& emission_expected(
                        entries@[idx as int],
                        output,
                        false,
                        s.callout.use_syslog,
                        r.1.emit,
                    )
                    &&& (match output {
                        None => post_continue_ok(s, entries, idx, r),
                        Some(out) => match out.code {
                            Some(c) => {
                                &&& (c == 2 ==> post_continue_ok(s, entries, idx, r))
                                &&& (c == 0 ==> r.0.callout.script == Some(entries@[idx as int])
                                    && post_stage_end(s, r))
                                &&& (c != 0 && c != 2 ==> r.0.callout.script == s.callout.script
                                    && post_stage_end(s, r))
                            },
                            None => r.0.callout.script == s.callout.script && post_stage_end(
                                s,
                                r,
                            ),
                        },
                    })
                })))
        &&& (s.phase is PostSticky ==> (reply matches Reply::Ran { output } ==> ({
                    &&& emission_expected(
                        s.callout.script->Some_0,
                        output,
                        false,
                        s.callout.use_syslog,
                        r.1.emit,
                    )
                    &&& r.0.callout == s.callout
                    &&& post_stage_end(s, r)
                })))
        &&& (s.phase is NotifyCheck ==> (reply matches Reply::DirExists { exists } ==> ({
                    &&& r.0.callout == s.callout
                    &&& r.1.emit is None
                    &&& (!(exists && s.can_run(true)) ==> session_finished(s, r))
                    &&& (exists && s.can_run(true) ==> ({
                        &&& r.0.phase is NotifyList
                        &&& r.1.op == (Op::ListScripts { notify: true })
                        &&& r.0.pre_error == s.pre_error
                        &&& r.0.op_result == s.op_result
                    }))
                })))
        &&& (s.phase is NotifyList ==> (reply matches Reply::Scripts { entries } ==> ({
                    &&& r.0.callout == s.callout
                    &&& r.1.emit is None
                    &&& (match entries {
                        None => session_finished(s, r),
                        Some(v) => {
                            &&& (v@.len() == 0 ==> session_finished(s, r))
                            &&& (v@.len() > 0 ==> ({
                                &&& r.0.phase matches Phase::NotifyScan { entries: e2, idx: i2 } && e2
                                    == v && i2 == 0
                                &&& r.1.op matches Op::RunScript { call } && call_expected(
                                    s,
                                    v@[0],
                                    Event::Notify,
                                    call,
                                )
                                &&& r.0.pre_error == s.pre_error
                                &&& r.0.op_result == s.op_result
                            }))
                        },
                    })
                })))
        &&& (s.phase matches Phase::NotifyScan { entries, idx } ==> (reply matches Reply::Ran {
                    output,
                } ==> ({
                    &&& emission_expected(
                        entries@[idx as int],
                        output,
                        true,
                        s.callout.use_syslog,
                        r.1.emit,
                    )
                    &&& r.0.callout == s.callout
                    &&& notify_continue_ok(s, entries, idx, r)
                })))
}

impl Session {
    /// Advances the session by one observed outcome and yields the next
    /// step. The contract walks the whole protocol: an absent or empty
    /// hook directory (or one that cannot be listed) makes a stage a no-op
    /// success without running any script; a pre-stage hard failure moves
    /// straight to the notification stage and the operation is never run;
    /// a script claiming the device (exit 0) becomes sticky, and the post
    /// stage reuses it directly without re-listing the directory; post and
    /// notification failures are surfaced but never change the result.
    #[verifier::rlimit(100)]
    #[verifier::spinoff_prover]
    pub fn step(self, reply: Reply) -> (r: (Session, Step))
        requires
            self.wf(),
            self.expects(reply),
        ensures
            step_post(self, reply, r),

    {
        let Session { callout, action, uuid, parent, mdev_type, conf, phase, op_result, pre_error }
            = self;
        match (phase, reply) {
            (Phase::PreCheck, Reply::DirExists { exists }) => {
                let runnable = conf.is_some() && parent.is_some() && mdev_type.is_some();
                if exists && runnable {
                    (
                        Session {
                            callout,
                            action,
                            uuid,
                            parent,
                            mdev_type,
                            conf,
                            phase: Phase::PreList,
                            op_result,
                            pre_error,
                        },
                        Step { emit: None, op: Op::ListScripts { notify: false } },
                    )
                } else {
                    (
                        Session {
                            callout,
                            action,
                            uuid,
                            parent,
                            mdev_type,
                            conf,
                            phase: Phase::Op,
                            op_result,
                            pre_error,
                        },
                        Step { emit: None, op: Op::RunOperation },
                    )
                }
            },
            (Phase::PreList, Reply::Scripts { entries }) => {
                match entries {
                    Some(v) => {
                        if v.len() > 0 {
                            let script = v[0].clone();
                            let call = make_call(
                                &callout,
                                action,
                                &uuid,
                                &parent,
                                &mdev_type,
                                &conf,
                                script,
                                Event::Pre,
                            );
                            (
                                Session {
                                    callout,
                                    action,
                                    uuid,
                                    parent,
                                    mdev_type,
                                    conf,
                                    phase: Phase::PreScan { entries: v, idx: 0 },
                                    op_result,
                                    pre_error,
                                },
                                Step { emit: None, op: Op::RunScript { call } },
                            )
                        } else {
                            (
                                Session {
                                    callout,
                                    action,
                                    uuid,
                                    parent,
                                    mdev_type,
                                    conf,
                                    phase: Phase::Op,
                                    op_result,
                                    pre_error,
                                },
                                Step { emit: None, op: Op::RunOperation },
                            )
                        }
                    },
                    None => (
                        Session {
                            callout,
                            action,
                            uuid,
                            parent,
                            mdev_type,
                            conf,
                            phase: Phase::Op,
                            op_result,
                            pre_error,
                        },
                        Step { emit: None, op: Op::RunOperation },
                    ),
                }
            },
            (Phase::PreScan { entries, idx }, Reply::Ran { output }) => {
                let emit = build_emission(&entries[idx], &output, false, callout.use_syslog);
                let code: Option<i32> = match &output {
                    None => Some(2),
                    Some(out) => out.code,
                };
                let crashed = match &output {
                    None => false,
                    Some(out) => out.code.is_none(),
                };
                if !crashed && code == Some(0) {
                    let callout = Callout {
                        state: callout.state,
                        script: Some(entries[idx].clone()),
                        use_syslog: callout.use_syslog,
                    };
                    (
                        Session {
                            callout,
                            action,
                            uuid,
                            parent,
                            mdev_type,
                            conf,
                            phase: Phase::Op,
                            op_result,
                            pre_error,
                        },
                        Step { emit, op: Op::RunOperation },
                    )
                } else if !crashed && code == Some(2) {
                    let len = entries.len();
                    let next = idx + 1;
                    if next < len {
                        let script = entries[next].clone();
                        let call = make_call(
                            &callout,
                            action,
                            &uuid,
                            &parent,
                            &mdev_type,
                            &conf,
                            script,
                            Event::Pre,
                        );
                        (
                            Session {
                                callout,
                                action,
                                uuid,
                                parent,
                                mdev_type,
                                conf,
                                phase: Phase::PreScan { entries, idx: next },
                                op_result,
                                pre_error,
                            },
                            Step { emit, op: Op::RunScript { call } },
                        )
                    } else {
                        (
                            Session {
                                callout,
                                action,
                                uuid,
                                parent,
                                mdev_type,
                                conf,
                                phase: Phase::Op,
                                op_result,
                                pre_error,
                            },
                            Step { emit, op: Op::RunOperation },
                        )
                    }
                } else {
                    let failure_code: Option<i32> = if crashed {
                        None
                    } else {
                        code
                    };
                    let pre_error = Some(
                        MdevError::ScriptFailure {
                            script: entries[idx].clone(),
                            code: failure_code,
                        },
                    );
                    (
                        Session {
                            callout,
                            action,
                            uuid,
                            parent,
                            mdev_type,
                            conf,
                            phase: Phase::NotifyCheck,
                            op_result,
                            pre_error,
                        },
                        Step { emit, op: Op::CheckDir { notify: true } },
                    )
                }
            },
            (Phase::Op, Reply::OperationDone { result }) => {
                let state = if result.is_ok() {
                    State::Success
                } else {
                    State::Failure
                };
                let callout = Callout {
                    state,
                    script: callout.script,
                    use_syslog: callout.use_syslog,
                };
                (
                    Session {
                        callout,
                        action,
                        uuid,
                        parent,
                        mdev_type,
                        conf,
                        phase: Phase::PostCheck,
                        op_result: Some(result),
                        pre_error,
                    },
                    Step { emit: None, op: Op::CheckDir { notify: false } },
                )
            },
            (Phase::PostCheck, Reply::DirExists { exists }) => {
                let runnable = conf.is_some() && parent.is_some() && mdev_type.is_some();
                if exists && runnable {
                    let sticky = match &callout.script {
                        Some(s) => Some(s.clone()),
                        None => None,
                    };
                    match sticky {
                        Some(script) => {
                            let call = make_call(
                                &callout,
                                action,
                                &uuid,
                                &parent,
                                &mdev_type,
                                &conf,
                                script,
                                Event::Post,
                            );
                            (
                                Session {
                                    callout,
                                    action,
                                    uuid,
                                    parent,
                                    mdev_type,
                                    conf,
                                    phase: Phase::PostSticky,
                                    op_result,
                                    pre_error,
                                },
                                Step { emit: None, op: Op::RunScript { call } },
                            )
                        },
                        None => (
                            Session {
                                callout,
                                action,
                                uuid,
                                parent,
                                mdev_type,
                                conf,
                                phase: Phase::PostList,
                                op_result,
                                pre_error,
                            },
                            Step { emit: None, op: Op::ListScripts { notify: false } },
                        ),
                    }
                } else {
                    (
                        Session {
                            callout,
                            action,
                            uuid,
                            parent,
                            mdev_type,
                            conf,
                            phase: Phase::NotifyCheck,
                            op_result,
                            pre_error,
                        },
                        Step { emit: None, op: Op::CheckDir { notify: true } },
                    )
                }
            },
            (Phase::PostList, Reply::Scripts { entries }) => {
                match entries {
                    Some(v) => {
                        if v.len() > 0 {
                            let script = v[0].clone();
                            let call = make_call(
                                &callout,
                                action,
                                &uuid,
                                &parent,
                                &mdev_type,
                                &conf,
                                script,
                                Event::Post,
                            );
                            (
                                Session {
                                    callout,
                                    action,
                                    uuid,
                                    parent,
                                    mdev_type,
                                    conf,
                                    phase: Phase::PostScan { entries: v, idx: 0 },
                                    op_result,
                                    pre_error,
                                },
                                Step { emit: None, op: Op::RunScript { call } },
                            )
                        } else {
                            (
                                Session {
                                    callout,
                                    action,
                                    uuid,
                                    parent,
                                    mdev_type,
                                    conf,
                                    phase: Phase::NotifyCheck,
                                    op_result,
                                    pre_error,
                                },
                                Step { emit: None, op: Op::CheckDir { notify: true } },
                            )
                        }
                    },
                    None => (
                        Session {
                            callout,
                            action,
                            uuid,
                            parent,
                            mdev_type,
                            conf,
                            phase: Phase::NotifyCheck,
                            op_result,
                            pre_error,
                        },
                        Step { emit: None, op: Op::CheckDir { notify: true } },
                    ),
                }
            },
            (Phase::PostScan { entries, idx }, Reply::Ran { output }) => {
                let emit = build_emission(&entries[idx], &output, false, callout.use_syslog);
                let code: Option<i32> = match &output {
                    None => Some(2),
                    Some(out) => out.code,
                };
                let crashed = match &output {
                    None => false,
                    Some(out) => out.code.is_none(),
                };
                if !crashed && code == Some(0) {
                    let callout = Callout {
                        state: callout.state,
                        script: Some(entries[idx].clone()),
                        use_syslog: callout.use_syslog,
                    };
                    (
                        Session {
                            callout,
                            action,
                            uuid,
                            parent,
                            mdev_type,
                            conf,
                            phase: Phase::NotifyCheck,
                            op_result,
                            pre_error,
                        },
                        Step { emit, op: Op::CheckDir { notify: true } },
                    )
                } else if !crashed && code == Some(2) {
                    let len = entries.len();
                    let next = idx + 1;
                    if next < len {
                        let script = entries[next].clone();
                        let call = make_call(
                            &callout,
                            action,
                            &uuid,
                            &parent,
                            &mdev_type,
                            &conf,
                            script,
                            Event::Post,
                        );
                        (
                            Session {
                                callout,
                                action,
                                uuid,
                                parent,
                                mdev_type,
                                conf,
                                phase: Phase::PostScan { entries, idx: next },
                                op_result,
                                pre_error,
                            },
                            Step { emit, op: Op::RunScript { call } },
                        )
                    } else {
                        (
                            Session {
                                callout,
                                action,
                                uuid,
                                parent,
                                mdev_type,
                                conf,
                                phase: Phase::NotifyCheck,
                                op_result,
                                pre_error,
                            },
                            Step { emit, op: Op::CheckDir { notify: true } },
                        )
                    }
                } else {
                    (
                        Session {
                            callout,
                            action,
                            uuid,
                            parent,
                            mdev_type,
                            conf,
                            phase: Phase::NotifyCheck,
                            op_result,
                            pre_error,
                        },
                        Step { emit, op: Op::CheckDir { notify: true } },
                    )
                }
            },
            (Phase::PostSticky, Reply::Ran { output }) => {
                let sticky = match &callout.script {
                    Some(s) => s.clone(),
                    None => String::new(),
                };
                let emit = build_emission(&sticky, &output, false, callout.use_syslog);
                (
                    Session {
                        callout,
                        action,
                        uuid,
                        parent,
                        mdev_type,
                        conf,
                        phase: Phase::NotifyCheck,
                        op_result,
                        pre_error,
                    },
                    Step { emit, op: Op::CheckDir { notify: true } },
                )
            },
            (Phase::NotifyCheck, Reply::DirExists { exists }) => {
                let runnable = conf.is_some() && parent.is_some();
                if exists && runnable {
                    (
                        Session {
                            callout,
                            action,
                            uuid,
                            parent,
                            mdev_type,
                            conf,
                            phase: Phase::NotifyList,
                            op_result,
                            pre_error,
                        },
                        Step { emit: None, op: Op::ListScripts { notify: true } },
                    )
                } else {
                    let result = finish_result(pre_error, op_result);
                    (
                        Session {
                            callout,
                            action,
                            uuid,
                            parent,
                            mdev_type,
                            conf,
                            phase: Phase::Finished,
                            op_result: None,
                            pre_error: None,
                        },
                        Step { emit: None, op: Op::Done { result } },
                    )
                }
            },
            (Phase::NotifyList, Reply::Scripts { entries }) => {
                match entries {
                    Some(v) => {
                        if v.len() > 0 {
                            let script = v[0].clone();
                            let call = make_call(
                                &callout,
                                action,
                                &uuid,
                                &parent,
                                &mdev_type,
                                &conf,
                                script,
                                Event::Notify,
                            );
                            (
                                Session {
                                    callout,
                                    action,
                                    uuid,
                                    parent,
                                    mdev_type,
                                    conf,
                                    phase: Phase::NotifyScan { entries: v, idx: 0 },
                                    op_result,
                                    pre_error,
                                },
                                Step { emit: None, op: Op::RunScript { call } },
                            )
                        } else {
                            let result = finish_result(pre_error, op_result);
                            (
                                Session {
                                    callout,
                                    action,
                                    uuid,
                                    parent,
                                    mdev_type,
                                    conf,
                                    phase: Phase::Finished,
                                    op_result: None,
                                    pre_error: None,
                                },
                                Step { emit: None, op: Op::Done { result } },
                            )
                        }
                    },
                    None => {
                        let result = finish_result(pre_error, op_result);
                        (
                            Session {
                                callout,
                                action,
                                uuid,
                                parent,
                                mdev_type,
                                conf,
                                phase: Phase::Finished,
                                op_result: None,
                                pre_error: None,
                            },
                            Step { emit: None, op: Op::Done { result } },
                        )
                    },
                }
            },
            (Phase::NotifyScan { entries, idx }, Reply::Ran { output }) => {
                let emit = build_emission(&entries[idx], &output, true, callout.use_syslog);
                let len = entries.len();
                let next = idx + 1;
                if next < len {
                    let script = entries[next].clone();
                    let call = make_call(
                        &callout,
                        action,
                        &uuid,
                        &parent,
                        &mdev_type,
                        &conf,
                        script,
                        Event::Notify,
                    );
                    (
                        Session {
                            callout,
                            action,
                            uuid,
                            parent,
                            mdev_type,
                            conf,
                            phase: Phase::NotifyScan { entries, idx: next },
                            op_result,
                            pre_error,
                        },
                        Step { emit, op: Op::RunScript { call } },
                    )
                } else {
                    let result = finish_result(pre_error, op_result);
                    (
                        Session {
                            callout,
                            action,
                            uuid,
                            parent,
                            mdev_type,
                            conf,
                            phase: Phase::Finished,
                            op_result: None,
                            pre_error: None,
                        },
                        Step { emit, op: Op::Done { result } },
                    )
                }
            },
            (_, _) => (
                Session {
                    callout,
                    action,
                    uuid,
                    parent,
                    mdev_type,
                    conf,
                    phase: Phase::Finished,
                    op_result: None,
                    pre_error: None,
                },
                Step { emit: None, op: Op::Done { result: Ok(()) } },
            ),
        }
    }
}

/// Law: an empty hook directory makes the pre stage a no-op success — no
/// script is run, no selection is made, and the very next step is the
/// wrapped operation.
pub proof fn lemma_empty_pre_directory_runs_operation(
    s: Session,
    v: Vec<String>,
    r: (Session, Step),
)
    requires
        s.wf(),
        s.phase is PreList,
        s.callout.script is None,
        v@.len() == 0,
        step_post(s, Reply::Scripts { entries: Some(v) }, r),
    ensures
        r.1.op is RunOperation,
        r.0.callout.script is None,
{
}

/// Law: a declining script (exit code 2) is never selected: the scan moves
/// to the next script, and a directory exhausted by declines is a no-op
/// success that runs the operation with nothing selected.
pub proof fn lemma_decline_keeps_scanning(
    s: Session,
    entries: Vec<String>,
    idx: usize,
    out: ScriptOutput,
    r: (Session, Step),
)
    requires
        s.wf(),
        s.phase matches Phase::PreScan { entries: e, idx: i } && e == entries && i == idx,
        out.code == Some(2i32),
        step_post(s, Reply::Ran { output: Some(out) }, r),
    ensures
        r.0.callout.script == s.callout.script,
        idx + 1 < entries@.len() ==> (r.0.phase matches Phase::PreScan { entries: e2, idx: i2 }
            && e2 == entries && i2 == idx + 1),
        idx + 1 == entries@.len() ==> r.0.phase is Op && r.1.op is RunOperation,
{
}

/// Law: the step that records a pre-stage hard failure — any exit code
/// other than 0 or 2, or a death without one — holds that script's failure
/// and asks next for the notification stage, never for the operation; the
/// failing script is not remembered as matched.
pub proof fn lemma_pre_failure_enters_notify(
    s: Session,
    entries: Vec<String>,
    idx: usize,
    out: ScriptOutput,
    r: (Session, Step),
)
    requires
        s.wf(),
        s.phase matches Phase::PreScan { entries: e, idx: i } && e == entries && i == idx,
        (out.code matches Some(c) && c != 0 && c != 2) || out.code is None,
        step_post(s, Reply::Ran { output: Some(out) }, r),
    ensures
        r.1.op == (Op::CheckDir { notify: true }),
        r.0.pre_error matches Some(e) && e matches MdevError::ScriptFailure { script, code }
            && script == entries@[idx as int] && code == out.code,
        r.0.op_result is None,
        r.0.callout.script == s.callout.script,
{
}

/// Law: once the pre stage has recorded a hard failure, no later step of
/// the session ever asks for the wrapped operation, and when the session
/// finishes, that failure is its result; until then the failure is kept.
pub proof fn lemma_failed_session_reports_the_failure(
    s: Session,
    reply: Reply,
    r: (Session, Step),
)
    requires
        s.wf(),
        s.expects(reply),
        s.pre_error is Some,
        step_post(s, reply, r),
    ensures
        !(r.1.op is RunOperation),
        r.1.op matches Op::Done { result } ==> result == Err::<(), MdevError>(
            s.pre_error->Some_0,
        ),
        !(r.1.op is Done) ==> r.0.pre_error == s.pre_error,
{
}

/// Law: the script that claims the device during the pre stage is the one
/// the post stage invokes, directly and without re-listing the directory:
/// the claim makes it sticky, running the operation preserves the
/// selection, and the post stage's directory probe reuses it.
pub proof fn lemma_claimed_script_reused_by_post(
    s1: Session,
    entries: Vec<String>,
    idx: usize,
    out: ScriptOutput,
    r1: (Session, Step),
    opres: Result<(), MdevError>,
    r2: (Session, Step),
    r3: (Session, Step),
)
    requires
        s1.wf(),
        s1.phase matches Phase::PreScan { entries: e, idx: i } && e == entries && i == idx,
        out.code == Some(0i32),
        step_post(s1, Reply::Ran { output: Some(out) }, r1),
        step_post(r1.0, Reply::OperationDone { result: opres }, r2),
        step_post(r2.0, Reply::DirExists { exists: true }, r3),
    ensures
        r2.0.callout.script == Some(entries@[idx as int]),
        r3.1.op matches Op::RunScript { call } && call.script == entries@[idx as int]
            && call.event == Event::Post,
{
    assert(r1.0.callout.script == Some(entries@[idx as int]));
    assert(r1.0.phase is Op);
    assert(r2.0.phase is PostCheck);
    assert(r2.0.callout.script == Some(entries@[idx as int]));
    assert(r2.0.can_run(false));
}

} // verus!
