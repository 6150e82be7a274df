//! The hook-script side of the protocol: the option values a script
//! receives, and the dispatch that routes one invocation to the right
//! handler of a script implementation.
//!
//! A script built on this template declines (exit code 2) when it is
//! given a device type or parent other than its own; otherwise the
//! handler for the event and action decides the exit code, and an
//! unhandled combination is a no-op success.

use vstd::prelude::*;

use crate::strutil::str_eq;

verus! {

/// The event a script is invoked for.
#[derive(Clone, Copy, Debug, PartialEq, Eq, Structural)]
pub enum EventType {
    Pre,
    Post,
    Get,
    Notify,
}

/// The lifecycle action a script is told about.
#[derive(Clone, Copy, Debug, PartialEq, Eq, Structural)]
pub enum CommandAction {
    Define,
    Modify,
    Start,
    Stop,
    Undefine,
    List,
    Attributes,
    Test,
}

/// The operation outcome a script is told about.
#[derive(Clone, Copy, Debug, PartialEq, Eq, Structural)]
pub enum CommandState {
    Unset,
    Success,
    Failure,
}

impl EventType {
    /// Parses the protocol label of an event.
    pub fn from_label(s: &str) -> (r: Option<EventType>)
        ensures
            r == (if s@ == "pre"@ {
                Some(EventType::Pre)
            } else if s@ == "post"@ {
                Some(EventType::Post)
            } else if s@ == "get"@ {
                Some(EventType::Get)
            } else if s@ == "notify"@ {
                Some(EventType::Notify)
            } else {
                Option::<EventType>::None
            }),
    {
        if str_eq(s, "pre") {
            Some(EventType::Pre)
        } else if str_eq(s, "post") {
            Some(EventType::Post)
        } else if str_eq(s, "get") {
            Some(EventType::Get)
        } else if str_eq(s, "notify") {
            Some(EventType::Notify)
        } else {
            None
        }
    }

    /// Whether this event's invocation carries the device JSON on the
    /// script's input stream: every event but `get` does.
    pub fn wants_stdin(&self) -> (r: bool)
        ensures
            r == !(*self is Get),
    {
        match self {
            EventType::Get => false,
            _ => true,
        }
    }
}

impl CommandAction {
    /// Parses the protocol label of an action.
    pub fn from_label(s: &str) -> (r: Option<CommandAction>)
        ensures
            r == (if s@ == "define"@ {
                Some(CommandAction::Define)
            } else if s@ == "modify"@ {
                Some(CommandAction::Modify)
            } else if s@ == "start"@ {
                Some(CommandAction::Start)
            } else if s@ == "stop"@ {
                Some(CommandAction::Stop)
            } else if s@ == "undefine"@ {
                Some(CommandAction::Undefine)
            } else if s@ == "list"@ {
                Some(CommandAction::List)
            } else if s@ == "attributes"@ {
                Some(CommandAction::Attributes)
            } else if s@ == "test"@ {
                Some(CommandAction::Test)
            } else {
                Option::<CommandAction>::None
            }),
    {
        if str_eq(s, "define") {
            Some(CommandAction::Define)
        } else if str_eq(s, "modify") {
            Some(CommandAction::Modify)
        } else if str_eq(s, "start") {
            Some(CommandAction::Start)
        } else if str_eq(s, "stop") {
            Some(CommandAction::Stop)
        } else if str_eq(s, "undefine") {
            Some(CommandAction::Undefine)
        } else if str_eq(s, "list") {
            Some(CommandAction::List)
        } else if str_eq(s, "attributes") {
            Some(CommandAction::Attributes)
        } else if str_eq(s, "test") {
            Some(CommandAction::Test)
        } else {
            None
        }
    }
}

impl CommandState {
    /// Parses the protocol label of an outcome.
    pub fn from_label(s: &str) -> (r: Option<CommandState>)
        ensures
            r == (if s@ == "none"@ {
                Some(CommandState::Unset)
            } else if s@ == "success"@ {
                Some(CommandState::Success)
            } else if s@ == "failure"@ {
                Some(CommandState::Failure)
            } else {
                Option::<CommandState>::None
            }),
    {
        if str_eq(s, "none") {
            Some(CommandState::Unset)
        } else if str_eq(s, "success") {
            Some(CommandState::Success)
        } else if str_eq(s, "failure") {
            Some(CommandState::Failure)
        } else {
            None
        }
    }
}

/// Everything one script invocation receives: the parsed flags and the
/// device JSON read from the input stream.
pub struct ScriptOpts {
    pub mdev_type: String,
    pub event: EventType,
    pub action: CommandAction,
    pub state: CommandState,
    pub uuid: String,
    pub parent: String,
    pub json: String,
}

/// The handlers a hook script may implement; each returns the exit code
/// of the invocation. The defaults succeed without doing anything.
pub trait ScriptFunctions {
    fn pre_start(&self, opts: ScriptOpts) -> i32 {
        0
    }

    fn post_start(&self, opts: ScriptOpts) -> i32 {
        0
    }

    fn pre_define(&self, opts: ScriptOpts) -> i32 {
        0
    }

    fn post_define(&self, opts: ScriptOpts) -> i32 {
        0
    }

    fn pre_modify(&self, opts: ScriptOpts) -> i32 {
        0
    }

    fn post_modify(&self, opts: ScriptOpts) -> i32 {
        0
    }

    fn pre_stop(&self, opts: ScriptOpts) -> i32 {
        0
    }

    fn post_stop(&self, opts: ScriptOpts) -> i32 {
        0
    }

    fn pre_undefine(&self, opts: ScriptOpts) -> i32 {
        0
    }

    fn post_undefine(&self, opts: ScriptOpts) -> i32 {
        0
    }

    fn pre_list(&self, opts: ScriptOpts) -> i32 {
        0
    }

    fn post_list(&self, opts: ScriptOpts) -> i32 {
        0
    }

    fn get_attributes(&self, opts: ScriptOpts) -> i32 {
        0
    }

    fn notify(&self, opts: ScriptOpts) -> i32 {
        0
    }

    fn pre_test(&self, opts: ScriptOpts) -> i32 {
        0
    }

    fn post_test(&self, opts: ScriptOpts) -> i32 {
        0
    }
}

/// One handler of a script implementation.
#[derive(Clone, Copy, Debug, PartialEq, Eq, Structural)]
pub enum Handler {
    PreStart,
    PostStart,
    PreDefine,
    PostDefine,
    PreModify,
    PostModify,
    PreStop,
    PostStop,
    PreUndefine,
    PostUndefine,
    PreList,
    PostList,
    GetAttributes,
    Notify,
    PreTest,
    PostTest,
}

/// Which handler an event and action pair is routed to; `None` is an
/// unhandled combination, a no-op success.
pub open spec fn handler_for(event: EventType, action: CommandAction) -> Option<Handler> {
    match event {
        EventType::Get => match action {
            CommandAction::Attributes => Some(Handler::GetAttributes),
            _ => None,
        },
        EventType::Notify => Some(Handler::Notify),
        EventType::Pre => match action {
            CommandAction::Define => Some(Handler::PreDefine),
            CommandAction::Modify => Some(Handler::PreModify),
            CommandAction::Start => Some(Handler::PreStart),
            CommandAction::Stop => Some(Handler::PreStop),
            CommandAction::Undefine => Some(Handler::PreUndefine),
            CommandAction::List => Some(Handler::PreList),
            CommandAction::Test => Some(Handler::PreTest),
            CommandAction::Attributes => None,
        },
        EventType::Post => match action {
            CommandAction::Define => Some(Handler::PostDefine),
            CommandAction::Modify => Some(Handler::PostModify),
            CommandAction::Start => Some(Handler::PostStart),
            CommandAction::Stop => Some(Handler::PostStop),
            CommandAction::Undefine => Some(Handler::PostUndefine),
            CommandAction::List => Some(Handler::PostList),
            CommandAction::Test => Some(Handler::PostTest),
            CommandAction::Attributes => None,
        },
    }
}

/// Routes an event and action pair to a handler.
pub fn select_handler(event: &EventType, action: &CommandAction) -> (r: Option<Handler>)
    ensures
        r == handler_for(*event, *action),
{
    match event {
        EventType::Get => match action {
            CommandAction::Attributes => Some(Handler::GetAttributes),
            _ => None,
        },
        EventType::Notify => Some(Handler::Notify),
        EventType::Pre => match action {
            CommandAction::Define => Some(Handler::PreDefine),
            CommandAction::Modify => Some(Handler::PreModify),
            CommandAction::Start => Some(Handler::PreStart),
            CommandAction::Stop => Some(Handler::PreStop),
            CommandAction::Undefine => Some(Handler::PreUndefine),
            CommandAction::List => Some(Handler::PreList),
            CommandAction::Test => Some(Handler::PreTest),
            CommandAction::Attributes => None,
        },
        EventType::Post => match action {
            CommandAction::Define => Some(Handler::PostDefine),
            CommandAction::Modify => Some(Handler::PostModify),
            CommandAction::Start => Some(Handler::PostStart),
            CommandAction::Stop => Some(Handler::PostStop),
            CommandAction::Undefine => Some(Handler::PostUndefine),
            CommandAction::List => Some(Handler::PostList),
            CommandAction::Test => Some(Handler::PostTest),
            CommandAction::Attributes => None,
        },
    }
}

/// Whether a script's own type and parent filters decline an invocation:
/// a non-empty filter that differs from the invoked value declines. The
/// driver tests this before anything else — in particular before reading
/// the input stream, so a declining script exits 2 without consuming it.
pub open spec fn filters_decline_spec(
    script_type: Seq<char>,
    script_parent: Seq<char>,
    invoked_type: Seq<char>,
    invoked_parent: Seq<char>,
) -> bool {
    (script_type.len() > 0 && script_type != invoked_type) || (script_parent.len() > 0
        && script_parent != invoked_parent)
}

/// Tests the script's type and parent filters against the invoked values.
pub fn filters_decline(
    script_type: &str,
    script_parent: &str,
    invoked_type: &str,
    invoked_parent: &str,
) -> (r: bool)
    ensures
        r == filters_decline_spec(script_type@, script_parent@, invoked_type@, invoked_parent@),
{
    (!script_type.is_empty() && !str_eq(script_type, invoked_type)) || (!script_parent.is_empty()
        && !str_eq(script_parent, invoked_parent))
}

/// Runs one script invocation: declines (exit 2) when the script's own
/// type or parent — an empty filter matches anything — differs from the
/// one it was invoked for, routes to the handler otherwise, and succeeds
/// where no handler applies. The handler's own exit code is its
/// implementation's to choose.
pub fn run_script<S: ScriptFunctions>(
    mdev_type: &str,
    parent: &str,
    script: &S,
    opts: ScriptOpts,
) -> (r: i32)
    ensures
        filters_decline_spec(mdev_type@, parent@, opts.mdev_type@, opts.parent@) ==> r == 2,
        !filters_decline_spec(mdev_type@, parent@, opts.mdev_type@, opts.parent@) ==> (handler_for(
            opts.event,
            opts.action,
        ) is None ==> r == 0),
{
    if filters_decline(mdev_type, parent, opts.mdev_type.as_str(), opts.parent.as_str()) {
        return 2;
    }
    match select_handler(&opts.event, &opts.action) {
        None => 0,
        Some(h) => match h {
            Handler::PreStart => script.pre_start(opts),
            Handler::PostStart => script.post_start(opts),
            Handler::PreDefine => script.pre_define(opts),
            Handler::PostDefine => script.post_define(opts),
            Handler::PreModify => script.pre_modify(opts),
            Handler::PostModify => script.post_modify(opts),
            Handler::PreStop => script.pre_stop(opts),
            Handler::PostStop => script.post_stop(opts),
            Handler::PreUndefine => script.pre_undefine(opts),
            Handler::PostUndefine => script.post_undefine(opts),
            Handler::PreList => script.pre_list(opts),
            Handler::PostList => script.post_list(opts),
            Handler::GetAttributes => script.get_attributes(opts),
            Handler::Notify => script.notify(opts),
            Handler::PreTest => script.pre_test(opts),
            Handler::PostTest => script.post_test(opts),
        },
    }
}

} // verus!
