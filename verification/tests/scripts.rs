//! The hook-script template: label parsing and handler dispatch.

use mdevctl::scripttemplate::filters_decline;
use mdevctl::scripttemplate::run_script;
use mdevctl::scripttemplate::select_handler;
use mdevctl::scripttemplate::CommandAction;
use mdevctl::scripttemplate::CommandState;
use mdevctl::scripttemplate::EventType;
use mdevctl::scripttemplate::Handler;
use mdevctl::scripttemplate::ScriptFunctions;
use mdevctl::scripttemplate::ScriptOpts;

fn opts(mdev_type: &str, parent: &str, event: EventType, action: CommandAction) -> ScriptOpts {
    ScriptOpts {
        mdev_type: String::from(mdev_type),
        event,
        action,
        state: CommandState::Unset,
        uuid: String::from("12345678-9abc-def0-1234-56789abcdef0"),
        parent: String::from(parent),
        json: String::new(),
    }
}

struct Recorder;

impl ScriptFunctions for Recorder {
    fn pre_start(&self, _opts: ScriptOpts) -> i32 {
        11
    }

    fn post_stop(&self, _opts: ScriptOpts) -> i32 {
        12
    }

    fn notify(&self, _opts: ScriptOpts) -> i32 {
        13
    }
}

struct Defaulted;

impl ScriptFunctions for Defaulted {}

#[test]
fn labels_parse_to_the_protocol_values() {
    assert_eq!(EventType::from_label("pre"), Some(EventType::Pre));
    assert_eq!(EventType::from_label("post"), Some(EventType::Post));
    assert_eq!(EventType::from_label("get"), Some(EventType::Get));
    assert_eq!(EventType::from_label("notify"), Some(EventType::Notify));
    assert_eq!(EventType::from_label("later"), None);
    assert_eq!(CommandAction::from_label("start"), Some(CommandAction::Start));
    assert_eq!(CommandAction::from_label("attributes"), Some(CommandAction::Attributes));
    assert_eq!(CommandAction::from_label("destroy"), None);
    assert_eq!(CommandState::from_label("none"), Some(CommandState::Unset));
    assert_eq!(CommandState::from_label("success"), Some(CommandState::Success));
    assert_eq!(CommandState::from_label("failure"), Some(CommandState::Failure));
    assert_eq!(CommandState::from_label("maybe"), None);
}

#[test]
fn only_get_skips_stdin() {
    assert!(EventType::Pre.wants_stdin());
    assert!(EventType::Post.wants_stdin());
    assert!(EventType::Notify.wants_stdin());
    assert!(!EventType::Get.wants_stdin());
}

#[test]
fn handlers_are_selected_by_event_and_action() {
    assert_eq!(
        select_handler(&EventType::Pre, &CommandAction::Start),
        Some(Handler::PreStart)
    );
    assert_eq!(
        select_handler(&EventType::Post, &CommandAction::Undefine),
        Some(Handler::PostUndefine)
    );
    assert_eq!(
        select_handler(&EventType::Get, &CommandAction::Attributes),
        Some(Handler::GetAttributes)
    );
    assert_eq!(select_handler(&EventType::Get, &CommandAction::Start), None);
    assert_eq!(select_handler(&EventType::Pre, &CommandAction::Attributes), None);
    assert_eq!(
        select_handler(&EventType::Notify, &CommandAction::Stop),
        Some(Handler::Notify)
    );
}

#[test]
fn decline_filter_is_testable_before_reading_input() {
    // the driver asks this before reading the input stream, so a
    // declining script exits 2 without consuming it
    assert!(filters_decline("vgpu-1", "", "vgpu-2", "pci0"));
    assert!(filters_decline("", "pci1", "vgpu-1", "pci0"));
    assert!(!filters_decline("", "", "vgpu-1", "pci0"));
    assert!(!filters_decline("vgpu-1", "pci0", "vgpu-1", "pci0"));
}

#[test]
fn type_or_parent_mismatch_declines_with_code_2() {
    let r = run_script(
        "vgpu-1",
        "",
        &Recorder,
        opts("vgpu-2", "pci0", EventType::Pre, CommandAction::Start),
    );
    assert_eq!(r, 2);
    let r = run_script(
        "",
        "pci1",
        &Recorder,
        opts("vgpu-1", "pci0", EventType::Pre, CommandAction::Start),
    );
    assert_eq!(r, 2);
}

#[test]
fn empty_filters_match_anything() {
    let r = run_script(
        "",
        "",
        &Recorder,
        opts("vgpu-1", "pci0", EventType::Pre, CommandAction::Start),
    );
    assert_eq!(r, 11);
}

#[test]
fn matching_invocations_are_dispatched() {
    let r = run_script(
        "vgpu-1",
        "pci0",
        &Recorder,
        opts("vgpu-1", "pci0", EventType::Pre, CommandAction::Start),
    );
    assert_eq!(r, 11);
    let r = run_script(
        "vgpu-1",
        "pci0",
        &Recorder,
        opts("vgpu-1", "pci0", EventType::Post, CommandAction::Stop),
    );
    assert_eq!(r, 12);
    let r = run_script(
        "vgpu-1",
        "pci0",
        &Recorder,
        opts("vgpu-1", "pci0", EventType::Notify, CommandAction::Define),
    );
    assert_eq!(r, 13);
}

#[test]
fn unhandled_combinations_are_a_noop_success() {
    let r = run_script(
        "vgpu-1",
        "pci0",
        &Recorder,
        opts("vgpu-1", "pci0", EventType::Get, CommandAction::Start),
    );
    assert_eq!(r, 0);
    // an unimplemented handler falls back to the default success
    let r = run_script(
        "",
        "",
        &Defaulted,
        opts("vgpu-1", "pci0", EventType::Pre, CommandAction::Start),
    );
    assert_eq!(r, 0);
}
