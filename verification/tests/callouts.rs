//! The callout engine: discovery, sticky selection, failure propagation,
//! the notification stage, and the start flow's rollback.

use mdevctl::callouts::Action;
use mdevctl::callouts::Callout;
use mdevctl::callouts::Event;
use mdevctl::callouts::Op;
use mdevctl::callouts::Reply;
use mdevctl::callouts::ScriptOutput;
use mdevctl::callouts::Session;
use mdevctl::callouts::State;
use mdevctl::callouts::Step;
use mdevctl::environment::EnvPaths;
use mdevctl::errors::ErrorKind;
use mdevctl::errors::MdevError;
use mdevctl::mdev::AttrWriteOutcome;
use mdevctl::mdev::MDev;
use mdevctl::mdev::StartInput;
use mdevctl::mdev::StartStep;

fn env() -> EnvPaths {
    EnvPaths::new(
        String::from("/dev"),
        String::from("/parents"),
        String::from("/persist"),
        String::from("/hooks"),
        String::from("/notifiers"),
    )
}

fn device() -> MDev {
    let mut dev = MDev::new(&env(), 0xabcd);
    dev.parent = Some(String::from("pci0"));
    dev.mdev_type = Some(String::from("vgpu-1"));
    dev
}

fn output(code: i32) -> Reply {
    Reply::Ran {
        output: Some(ScriptOutput {
            code: Some(code),
            stdout: String::new(),
            stderr: String::new(),
        }),
    }
}

fn run_with(mut session: Session, mut step: Step, replies: Vec<Reply>) -> (Session, Vec<String>) {
    let mut trace: Vec<String> = Vec::new();
    let mut replies = replies.into_iter();
    loop {
        trace.push(match &step.op {
            Op::CheckDir { notify } => format!("check:{}", notify),
            Op::ListScripts { notify } => format!("list:{}", notify),
            Op::RunScript { call } => format!("run:{}:{}", call.event.label(), call.script),
            Op::RunOperation => String::from("operation"),
            Op::Done { result } => match result {
                Ok(()) => String::from("done:ok"),
                Err(e) => format!("done:err:{}", e.message()),
            },
        });
        if matches!(step.op, Op::Done { .. }) {
            return (session, trace);
        }
        let reply = replies.next().expect("engine asked for more than was scripted");
        let (s2, st2) = session.step(reply);
        session = s2;
        step = st2;
    }
}

#[test]
fn labels_follow_the_protocol() {
    assert_eq!(Event::Pre.label(), "pre");
    assert_eq!(Event::Post.label(), "post");
    assert_eq!(Event::Notify.label(), "notify");
    assert_eq!(Action::Start.label(), "start");
    assert_eq!(Action::Stop.label(), "stop");
    assert_eq!(Action::Define.label(), "define");
    assert_eq!(Action::Undefine.label(), "undefine");
    assert_eq!(Action::Modify.label(), "modify");
    assert_eq!(Action::List.label(), "list");
    assert_eq!(Action::Test.label(), "test");
    assert_eq!(Action::Attributes.label(), "attributes");
    assert_eq!(State::Unset.label(), "none");
    assert_eq!(State::Success.label(), "success");
    assert_eq!(State::Failure.label(), "failure");
}

#[test]
fn empty_hook_directory_is_a_noop_success() {
    let dev = device();
    let (session, step) = Callout::invoke(&dev, false, Action::Start);
    let (_, trace) = run_with(
        session,
        step,
        vec![
            Reply::DirExists { exists: true },
            Reply::Scripts { entries: Some(Vec::new()) },
            Reply::OperationDone { result: Ok(()) },
            Reply::DirExists { exists: true },
            Reply::Scripts { entries: Some(Vec::new()) },
            Reply::DirExists { exists: false },
        ],
    );
    // no script was ever run, and the operation succeeded
    assert_eq!(
        trace,
        vec![
            "check:false",
            "list:false",
            "operation",
            "check:false",
            "list:false",
            "check:true",
            "done:ok"
        ]
    );
}

#[test]
fn missing_hook_directory_skips_the_stage() {
    let dev = device();
    let (session, step) = Callout::invoke(&dev, false, Action::Define);
    let (_, trace) = run_with(
        session,
        step,
        vec![
            Reply::DirExists { exists: false },
            Reply::OperationDone { result: Ok(()) },
            Reply::DirExists { exists: false },
            Reply::DirExists { exists: false },
        ],
    );
    assert_eq!(
        trace,
        vec!["check:false", "operation", "check:false", "check:true", "done:ok"]
    );
}

#[test]
fn decliner_is_skipped_and_match_is_sticky_for_post() {
    let dev = device();
    let (session, step) = Callout::invoke(&dev, false, Action::Start);
    let scripts = vec![String::from("/hooks/a.sh"), String::from("/hooks/b.sh")];
    let (session, trace) = run_with(
        session,
        step,
        vec![
            Reply::DirExists { exists: true },
            Reply::Scripts { entries: Some(scripts) },
            output(2),
            output(0),
            Reply::OperationDone { result: Ok(()) },
            // post: the directory still exists; even if a new script were
            // added now, the directory is never re-listed
            Reply::DirExists { exists: true },
            output(0),
            Reply::DirExists { exists: false },
        ],
    );
    assert_eq!(session.callout.script.as_deref(), Some("/hooks/b.sh"));
    assert_eq!(
        trace,
        vec![
            "check:false",
            "list:false",
            "run:pre:/hooks/a.sh",
            "run:pre:/hooks/b.sh",
            "operation",
            "check:false",
            "run:post:/hooks/b.sh",
            "check:true",
            "done:ok"
        ]
    );
}

#[test]
fn all_decliners_make_the_stage_a_noop_success() {
    let dev = device();
    let (session, step) = Callout::invoke(&dev, false, Action::Stop);
    let scripts = vec![String::from("/hooks/a.sh"), String::from("/hooks/b.sh")];
    let (session, trace) = run_with(
        session,
        step,
        vec![
            Reply::DirExists { exists: true },
            Reply::Scripts { entries: Some(scripts) },
            output(2),
            output(2),
            Reply::OperationDone { result: Ok(()) },
            Reply::DirExists { exists: false },
            Reply::DirExists { exists: false },
        ],
    );
    assert!(session.callout.script.is_none());
    assert_eq!(trace[3], "run:pre:/hooks/b.sh");
    assert_eq!(trace[4], "operation");
    assert_eq!(*trace.last().unwrap(), "done:ok");
}

#[test]
fn pre_failure_aborts_and_notify_still_runs_once() {
    let dev = device();
    let (session, step) = Callout::invoke(&dev, false, Action::Start);
    let scripts = vec![String::from("/hooks/a.sh")];
    let notifiers = vec![String::from("/notifiers/n.sh")];
    let (_, trace) = run_with(
        session,
        step,
        vec![
            Reply::DirExists { exists: true },
            Reply::Scripts { entries: Some(scripts) },
            output(1),
            Reply::DirExists { exists: true },
            Reply::Scripts { entries: Some(notifiers) },
            output(0),
        ],
    );
    assert_eq!(
        trace,
        vec![
            String::from("check:false"),
            String::from("list:false"),
            String::from("run:pre:/hooks/a.sh"),
            String::from("check:true"),
            String::from("list:true"),
            String::from("run:notify:/notifiers/n.sh"),
            format!(
                "done:err:callout script /hooks/a.sh failed with return code 1"
            ),
        ]
    );
    // the operation was never run
    assert!(!trace.contains(&String::from("operation")));
}

#[test]
fn notify_after_pre_abort_is_told_none() {
    let dev = device();
    let (session, _) = Callout::invoke(&dev, false, Action::Start);
    let (session, _) = session.step(Reply::DirExists { exists: true });
    let (session, _) = session.step(Reply::Scripts {
        entries: Some(vec![String::from("/hooks/a.sh")]),
    });
    // hard failure during the pre stage: the operation is aborted
    let (session, step) = session.step(output(1));
    assert!(matches!(step.op, Op::CheckDir { notify: true }));
    assert_eq!(session.callout.state, State::Unset);
    let (session, _) = session.step(Reply::DirExists { exists: true });
    let (_, step) = session.step(Reply::Scripts {
        entries: Some(vec![String::from("/notifiers/n.sh")]),
    });
    match step.op {
        Op::RunScript { call } => {
            // the notification script is told the operation never ran
            assert_eq!(call.state, State::Unset);
            assert_eq!(call.state.label(), "none");
        }
        _ => panic!("expected the notification script call"),
    }
}

#[test]
fn crashed_script_is_a_hard_failure_and_is_not_selected() {
    let dev = device();
    let (session, step) = Callout::invoke(&dev, false, Action::Start);
    let scripts = vec![String::from("/hooks/a.sh")];
    let (session, trace) = run_with(
        session,
        step,
        vec![
            Reply::DirExists { exists: true },
            Reply::Scripts { entries: Some(scripts) },
            Reply::Ran {
                output: Some(ScriptOutput {
                    code: None,
                    stdout: String::new(),
                    stderr: String::new(),
                }),
            },
            Reply::DirExists { exists: false },
        ],
    );
    assert!(session.callout.script.is_none());
    assert_eq!(
        *trace.last().unwrap(),
        "done:err:callout script /hooks/a.sh was terminated without an exit code"
    );
    assert!(!trace.contains(&String::from("operation")));
}

#[test]
fn unrunnable_script_is_skipped() {
    let dev = device();
    let (session, step) = Callout::invoke(&dev, false, Action::Start);
    let scripts = vec![String::from("/hooks/a.sh"), String::from("/hooks/b.sh")];
    let (_, trace) = run_with(
        session,
        step,
        vec![
            Reply::DirExists { exists: true },
            Reply::Scripts { entries: Some(scripts) },
            Reply::Ran { output: None },
            output(0),
            Reply::OperationDone { result: Ok(()) },
            Reply::DirExists { exists: false },
            Reply::DirExists { exists: false },
        ],
    );
    assert_eq!(trace[2], "run:pre:/hooks/a.sh");
    assert_eq!(trace[3], "run:pre:/hooks/b.sh");
    assert_eq!(trace[4], "operation");
}

#[test]
fn failed_operation_reaches_post_and_notify_with_failure_state() {
    let dev = device();
    let (session, step) = Callout::invoke(&dev, false, Action::Start);
    let (s1, _) = session.step(Reply::DirExists { exists: false });
    let (s2, step2) = s1.step(Reply::OperationDone {
        result: Err(MdevError::AlreadyExists),
    });
    assert_eq!(s2.callout.state, State::Failure);
    assert!(matches!(step2.op, Op::CheckDir { notify: false }));
    let (s3, _) = s2.step(Reply::DirExists { exists: false });
    let (_, step4) = s3.step(Reply::DirExists { exists: false });
    match step4.op {
        Op::Done { result } => {
            let e = result.unwrap_err();
            assert!(matches!(e, MdevError::AlreadyExists));
            assert_eq!(e.kind(), ErrorKind::Conflict);
        }
        other => panic!("expected the session result, got {:?}", name_of(&other)),
    }
}

fn name_of(op: &Op) -> &'static str {
    match op {
        Op::CheckDir { .. } => "CheckDir",
        Op::ListScripts { .. } => "ListScripts",
        Op::RunScript { .. } => "RunScript",
        Op::RunOperation => "RunOperation",
        Op::Done { .. } => "Done",
    }
}

#[test]
fn script_calls_carry_the_protocol_arguments() {
    let mut dev = device();
    dev.autostart = true;
    dev.attrs = vec![(String::from("fps"), String::from("60"))];
    let (session, _) = Callout::invoke(&dev, true, Action::Modify);
    let (session, step) = session.step(Reply::DirExists { exists: true });
    assert!(matches!(step.op, Op::ListScripts { notify: false }));
    let (_, step) = session.step(Reply::Scripts {
        entries: Some(vec![String::from("/hooks/a.sh")]),
    });
    match step.op {
        Op::RunScript { call } => {
            assert_eq!(call.script, "/hooks/a.sh");
            assert_eq!(call.event, Event::Pre);
            assert_eq!(call.action, Action::Modify);
            assert_eq!(call.state, State::Unset);
            assert_eq!(call.uuid, "00000000-0000-0000-0000-00000000abcd");
            assert_eq!(call.parent, "pci0");
            assert_eq!(call.mdev_type.as_deref(), Some("vgpu-1"));
            let v: serde_json::Value = serde_json::from_str(&call.stdin_json).unwrap();
            assert_eq!(v["mdev_type"], "vgpu-1");
            assert_eq!(v["start"], "auto");
            assert_eq!(v["attrs"][0]["fps"], "60");
        }
        other => panic!("expected a script call, got {}", name_of(&other)),
    }
}

#[test]
fn notify_calls_omit_the_type_and_surface_both_streams() {
    let dev = device();
    let (session, _) = Callout::invoke(&dev, false, Action::Start);
    let (session, _) = session.step(Reply::DirExists { exists: false });
    let (session, _) = session.step(Reply::OperationDone { result: Ok(()) });
    let (session, _) = session.step(Reply::DirExists { exists: false });
    let (session, step) = session.step(Reply::DirExists { exists: true });
    assert!(matches!(step.op, Op::ListScripts { notify: true }));
    let (session, step) = session.step(Reply::Scripts {
        entries: Some(vec![String::from("/notifiers/n.sh")]),
    });
    match &step.op {
        Op::RunScript { call } => {
            assert_eq!(call.event, Event::Notify);
            assert!(call.mdev_type.is_none());
            assert_eq!(call.state, State::Success);
        }
        other => panic!("expected a script call, got {}", name_of(other)),
    }
    let (_, step) = session.step(Reply::Ran {
        output: Some(ScriptOutput {
            code: Some(1),
            stdout: String::from("diag"),
            stderr: String::from("oops"),
        }),
    });
    // a failing notification script is surfaced but never changes the result
    let em = step.emit.expect("notification output must be surfaced");
    assert_eq!(em.script, "n.sh");
    assert_eq!(em.stderr, "oops");
    assert_eq!(em.stdout, "diag");
    assert!(!em.use_syslog);
    match step.op {
        Op::Done { result } => result.unwrap(),
        other => panic!("expected the session result, got {}", name_of(&other)),
    }
}

#[test]
fn pre_stage_surfaces_stderr_only() {
    let dev = device();
    let (session, _) = Callout::invoke(&dev, false, Action::Start);
    let (session, _) = session.step(Reply::DirExists { exists: true });
    let (session, _) = session.step(Reply::Scripts {
        entries: Some(vec![String::from("/hooks/echoer.sh")]),
    });
    let (_, step) = session.step(Reply::Ran {
        output: Some(ScriptOutput {
            code: Some(0),
            stdout: String::from("chatter"),
            stderr: String::from("echoed json"),
        }),
    });
    let em = step.emit.expect("stderr must be surfaced");
    assert_eq!(em.script, "echoer.sh");
    assert_eq!(em.stderr, "echoed json");
    assert_eq!(em.stdout, "");
    assert!(matches!(step.op, Op::RunOperation));
}

#[test]
fn start_flow_applies_attributes_in_order() {
    let mut dev = device();
    dev.attrs = vec![
        (String::from("resolution"), String::from("1080p")),
        (String::from("fps"), String::from("60")),
    ];
    dev.create_commit(Ok(())).unwrap();
    let (mut flow, step) = dev.start();
    match step {
        StartStep::WriteAttr { path, value } => {
            assert_eq!(path, format!("{}/resolution", dev.path()));
            assert_eq!(value, "1080p");
        }
        _ => panic!("expected the first attribute write"),
    }
    let step = dev.start_step(&mut flow, StartInput::AttrWritten {
        outcome: AttrWriteOutcome::Written,
    });
    match step {
        StartStep::WriteAttr { path, value } => {
            assert_eq!(path, format!("{}/fps", dev.path()));
            assert_eq!(value, "60");
        }
        _ => panic!("expected the second attribute write"),
    }
    let step = dev.start_step(&mut flow, StartInput::AttrWritten {
        outcome: AttrWriteOutcome::Written,
    });
    assert!(matches!(step, StartStep::Done { result: Ok(()) }));
    assert!(dev.active);
}

#[test]
fn start_flow_rolls_back_on_a_failed_attribute_write() {
    let mut dev = device();
    dev.attrs = vec![
        (String::from("resolution"), String::from("1080p")),
        (String::from("fps"), String::from("60")),
    ];
    dev.create_commit(Ok(())).unwrap();
    let (mut flow, _) = dev.start();
    let step = dev.start_step(&mut flow, StartInput::AttrWritten {
        outcome: AttrWriteOutcome::Written,
    });
    assert!(matches!(step, StartStep::WriteAttr { .. }));
    // the second write fails: the flow asks for the rollback
    let step = dev.start_step(&mut flow, StartInput::AttrWritten {
        outcome: AttrWriteOutcome::WriteError { cause: String::from("no space") },
    });
    match step {
        StartStep::Rollback { remove_path } => {
            assert_eq!(remove_path, format!("{}/remove", dev.path()));
        }
        _ => panic!("expected the rollback"),
    }
    // the rollback succeeds: the device ends inactive, and the reported
    // error is the attribute error, not a rollback error
    let step = dev.start_step(&mut flow, StartInput::RolledBack { result: Ok(()) });
    match step {
        StartStep::Done { result } => {
            let e = result.unwrap_err();
            assert!(
                matches!(&e, MdevError::AttrWriteFailed { name, cause } if name == "fps" && cause == "no space")
            );
        }
        _ => panic!("expected the final result"),
    }
    assert!(!dev.active);
}

#[test]
fn start_flow_reports_a_failed_rollback() {
    let mut dev = device();
    dev.attrs = vec![(String::from("fps"), String::from("60"))];
    dev.create_commit(Ok(())).unwrap();
    let (mut flow, _) = dev.start();
    let _ = dev.start_step(&mut flow, StartInput::AttrWritten {
        outcome: AttrWriteOutcome::MissingAttr,
    });
    let step = dev.start_step(&mut flow, StartInput::RolledBack {
        result: Err(String::from("busy")),
    });
    match step {
        StartStep::Done { result } => {
            let e = result.unwrap_err();
            assert!(matches!(&e, MdevError::RemoveFailed { cause, .. } if cause == "busy"));
        }
        _ => panic!("expected the final result"),
    }
    // the rollback failed, so the device is still active
    assert!(dev.active);
}

#[test]
fn start_with_no_attributes_succeeds_immediately() {
    let mut dev = device();
    dev.create_commit(Ok(())).unwrap();
    let (_, step) = dev.start();
    assert!(matches!(step, StartStep::Done { result: Ok(()) }));
}
