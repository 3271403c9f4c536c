use conpty::{
    new, Action, Conpty, ConptyHolder, Dimensions, Event, Launch, Ledger, PipePair,
    SessionError, Stage,
};

fn dims() -> Dimensions {
    Dimensions::new(80, 25).unwrap()
}

fn begin() -> Launch {
    let (launch, first) = new(dims(), "powershell", None);
    assert_eq!(first, Action::CreatePipe { buffer_size: 0 });
    launch
}

fn pipe(read: isize, write: isize) -> Event {
    Event::Pipe(Some(PipePair { read, write }))
}

/// A launch driven up to the point where it awaits the child.
fn until_spawn() -> Launch {
    let mut launch = begin();
    launch.step(pipe(10, 11));
    launch.step(pipe(20, 21));
    launch.step(Event::Device { hresult: 0, handle: 30 });
    launch.step(Event::ListSize { returned: 0, size: 48 });
    launch.step(Event::ListInit { returned: 1 });
    launch.step(Event::Attribute { returned: 1 });
    launch
}

fn bound(device: isize, conout: isize, conin: isize) -> Ledger {
    Ledger {
        device: Some(device),
        device_input: None,
        device_output: None,
        output_reader: Some(conout),
        input_writer: Some(conin),
        process: None,
        thread: None,
    }
}

#[test]
fn dimensions_must_be_positive() {
    assert_eq!(Dimensions::new(80, 25), Some(Dimensions { columns: 80, rows: 25 }));
    assert_eq!(Dimensions::new(1, 1), Some(Dimensions { columns: 1, rows: 1 }));
    assert_eq!(
        Dimensions::new(i16::MAX, i16::MAX),
        Some(Dimensions { columns: i16::MAX, rows: i16::MAX })
    );
    assert_eq!(Dimensions::new(0, 25), None);
    assert_eq!(Dimensions::new(80, 0), None);
    assert_eq!(Dimensions::new(-1, 25), None);
    assert_eq!(Dimensions::new(80, i16::MIN), None);
}

#[test]
fn new_awaits_the_output_pipe() {
    let (launch, first) = new(dims(), "powershell", None);
    assert_eq!(first, Action::CreatePipe { buffer_size: 0 });
    assert_eq!(launch.stage, Stage::OutputPipe);
    assert_eq!(launch.dimensions, Dimensions { columns: 80, rows: 25 });
    assert_eq!(launch.working_dir, None);
}

#[test]
fn new_encodes_command_line_and_working_dir() {
    let (launch, _) = new(dims(), "cmd /c echo hi", Some("C:\\"));
    let mut command: Vec<u16> = "cmd /c echo hi".encode_utf16().collect();
    command.push(0);
    assert_eq!(launch.command_line, command);
    assert_eq!(launch.working_dir, Some(vec![0x43, 0x3a, 0x5c, 0]));
}

#[test]
fn launch_runs_its_seven_calls_in_order() {
    let mut launch = begin();

    let answer = launch.step(pipe(10, 11));
    assert_eq!(answer, Some(Action::CreatePipe { buffer_size: 0 }));
    assert_eq!(launch.stage, Stage::InputPipe { conout: 10, conout_device: 11 });

    let answer = launch.step(pipe(20, 21));
    assert_eq!(
        answer,
        Some(Action::CreateDevice { columns: 80, rows: 25, input: 20, output: 11 })
    );
    assert_eq!(
        launch.stage,
        Stage::Device { conout: 10, conout_device: 11, conin_device: 20, conin: 21 }
    );

    let answer = launch.step(Event::Device { hresult: 0, handle: 30 });
    assert_eq!(answer, Some(Action::QueryListSize { attribute_count: 1 }));
    assert_eq!(launch.stage, Stage::ListSize { conout: 10, conin: 21, device: 30 });

    let answer = launch.step(Event::ListSize { returned: 0, size: 48 });
    assert_eq!(answer, Some(Action::InitList { size: 48, attribute_count: 1 }));
    assert_eq!(launch.stage, Stage::ListInit { conout: 10, conin: 21, device: 30, size: 48 });

    let answer = launch.step(Event::ListInit { returned: 1 });
    assert_eq!(answer, Some(Action::SetAttribute { attribute: 0x0002_0016, device: 30 }));
    assert_eq!(launch.stage, Stage::Attribute { conout: 10, conin: 21, device: 30 });

    let answer = launch.step(Event::Attribute { returned: 1 });
    assert_eq!(
        answer,
        Some(Action::Spawn {
            inherit_handles: false,
            creation_flags: 0x0008_0000,
            startup_flags: 0x0000_0100,
        })
    );
    assert_eq!(launch.stage, Stage::Spawn { conout: 10, conin: 21, device: 30 });

    let answer = launch.step(Event::Spawn {
        returned: 1,
        process: 40,
        thread: 41,
        last_error: 0,
    });
    assert_eq!(
        answer,
        Some(Action::Ready(ConptyHolder {
            conpty: Conpty { handle: 30 },
            conout: 10,
            conin: 21,
            process: 40,
            thread: 41,
        }))
    );
    assert_eq!(launch.stage, Stage::Finished);
}

#[test]
fn launch_keeps_its_inputs_across_steps() {
    let (mut launch, _) = new(dims(), "powershell", Some("D:\\work"));
    let command_line: Vec<u16> = launch.command_line.clone();
    let working_dir: Option<Vec<u16>> = launch.working_dir.clone();
    launch.step(pipe(10, 11));
    launch.step(pipe(20, 21));
    launch.step(Event::Device { hresult: 0, handle: 30 });
    assert_eq!(launch.command_line, command_line);
    assert_eq!(launch.working_dir, working_dir);
    assert_eq!(launch.dimensions, dims());
}

#[test]
fn flags_are_those_of_the_windows_api() {
    let mut launch = begin();
    launch.step(pipe(10, 11));
    launch.step(pipe(20, 21));
    launch.step(Event::Device {
        hresult: windows_sys::Win32::Foundation::S_OK,
        handle: 30,
    });
    launch.step(Event::ListSize { returned: 0, size: 48 });
    let answer = launch.step(Event::ListInit { returned: 1 });
    assert_eq!(
        answer,
        Some(Action::SetAttribute {
            attribute: windows_sys::Win32::System::Threading::PROC_THREAD_ATTRIBUTE_PSEUDOCONSOLE
                as usize,
            device: 30,
        })
    );
    let answer = launch.step(Event::Attribute { returned: 1 });
    assert_eq!(
        answer,
        Some(Action::Spawn {
            inherit_handles: false,
            creation_flags: windows_sys::Win32::System::Threading::EXTENDED_STARTUPINFO_PRESENT,
            startup_flags: windows_sys::Win32::System::Threading::STARTF_USESTDHANDLES,
        })
    );
}

#[test]
fn first_pipe_failure_is_resource_exhausted_with_nothing_held() {
    let mut launch = begin();
    let answer = launch.step(Event::Pipe(None));
    assert_eq!(
        answer,
        Some(Action::Failed { held: Ledger::empty(), error: SessionError::ResourceExhausted })
    );
    assert_eq!(launch.stage, Stage::Finished);
}

#[test]
fn second_pipe_failure_hands_back_the_first_pipe() {
    let mut launch = begin();
    launch.step(pipe(10, 11));
    let answer = launch.step(Event::Pipe(None));
    let held = Ledger {
        device: None,
        device_input: None,
        device_output: Some(11),
        output_reader: Some(10),
        input_writer: None,
        process: None,
        thread: None,
    };
    assert_eq!(answer, Some(Action::Failed { held, error: SessionError::ResourceExhausted }));
    assert_eq!(launch.stage, Stage::Finished);
}

#[test]
fn device_failure_hands_back_all_four_pipe_ends() {
    let mut launch = begin();
    launch.step(pipe(10, 11));
    launch.step(pipe(20, 21));
    let e_fail: i32 = -2147467259;
    let answer = launch.step(Event::Device { hresult: e_fail, handle: 0 });
    let held = Ledger {
        device: None,
        device_input: Some(20),
        device_output: Some(11),
        output_reader: Some(10),
        input_writer: Some(21),
        process: None,
        thread: None,
    };
    assert_eq!(answer, Some(Action::Failed { held, error: SessionError::DeviceCreationFailed }));
    assert_eq!(launch.stage, Stage::Finished);
}

#[test]
fn device_result_other_than_s_ok_is_a_failure() {
    let mut launch = begin();
    launch.step(pipe(10, 11));
    launch.step(pipe(20, 21));
    let s_false: i32 = 1;
    let answer = launch.step(Event::Device { hresult: s_false, handle: 30 });
    match answer {
        Some(Action::Failed { error, .. }) => {
            assert_eq!(error, SessionError::DeviceCreationFailed)
        }
        other => panic!("unexpected answer {:?}", other),
    }
}

#[test]
fn sizing_call_that_reports_success_fails_the_launch() {
    let mut launch = begin();
    launch.step(pipe(10, 11));
    launch.step(pipe(20, 21));
    launch.step(Event::Device { hresult: 0, handle: 30 });
    let answer = launch.step(Event::ListSize { returned: 1, size: 48 });
    assert_eq!(
        answer,
        Some(Action::Failed {
            held: bound(30, 10, 21),
            error: SessionError::AttributeListInitFailed,
        })
    );
    assert_eq!(launch.stage, Stage::Finished);
}

#[test]
fn sizing_call_may_return_a_negative_value() {
    let mut launch = begin();
    launch.step(pipe(10, 11));
    launch.step(pipe(20, 21));
    launch.step(Event::Device { hresult: 0, handle: 30 });
    let answer = launch.step(Event::ListSize { returned: -1, size: 64 });
    assert_eq!(answer, Some(Action::InitList { size: 64, attribute_count: 1 }));
}

#[test]
fn list_initialisation_failure_is_attribute_list_init_failed() {
    let mut launch = begin();
    launch.step(pipe(10, 11));
    launch.step(pipe(20, 21));
    launch.step(Event::Device { hresult: 0, handle: 30 });
    launch.step(Event::ListSize { returned: 0, size: 48 });
    let answer = launch.step(Event::ListInit { returned: 0 });
    assert_eq!(
        answer,
        Some(Action::Failed {
            held: bound(30, 10, 21),
            error: SessionError::AttributeListInitFailed,
        })
    );
    assert_eq!(launch.stage, Stage::Finished);
}

#[test]
fn attribute_update_failure_is_attribute_list_init_failed() {
    let mut launch = begin();
    launch.step(pipe(10, 11));
    launch.step(pipe(20, 21));
    launch.step(Event::Device { hresult: 0, handle: 30 });
    launch.step(Event::ListSize { returned: 0, size: 48 });
    launch.step(Event::ListInit { returned: 1 });
    let answer = launch.step(Event::Attribute { returned: -1 });
    assert_eq!(
        answer,
        Some(Action::Failed {
            held: bound(30, 10, 21),
            error: SessionError::AttributeListInitFailed,
        })
    );
    assert_eq!(launch.stage, Stage::Finished);
}

#[test]
fn spawn_failure_carries_the_last_error_code() {
    let mut launch = until_spawn();
    let answer = launch.step(Event::Spawn { returned: 0, process: 0, thread: 0, last_error: 2 });
    assert_eq!(
        answer,
        Some(Action::Failed {
            held: bound(30, 10, 21),
            error: SessionError::ProcessSpawnFailed(2),
        })
    );
    assert_eq!(launch.stage, Stage::Finished);
}

#[test]
fn event_for_another_call_is_ignored() {
    let mut launch = begin();
    launch.step(pipe(10, 11));
    let before: Stage = launch.stage;
    assert_eq!(launch.step(Event::Device { hresult: 0, handle: 30 }), None);
    assert_eq!(launch.stage, before);
    assert_eq!(launch.step(Event::ListInit { returned: 1 }), None);
    assert_eq!(
        launch.step(Event::Spawn { returned: 1, process: 40, thread: 41, last_error: 0 }),
        None
    );
    assert_eq!(launch.stage, before);
    assert_eq!(
        launch.step(pipe(20, 21)),
        Some(Action::CreateDevice { columns: 80, rows: 25, input: 20, output: 11 })
    );
}

#[test]
fn finished_launch_answers_nothing() {
    let mut launch = begin();
    launch.step(Event::Pipe(None));
    assert_eq!(launch.step(pipe(10, 11)), None);
    assert_eq!(launch.step(Event::Pipe(None)), None);
    assert_eq!(launch.step(Event::ListSize { returned: 0, size: 8 }), None);
    assert_eq!(launch.stage, Stage::Finished);

    let mut launch = until_spawn();
    launch.step(Event::Spawn { returned: 1, process: 40, thread: 41, last_error: 0 });
    assert_eq!(
        launch.step(Event::Spawn { returned: 1, process: 50, thread: 51, last_error: 0 }),
        None
    );
}

#[test]
fn every_failure_leaves_a_plan_that_releases_everything() {
    let failures: Vec<Vec<Event>> = vec![
        vec![Event::Pipe(None)],
        vec![pipe(10, 11), Event::Pipe(None)],
        vec![pipe(10, 11), pipe(20, 21), Event::Device { hresult: -1, handle: 0 }],
        vec![
            pipe(10, 11),
            pipe(20, 21),
            Event::Device { hresult: 0, handle: 30 },
            Event::ListSize { returned: 1, size: 0 },
        ],
        vec![
            pipe(10, 11),
            pipe(20, 21),
            Event::Device { hresult: 0, handle: 30 },
            Event::ListSize { returned: 0, size: 48 },
            Event::ListInit { returned: 0 },
        ],
        vec![
            pipe(10, 11),
            pipe(20, 21),
            Event::Device { hresult: 0, handle: 30 },
            Event::ListSize { returned: 0, size: 48 },
            Event::ListInit { returned: 1 },
            Event::Attribute { returned: 0 },
        ],
        vec![
            pipe(10, 11),
            pipe(20, 21),
            Event::Device { hresult: 0, handle: 30 },
            Event::ListSize { returned: 0, size: 48 },
            Event::ListInit { returned: 1 },
            Event::Attribute { returned: 1 },
            Event::Spawn { returned: 0, process: 0, thread: 0, last_error: 87 },
        ],
    ];
    for events in failures {
        let mut launch = begin();
        let mut last: Option<Action> = None;
        for event in events {
            last = launch.step(event);
        }
        match last {
            Some(Action::Failed { held, .. }) => {
                let plan = held.release_plan();
                assert_eq!(held.replay(&plan), Ok(Ledger::empty()));
            }
            other => panic!("unexpected answer {:?}", other),
        }
        assert_eq!(launch.stage, Stage::Finished);
    }
}

#[test]
fn two_launches_yield_independent_sessions() {
    let mut first = begin();
    let mut second = begin();
    // The two launches are driven in turn; each is told only of its own handles.
    first.step(pipe(10, 11));
    second.step(pipe(110, 111));
    second.step(pipe(120, 121));
    first.step(pipe(20, 21));
    first.step(Event::Device { hresult: 0, handle: 30 });
    second.step(Event::Device { hresult: 0, handle: 130 });
    for launch in [&mut first, &mut second] {
        launch.step(Event::ListSize { returned: 0, size: 48 });
        launch.step(Event::ListInit { returned: 1 });
        launch.step(Event::Attribute { returned: 1 });
    }
    let a = first.step(Event::Spawn { returned: 1, process: 40, thread: 41, last_error: 0 });
    let b = second.step(Event::Spawn { returned: 1, process: 140, thread: 141, last_error: 0 });
    let (a, b) = match (a, b) {
        (Some(Action::Ready(a)), Some(Action::Ready(b))) => (a, b),
        other => panic!("unexpected answers {:?}", other),
    };
    assert_eq!(
        a,
        ConptyHolder { conpty: Conpty { handle: 30 }, conout: 10, conin: 21, process: 40, thread: 41 }
    );
    assert_eq!(
        b,
        ConptyHolder {
            conpty: Conpty { handle: 130 },
            conout: 110,
            conin: 121,
            process: 140,
            thread: 141,
        }
    );
    let mine: Vec<isize> = a.teardown().iter().map(|release| release.handle).collect();
    let theirs: Vec<isize> = b.teardown().iter().map(|release| release.handle).collect();
    for handle in &mine {
        assert!(!theirs.contains(handle));
    }
}
