use voxtype_systray::channels::{
    after_poll, dictation_watcher, initial_reports, is_active_text, meeting_poller,
    push_combined_state, systemd_voxtype_active, WatcherEvent, WatcherStep, RETRY_SECONDS,
};
use voxtype_systray::meeting::{parse_meeting_status, read_lowered};
use voxtype_systray::state::{
    combine_states, DictationState, MeetingState, VoxtypeState, VoxtypeStatusJson,
};

fn active(status: &str) -> MeetingState {
    MeetingState::Active {
        status: status.to_string(),
    }
}

fn status_line(alt: &str) -> VoxtypeStatusJson {
    VoxtypeStatusJson {
        alt: alt.to_string(),
        tooltip: None,
    }
}

#[test]
fn test_parse_meeting_no_meeting() {
    let output = "No meeting currently in progress.\n\nUse 'voxtype meeting list' to see past meetings.\n";
    assert_eq!(parse_meeting_status(output), MeetingState::NoMeeting);
}

#[test]
fn test_parse_meeting_recording() {
    let output = "Meeting Status: recording\nMeeting ID: 1aeb7e38-b91a-46c1-a2c8-e21b6dc12b51\n";
    assert_eq!(
        parse_meeting_status(output),
        MeetingState::Active {
            status: "recording".to_string()
        }
    );
}

#[test]
fn test_parse_meeting_paused() {
    let output = "Meeting Status: paused\nMeeting ID: 1aeb7e38-b91a-46c1-a2c8-e21b6dc12b51\n";
    assert_eq!(
        parse_meeting_status(output),
        MeetingState::Active {
            status: "paused".to_string()
        }
    );
}

#[test]
fn test_parse_meeting_unknown_status() {
    let output = "Meeting Status: initializing\nMeeting ID: abc-123\n";
    assert_eq!(
        parse_meeting_status(output),
        MeetingState::Active {
            status: "initializing".to_string()
        }
    );
}

#[test]
fn test_parse_meeting_case_insensitive() {
    let output = "MEETING STATUS: recording\nMeeting ID: abc\n";
    assert_eq!(
        parse_meeting_status(output),
        MeetingState::Active {
            status: "recording".to_string()
        }
    );
}

#[test]
fn test_parse_meeting_empty_output() {
    assert_eq!(parse_meeting_status(""), MeetingState::Unknown);
}

#[test]
fn case_does_not_matter_in_the_status_either() {
    assert_eq!(parse_meeting_status("Meeting Status: PAUSED\n"), active("paused"));
    assert_eq!(parse_meeting_status("NO MEETING\n"), MeetingState::NoMeeting);
    assert_eq!(parse_meeting_status("meeting status: ÉTÉ\n"), active("été"));
}

#[test]
fn blank_status_lines_are_passed_over() {
    let output = "hello\r\nMeeting Status:   \r\nMeeting Status:\u{a0} recording \r\nMeeting Status: paused";
    assert_eq!(parse_meeting_status(output), active("recording"));
    assert_eq!(parse_meeting_status("Meeting Status:\n"), MeetingState::Unknown);
    assert_eq!(parse_meeting_status(" Meeting Status: paused\n"), MeetingState::Unknown);
}

#[test]
fn no_meeting_anywhere_wins() {
    let output = "Meeting Status: recording\nThere is no meeting to resume.\n";
    assert_eq!(parse_meeting_status(output), MeetingState::NoMeeting);
}

#[test]
fn lowered_output_is_read_as_it_stands() {
    let lines = vec!["x".to_string(), "meeting status: on".to_string()];
    assert_eq!(read_lowered("x", &lines), active("on"));
    assert_eq!(read_lowered("no meeting", &lines), MeetingState::NoMeeting);
    assert_eq!(read_lowered("", &vec![]), MeetingState::Unknown);
}

#[test]
fn test_combine_daemon_down_overrides_meeting() {
    let d = DictationState::DaemonDown;
    let m = MeetingState::Active {
        status: "recording".to_string(),
    };
    assert_eq!(combine_states(&d, &m), VoxtypeState::Stopped);
}

#[test]
fn test_combine_idle_plus_active_meeting_is_green() {
    let d = DictationState::Idle;
    let m = MeetingState::Active {
        status: "recording".to_string(),
    };
    assert_eq!(
        combine_states(&d, &m),
        VoxtypeState::ActiveMeeting {
            meeting_status: "recording".to_string()
        }
    );
}

#[test]
fn test_combine_idle_plus_no_meeting_is_idle() {
    let d = DictationState::Idle;
    let m = MeetingState::NoMeeting;
    assert_eq!(combine_states(&d, &m), VoxtypeState::Idle);
}

#[test]
fn test_combine_active_dictation_takes_precedence() {
    let d = DictationState::Active {
        activity: "Enregistrement".to_string(),
    };
    let m = MeetingState::Active {
        status: "recording".to_string(),
    };
    assert_eq!(
        combine_states(&d, &m),
        VoxtypeState::ActiveDictation {
            activity: "Enregistrement".to_string()
        }
    );
}

#[test]
fn test_combine_idle_plus_unknown_meeting_is_idle() {
    let d = DictationState::Idle;
    let m = MeetingState::Unknown;
    assert_eq!(combine_states(&d, &m), VoxtypeState::Idle);
}

#[test]
fn test_tooltip_meeting() {
    let state = VoxtypeState::ActiveMeeting {
        meeting_status: "recording".to_string(),
    };
    assert_eq!(state.tooltip_title(), "Réunion en cours (recording)");
}

#[test]
fn test_tooltip_dictation() {
    let state = VoxtypeState::ActiveDictation {
        activity: "Transcription".to_string(),
    };
    assert_eq!(state.tooltip_title(), "En cours : Transcription");
}

#[test]
fn tooltips_without_activity() {
    assert_eq!(VoxtypeState::Stopped.tooltip_title(), "Daemon arrêté");
    assert_eq!(VoxtypeState::Idle.tooltip_title(), "Au repos (idle)");
}

#[test]
fn a_meeting_is_never_taken_for_a_dictation() {
    let meeting = VoxtypeState::ActiveMeeting {
        meeting_status: "recording".to_string(),
    };
    let dictation = VoxtypeState::ActiveDictation {
        activity: "recording".to_string(),
    };
    assert_eq!(meeting.tooltip_title(), "Réunion en cours (recording)");
    assert_ne!(meeting.tooltip_title(), dictation.tooltip_title());
    assert_ne!(meeting, dictation);
}

#[test]
fn test_is_active_flags() {
    assert!(!VoxtypeState::Stopped.is_active());
    assert!(!VoxtypeState::Idle.is_active());
    assert!(VoxtypeState::ActiveDictation {
        activity: "x".to_string()
    }
    .is_active());
    assert!(VoxtypeState::ActiveMeeting {
        meeting_status: "x".to_string()
    }
    .is_active());
}

#[test]
fn status_names_and_their_reports() {
    assert_eq!(status_line("idle").to_dictation_state(), DictationState::Idle);
    assert_eq!(
        status_line("recording").to_dictation_state(),
        DictationState::Active {
            activity: "Enregistrement".to_string()
        }
    );
    assert_eq!(
        status_line("transcribing").to_dictation_state(),
        DictationState::Active {
            activity: "Transcription".to_string()
        }
    );
    assert_eq!(status_line("error").to_dictation_state(), DictationState::DaemonDown);
    assert_eq!(status_line("stopped").to_dictation_state(), DictationState::DaemonDown);
    assert_eq!(status_line("warming-up").to_dictation_state(), DictationState::Idle);
    assert_eq!(status_line("Recording").to_dictation_state(), DictationState::Idle);
}

#[test]
fn service_state_from_systemctl() {
    assert!(systemd_voxtype_active(Some(b"active\n")));
    assert!(!systemd_voxtype_active(Some(b"inactive\n")));
    assert!(!systemd_voxtype_active(Some(b"")));
    assert!(!systemd_voxtype_active(Some(b"active\xff\n")));
    assert!(!systemd_voxtype_active(None));
    assert!(is_active_text("  active\u{3000}"));
    assert!(!is_active_text("activé"));
}

#[test]
fn updates_are_sent_once() {
    let dictation = DictationState::Idle;
    let meeting = active("recording");
    let shown = VoxtypeState::Stopped;
    let sent = push_combined_state(Some(&dictation), Some(&meeting), Some(&shown)).unwrap();
    assert_eq!(
        sent,
        VoxtypeState::ActiveMeeting {
            meeting_status: "recording".to_string()
        }
    );
    assert_eq!(
        push_combined_state(Some(&dictation), Some(&meeting), Some(&sent)),
        None
    );
}

#[test]
fn poisoned_locks() {
    let idle = DictationState::Idle;
    let meeting = active("recording");
    let shown = VoxtypeState::Idle;
    assert_eq!(
        push_combined_state(None, Some(&meeting), Some(&shown)),
        Some(VoxtypeState::Stopped)
    );
    assert_eq!(push_combined_state(Some(&idle), None, Some(&shown)), None);
    assert_eq!(
        push_combined_state(Some(&idle), None, None),
        Some(VoxtypeState::Idle)
    );
}

#[test]
fn nothing_to_send_at_the_start() {
    let (dictation, meeting, shown) = initial_reports();
    assert_eq!(dictation, DictationState::DaemonDown);
    assert_eq!(meeting, MeetingState::NoMeeting);
    assert_eq!(shown, VoxtypeState::Stopped);
    assert_eq!(
        push_combined_state(Some(&dictation), Some(&meeting), Some(&shown)),
        None
    );
}

#[test]
fn watcher_waits_when_the_daemon_is_down() {
    assert_eq!(RETRY_SECONDS, 2);
    for event in [
        WatcherEvent::ServiceChecked { active: false },
        WatcherEvent::SpawnFailed,
        WatcherEvent::NoStdout,
        WatcherEvent::ServiceRechecked { active: false },
    ] {
        let step = dictation_watcher(event);
        assert_eq!(step.next, WatcherStep::Sleep);
        assert_eq!(step.report, Some(DictationState::DaemonDown));
    }
    let step = dictation_watcher(WatcherEvent::Slept);
    assert_eq!(step.next, WatcherStep::CheckService);
    assert_eq!(step.report, None);
}

#[test]
fn watcher_follows_the_status() {
    let step = dictation_watcher(WatcherEvent::ServiceChecked { active: true });
    assert_eq!((step.next, step.report), (WatcherStep::SpawnFollow, None));
    let step = dictation_watcher(WatcherEvent::Spawned);
    assert_eq!((step.next, step.report), (WatcherStep::ReadLine, None));
    let step = dictation_watcher(WatcherEvent::LineRead {
        line: "{\"alt\":\"idle\"}".to_string(),
    });
    assert_eq!((step.next, step.report), (WatcherStep::ParseLine, None));
    let step = dictation_watcher(WatcherEvent::Parsed {
        status: Some(status_line("idle")),
    });
    assert_eq!(
        (step.next, step.report),
        (WatcherStep::ReadLine, Some(DictationState::Idle))
    );
    let step = dictation_watcher(WatcherEvent::FollowEnded);
    assert_eq!((step.next, step.report), (WatcherStep::Reap, None));
    let step = dictation_watcher(WatcherEvent::Reaped);
    assert_eq!((step.next, step.report), (WatcherStep::RecheckService, None));
    let step = dictation_watcher(WatcherEvent::ServiceRechecked { active: true });
    assert_eq!((step.next, step.report), (WatcherStep::Sleep, None));
}

#[test]
fn watcher_passes_over_bad_lines() {
    let step = dictation_watcher(WatcherEvent::LineRead {
        line: " \t\u{2003}".to_string(),
    });
    assert_eq!((step.next, step.report), (WatcherStep::ReadLine, None));
    let step = dictation_watcher(WatcherEvent::Parsed { status: None });
    assert_eq!((step.next, step.report), (WatcherStep::ReadLine, None));
}

#[test]
fn polls_report_changes_only() {
    let none = MeetingState::NoMeeting;
    let step = meeting_poller(Some(b"Meeting Status: Recording\n"), Some(&none));
    assert_eq!((step.report, step.push), (Some(active("recording")), true));
    let recording = active("recording");
    let step = meeting_poller(Some(b"Meeting Status: Recording\n"), Some(&recording));
    assert_eq!((step.report, step.push), (None, false));
    let step = meeting_poller(Some(b"\xff\xfe"), Some(&recording));
    assert_eq!((step.report, step.push), (Some(MeetingState::Unknown), true));
    let step = meeting_poller(Some(b"no meeting"), None);
    assert_eq!((step.report, step.push), (None, true));
}

#[test]
fn failed_polls_do_not_hide_an_idle_daemon() {
    let idle = DictationState::Idle;
    let recording = active("recording");
    let shown = combine_states(&idle, &recording);
    let step = meeting_poller(None, Some(&recording));
    assert_eq!((&step.report, step.push), (&Some(MeetingState::Unknown), true));
    assert_eq!(
        push_combined_state(Some(&idle), step.report.as_ref(), Some(&shown)),
        Some(VoxtypeState::Idle)
    );
    let step = meeting_poller(None, Some(&MeetingState::NoMeeting));
    assert_eq!((step.report, step.push), (Some(MeetingState::Unknown), true));
    let step = meeting_poller(None, Some(&MeetingState::Unknown));
    assert_eq!((step.report, step.push), (None, false));
    let step = meeting_poller(None, None);
    assert_eq!((step.report, step.push), (None, true));
    assert_eq!(
        combine_states(&DictationState::DaemonDown, &MeetingState::Unknown),
        VoxtypeState::Stopped
    );
}

#[test]
fn polls_that_change_the_report() {
    let recording = active("recording");
    let step = after_poll(Some(active("a")), Some(&recording));
    assert_eq!((step.report, step.push), (Some(active("a")), true));
    let step = after_poll(Some(active("recording")), Some(&recording));
    assert_eq!((step.report, step.push), (None, false));
}
