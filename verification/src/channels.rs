//! The decisions of the two background tasks: the one that follows `voxtype status` and
//! the one that polls `voxtype meeting status`.

use crate::meeting::parse_meeting_status;
use crate::state::{
    combine_states, DictationState, MeetingState, VoxtypeState, VoxtypeStatusJson,
};
use crate::text;
use vstd::prelude::*;

verus! {

/// How many seconds either task waits before it tries again.
pub const RETRY_SECONDS: u64 = 2;

/// Whether the output of `systemctl is-active` says that the service is active.
pub open spec fn says_active(stdout: Seq<char>) -> bool {
    text::trimmed(stdout) == "active"@
}

/// Reads what `systemctl is-active` printed.
pub fn is_active_text(stdout: &str) -> (result: bool)
    ensures
        result == says_active(stdout@),
{
    text::same_text(text::trim(stdout), "active")
}

/// Whether the service is active, from the standard output of
/// `systemctl --user is-active voxtype`, or from nothing if it could not be run.
pub fn systemd_voxtype_active(stdout: Option<&[u8]>) -> (result: bool)
    ensures
        match stdout {
            Some(bytes) => {
                &&& result == says_active(text::utf8_lossy(bytes@))
                &&& vstd::utf8::valid_utf8(bytes@) ==> result == says_active(
                    vstd::utf8::decode_utf8(bytes@),
                )
            },
            None => !result,
        },
{
    match stdout {
        Some(bytes) => is_active_text(text::from_utf8_lossy(bytes).as_str()),
        None => false,
    }
}

/// The update that the tray needs, if any. A report that cannot be read counts as a
/// daemon that is down, or as a meeting of unknown state; a displayed state that cannot
/// be read counts as out of date.
pub open spec fn update_due(
    dictation: Option<crate::state::DictationReport>,
    meeting: Option<crate::state::MeetingReport>,
    displayed: Option<crate::state::ShownState>,
) -> Option<crate::state::ShownState> {
    let dictation = match dictation {
        Some(report) => report,
        None => crate::state::DictationReport::DaemonDown,
    };
    let meeting = match meeting {
        Some(report) => report,
        None => crate::state::MeetingReport::Unknown,
    };
    let shown = crate::state::combined(dictation, meeting);
    if displayed == Some(shown) {
        None
    } else {
        Some(shown)
    }
}

/// The state to send to the tray, or nothing if the tray shows it already. Each argument
/// is missing where its lock is poisoned.
pub fn push_combined_state(
    dictation: Option<&DictationState>,
    meeting: Option<&MeetingState>,
    displayed: Option<&VoxtypeState>,
) -> (result: Option<VoxtypeState>)
    ensures
        crate::seen(result) == update_due(
            crate::seen(dictation),
            crate::seen(meeting),
            crate::seen(displayed),
        ),
{
    let down = DictationState::DaemonDown;
    let unknown = MeetingState::Unknown;
    let dictation = match dictation {
        Some(report) => report,
        None => &down,
    };
    let meeting = match meeting {
        Some(report) => report,
        None => &unknown,
    };
    let shown = combine_states(dictation, meeting);
    match displayed {
        Some(last) => if *last == shown {
            None
        } else {
            Some(shown)
        },
        None => Some(shown),
    }
}

/// No update is sent twice: once the tray shows what was sent, the same reports send
/// nothing more.
pub proof fn law_no_update_is_sent_twice(
    dictation: Option<crate::state::DictationReport>,
    meeting: Option<crate::state::MeetingReport>,
    displayed: Option<crate::state::ShownState>,
)
    ensures
        update_due(dictation, meeting, displayed) matches Some(sent) ==> update_due(
            dictation,
            meeting,
            Some(sent),
        ) is None,
{
}

/// Whatever the tray showed before, it shows the merged reports afterwards.
pub proof fn law_tray_shows_the_merged_reports(
    dictation: crate::state::DictationReport,
    meeting: crate::state::MeetingReport,
    displayed: crate::state::ShownState,
)
    ensures
        match update_due(Some(dictation), Some(meeting), Some(displayed)) {
            Some(sent) => sent,
            None => displayed,
        } == crate::state::combined(dictation, meeting),
{
}

/// What the two channels report, and what the tray shows, before anything has been heard: the
/// daemon counts as down.
pub fn initial_reports() -> (result: (DictationState, MeetingState, VoxtypeState))
    ensures
        result.0@ is DaemonDown,
        result.1@ is NoMeeting,
        result.2@ is Stopped,
{
    (DictationState::DaemonDown, MeetingState::NoMeeting, VoxtypeState::Stopped)
}

/// The tray starts up to date: before anything has been heard there is nothing to send.
pub proof fn law_tray_starts_up_to_date()
    ensures
        update_due(
            Some(crate::state::DictationReport::DaemonDown),
            Some(crate::state::MeetingReport::NoMeeting),
            Some(crate::state::ShownState::Stopped),
        ) is None,
{
}

/// What the dictation task does next.
#[derive(Clone, Copy, Debug, PartialEq, Eq, Structural)]
pub enum WatcherStep {
    /// Ask systemd whether the service is active.
    CheckService,
    /// Start `voxtype status --format json --follow`.
    SpawnFollow,
    /// Read one line from it.
    ReadLine,
    /// Parse the line that was read, as JSON.
    ParseLine,
    /// Kill the process and wait for it.
    Reap,
    /// Ask systemd again, now that the process has ended.
    RecheckService,
    /// Wait for [`RETRY_SECONDS`].
    Sleep,
}

/// What came of a step of the dictation task.
#[derive(Debug)]
pub enum WatcherEvent {
    /// Systemd was asked before the process was started.
    ServiceChecked { active: bool },
    /// The process could not be started.
    SpawnFailed,
    /// The process was started without a standard output.
    NoStdout,
    /// The process was started.
    Spawned,
    /// The process wrote a line.
    LineRead { line: String },
    /// The line was parsed; there is no status if it is malformed.
    Parsed { status: Option<VoxtypeStatusJson> },
    /// The process closed its output, or reading from it failed.
    FollowEnded,
    /// The process is gone.
    Reaped,
    /// Systemd was asked after the process had ended.
    ServiceRechecked { active: bool },
    /// The time to wait is over.
    Slept,
}

/// How the dictation task goes on: the next step and, in front of it, the report to store
/// and to push, if there is one.
#[derive(Debug)]
pub struct WatcherMove {
    pub report: Option<DictationState>,
    pub next: WatcherStep,
}

/// Whether an event can come of a step.
pub open spec fn answers(step: WatcherStep, event: WatcherEvent) -> bool {
    match event {
        WatcherEvent::ServiceChecked { .. } => step == WatcherStep::CheckService,
        WatcherEvent::SpawnFailed => step == WatcherStep::SpawnFollow,
        WatcherEvent::NoStdout => step == WatcherStep::SpawnFollow,
        WatcherEvent::Spawned => step == WatcherStep::SpawnFollow,
        WatcherEvent::LineRead { .. } => step == WatcherStep::ReadLine,
        WatcherEvent::FollowEnded => step == WatcherStep::ReadLine,
        WatcherEvent::Parsed { .. } => step == WatcherStep::ParseLine,
        WatcherEvent::Reaped => step == WatcherStep::Reap,
        WatcherEvent::ServiceRechecked { .. } => step == WatcherStep::RecheckService,
        WatcherEvent::Slept => step == WatcherStep::Sleep,
    }
}

/// The step that follows an event.
pub open spec fn step_after(event: WatcherEvent) -> WatcherStep {
    match event {
        WatcherEvent::ServiceChecked { active } => if active {
            WatcherStep::SpawnFollow
        } else {
            WatcherStep::Sleep
        },
        WatcherEvent::SpawnFailed => WatcherStep::Sleep,
        WatcherEvent::NoStdout => WatcherStep::Sleep,
        WatcherEvent::Spawned => WatcherStep::ReadLine,
        WatcherEvent::LineRead { line } => if text::trimmed(line@).len() == 0 {
            WatcherStep::ReadLine
        } else {
            WatcherStep::ParseLine
        },
        WatcherEvent::Parsed { .. } => WatcherStep::ReadLine,
        WatcherEvent::FollowEnded => WatcherStep::Reap,
        WatcherEvent::Reaped => WatcherStep::RecheckService,
        WatcherEvent::ServiceRechecked { .. } => WatcherStep::Sleep,
        WatcherEvent::Slept => WatcherStep::CheckService,
    }
}

/// The report that an event makes, if it makes one.
pub open spec fn report_after(event: WatcherEvent) -> Option<crate::state::DictationReport> {
    match event {
        WatcherEvent::ServiceChecked { active } | WatcherEvent::ServiceRechecked { active } =>
            if active {
                None
            } else {
                Some(crate::state::DictationReport::DaemonDown)
            },
        WatcherEvent::SpawnFailed | WatcherEvent::NoStdout => Some(
            crate::state::DictationReport::DaemonDown,
        ),
        WatcherEvent::Parsed { status: Some(status) } => Some(
            crate::state::report_of(status.alt@),
        ),
        _ => None,
    }
}

/// Decides how the dictation task goes on after an event.
pub fn dictation_watcher(event: WatcherEvent) -> (result: WatcherMove)
    ensures
        result.next == step_after(event),
        crate::seen(result.report) == report_after(event),
{
    match event {
        WatcherEvent::ServiceChecked { active } => if active {
            WatcherMove { report: None, next: WatcherStep::SpawnFollow }
        } else {
            WatcherMove { report: Some(DictationState::DaemonDown), next: WatcherStep::Sleep }
        },
        WatcherEvent::SpawnFailed | WatcherEvent::NoStdout => WatcherMove {
            report: Some(DictationState::DaemonDown),
            next: WatcherStep::Sleep,
        },
        WatcherEvent::Spawned => WatcherMove { report: None, next: WatcherStep::ReadLine },
        WatcherEvent::LineRead { line } => if text::trim(line.as_str()).is_empty() {
            WatcherMove { report: None, next: WatcherStep::ReadLine }
        } else {
            WatcherMove { report: None, next: WatcherStep::ParseLine }
        },
        WatcherEvent::Parsed { status } => match status {
            Some(status) => WatcherMove {
                report: Some(status.to_dictation_state()),
                next: WatcherStep::ReadLine,
            },
            None => WatcherMove { report: None, next: WatcherStep::ReadLine },
        },
        WatcherEvent::FollowEnded => WatcherMove { report: None, next: WatcherStep::Reap },
        WatcherEvent::Reaped => WatcherMove { report: None, next: WatcherStep::RecheckService },
        WatcherEvent::ServiceRechecked { active } => if active {
            WatcherMove { report: None, next: WatcherStep::Sleep }
        } else {
            WatcherMove { report: Some(DictationState::DaemonDown), next: WatcherStep::Sleep }
        },
        WatcherEvent::Slept => WatcherMove { report: None, next: WatcherStep::CheckService },
    }
}

/// How many steps a step is away from the next check of the service, once nothing more is
/// read.
pub open spec fn steps_to_retry(step: WatcherStep) -> nat {
    match step {
        WatcherStep::CheckService => 0,
        WatcherStep::Sleep => 1,
        WatcherStep::RecheckService => 2,
        WatcherStep::Reap => 3,
        WatcherStep::ReadLine => 4,
        WatcherStep::ParseLine => 5,
        WatcherStep::SpawnFollow => 6,
    }
}

/// The dictation task always comes back: every event that is not a further line brings
/// the next check of the service nearer, or finds the service active.
pub proof fn law_watcher_always_retries(step: WatcherStep, event: WatcherEvent)
    requires
        answers(step, event),
    ensures
        step == WatcherStep::CheckService || event is LineRead || steps_to_retry(step_after(event))
            < steps_to_retry(step),
        step == WatcherStep::CheckService ==> step_after(event) == WatcherStep::Sleep || event
            == (WatcherEvent::ServiceChecked { active: true }),
        event is LineRead ==> step_after(event) == WatcherStep::ReadLine || step_after(event)
            == WatcherStep::ParseLine,
{
}

/// The dictation task reports a daemon that is down exactly when systemd says that the
/// service is inactive, when `voxtype status` cannot be followed, or when a status line
/// says so; except for a status line, it then waits before it tries again.
pub proof fn law_when_the_daemon_is_reported_down(event: WatcherEvent)
    ensures
        report_after(event) == Some(crate::state::DictationReport::DaemonDown) <==> {
            ||| event == (WatcherEvent::ServiceChecked { active: false })
            ||| event == (WatcherEvent::ServiceRechecked { active: false })
            ||| event is SpawnFailed
            ||| event is NoStdout
            ||| event matches WatcherEvent::Parsed { status: Some(status) }
                && crate::state::report_of(status.alt@) is DaemonDown
        },
        report_after(event) == Some(crate::state::DictationReport::DaemonDown) && !(event is Parsed)
            ==> step_after(event) == WatcherStep::Sleep,
{
}

/// A blank line, a malformed line and the end of the output change no report, and after
/// either kind of line the task reads on.
pub proof fn law_bad_lines_change_nothing(event: WatcherEvent)
    requires
        event matches WatcherEvent::LineRead { line } && text::trimmed(line@).len() == 0
            || event matches WatcherEvent::Parsed { status: None } || event is FollowEnded,
    ensures
        report_after(event) is None,
        !(event is FollowEnded) ==> step_after(event) == WatcherStep::ReadLine,
{
}

/// How the meeting task goes on after a poll: the report to store, if it changes, and
/// whether to push.
#[derive(Debug)]
pub struct PollMove {
    pub report: Option<MeetingState>,
    pub push: bool,
}

/// The report that a poll makes. A poll that could not be run reports an unknown state.
pub open spec fn report_of_poll(
    polled: Option<crate::state::MeetingReport>,
) -> crate::state::MeetingReport {
    match polled {
        Some(report) => report,
        None => crate::state::MeetingReport::Unknown,
    }
}

/// The report to store after a poll that gave `polled`, or that could not be run: the new one
/// if it differs from the old. Nothing can be stored where the lock is poisoned.
pub open spec fn report_after_poll(
    polled: Option<crate::state::MeetingReport>,
    current: Option<crate::state::MeetingReport>,
) -> Option<crate::state::MeetingReport> {
    if current is Some && current != Some(report_of_poll(polled)) {
        Some(report_of_poll(polled))
    } else {
        None
    }
}

/// Whether to push after a poll: when the report differs from the old, or the old cannot be
/// read.
pub open spec fn push_after_poll(
    polled: Option<crate::state::MeetingReport>,
    current: Option<crate::state::MeetingReport>,
) -> bool {
    current != Some(report_of_poll(polled))
}

/// Decides how the meeting task goes on after a poll: `polled` is missing if the command
/// could not be run, `current` where its lock is poisoned.
pub fn after_poll(polled: Option<MeetingState>, current: Option<&MeetingState>) -> (result:
    PollMove)
    ensures
        crate::seen(result.report) == report_after_poll(crate::seen(polled), crate::seen(current)),
        result.push == push_after_poll(crate::seen(polled), crate::seen(current)),
{
    let report = match polled {
        Some(report) => report,
        None => MeetingState::Unknown,
    };
    match current {
        Some(before) => if *before == report {
            PollMove { report: None, push: false }
        } else {
            PollMove { report: Some(report), push: true }
        },
        None => PollMove { report: None, push: true },
    }
}

/// Decides how the meeting task goes on after it ran `voxtype meeting status`: `stdout` is
/// missing if the command could not be run, `current` where its lock is poisoned.
pub fn meeting_poller(stdout: Option<&[u8]>, current: Option<&MeetingState>) -> (result: PollMove)
    ensures
        ({
            let polled = match stdout {
                Some(bytes) => Some(crate::meeting::meeting_report(text::utf8_lossy(bytes@))),
                None => None,
            };
            &&& crate::seen(result.report) == report_after_poll(polled, crate::seen(current))
            &&& result.push == push_after_poll(polled, crate::seen(current))
        }),
        stdout matches Some(bytes) ==> {
            let output = vstd::utf8::decode_utf8(bytes@);
            let polled = Some(crate::meeting::ascii_meeting_report(output));
            vstd::utf8::valid_utf8(bytes@) && vstd::utf8::is_ascii_chars(output) ==> {
                &&& crate::seen(result.report) == report_after_poll(polled, crate::seen(current))
                &&& result.push == push_after_poll(polled, crate::seen(current))
            }
        },
{
    let polled = match stdout {
        Some(bytes) => Some(parse_meeting_status(text::from_utf8_lossy(bytes).as_str())),
        None => None,
    };
    after_poll(polled, current)
}

/// The meeting report that is stored once a poll has been dealt with.
pub open spec fn stored_after_poll(
    polled: Option<crate::state::MeetingReport>,
    current: crate::state::MeetingReport,
) -> crate::state::MeetingReport {
    match report_after_poll(polled, Some(current)) {
        Some(report) => report,
        None => current,
    }
}

/// The state that the tray shows once a poll has been dealt with.
pub open spec fn shown_after_poll(
    dictation: crate::state::DictationReport,
    polled: Option<crate::state::MeetingReport>,
    current: crate::state::MeetingReport,
    displayed: crate::state::ShownState,
) -> crate::state::ShownState {
    let due = update_due(
        Some(dictation),
        Some(stored_after_poll(polled, current)),
        Some(displayed),
    );
    if push_after_poll(polled, Some(current)) && due is Some {
        due->Some_0
    } else {
        displayed
    }
}

/// A poll keeps the tray up to date, whether or not it could be run: if the tray showed the
/// merged reports before, it shows them afterwards, with what the poll reports.
pub proof fn law_poll_keeps_the_tray_up_to_date(
    dictation: crate::state::DictationReport,
    polled: Option<crate::state::MeetingReport>,
    current: crate::state::MeetingReport,
)
    ensures
        stored_after_poll(polled, current) == report_of_poll(polled),
        shown_after_poll(
            dictation,
            polled,
            current,
            crate::state::combined(dictation, current),
        ) == crate::state::combined(dictation, report_of_poll(polled)),
{
}

/// A meeting poll that fails never turns the tray red: it stores an unknown state, the tray
/// then shows the merged reports, and those are red exactly when the dictation channel reports
/// the daemon down.
pub proof fn law_failed_poll_is_harmless(
    dictation: crate::state::DictationReport,
    current: crate::state::MeetingReport,
)
    ensures
        stored_after_poll(None, current) is Unknown,
        push_after_poll(None, Some(current)) <==> !(current is Unknown),
        ({
            let shown = shown_after_poll(
                dictation,
                None,
                current,
                crate::state::combined(dictation, current),
            );
            &&& shown == crate::state::combined(dictation, crate::state::MeetingReport::Unknown)
            &&& shown is Stopped <==> dictation is DaemonDown
        }),
{
}

/// A poll that reports what is known already stores nothing and pushes nothing.
pub proof fn law_repeated_poll_changes_nothing(report: crate::state::MeetingReport)
    ensures
        report_after_poll(Some(report), Some(report)) is None,
        !push_after_poll(Some(report), Some(report)),
{
}

/// The service is active exactly when systemctl printed `active` and otherwise only white space
/// around it.
pub proof fn law_when_the_service_is_active(stdout: Seq<char>)
    ensures
        says_active(stdout) <==> exists|from: int, to: int|
            {
                &&& 0 <= from <= to <= stdout.len()
                &&& #[trigger] stdout.subrange(from, to) == "active"@
                &&& forall|i: int|
                    0 <= i < from || to <= i < stdout.len() ==> text::white_space(
                        #[trigger] stdout[i],
                    )
            },
{
    reveal_strlit("active");
    text::law_trimming_cuts_white_space(stdout);
    if exists|from: int, to: int|
        {
            &&& 0 <= from <= to <= stdout.len()
            &&& #[trigger] stdout.subrange(from, to) == "active"@
            &&& forall|i: int|
                0 <= i < from || to <= i < stdout.len() ==> text::white_space(
                    #[trigger] stdout[i],
                )
        } {
        let (from, to) = choose|from: int, to: int|
            {
                &&& 0 <= from <= to <= stdout.len()
                &&& #[trigger] stdout.subrange(from, to) == "active"@
                &&& forall|i: int|
                    0 <= i < from || to <= i < stdout.len() ==> text::white_space(
                        #[trigger] stdout[i],
                    )
            };
        let (start, end) = choose|start: int, end: int|
            {
                &&& 0 <= start <= end <= stdout.len()
                &&& #[trigger] stdout.subrange(start, end) == text::trimmed(stdout)
                &&& forall|i: int|
                    0 <= i < start || end <= i < stdout.len() ==> text::white_space(
                        #[trigger] stdout[i],
                    )
            };
        let word = stdout.subrange(from, to);
        let kept = stdout.subrange(start, end);
        assert(word == "active"@ && word.len() == to - from);
        assert("active"@[0] == 'a' && "active"@[5] == 'e' && "active"@.len() == 6);
        assert(word[0] == stdout[from]);
        assert(word[5] == stdout[to - 1]);
        assert(start <= from && to <= end);
        assert(kept.first() == stdout[start]);
        assert(kept.last() == stdout[end - 1]);
        assert(start == from && to == end);
    }
}

/// A lock that is poisoned never stops the tray: dictation that cannot be read counts as a
/// daemon that is down, a meeting as one of unknown state, and where it is not known what the
/// tray shows, the state is sent.
pub proof fn law_poisoned_locks(
    dictation: Option<crate::state::DictationReport>,
    meeting: Option<crate::state::MeetingReport>,
    displayed: Option<crate::state::ShownState>,
    known_dictation: crate::state::DictationReport,
    known_meeting: crate::state::MeetingReport,
)
    ensures
        update_due(None, meeting, displayed) == update_due(
            Some(crate::state::DictationReport::DaemonDown),
            meeting,
            displayed,
        ),
        update_due(dictation, None, displayed) == update_due(
            dictation,
            Some(crate::state::MeetingReport::Unknown),
            displayed,
        ),
        update_due(Some(known_dictation), Some(known_meeting), None) == Some(
            crate::state::combined(known_dictation, known_meeting),
        ),
{
}

/// An update is sent exactly when the merged reports differ from what the tray shows.
pub proof fn law_when_an_update_is_sent(
    dictation: crate::state::DictationReport,
    meeting: crate::state::MeetingReport,
    displayed: crate::state::ShownState,
)
    ensures
        update_due(Some(dictation), Some(meeting), Some(displayed)) is Some <==> displayed
            != crate::state::combined(dictation, meeting),
        update_due(Some(dictation), Some(meeting), Some(displayed)) matches Some(sent) ==> sent
            == crate::state::combined(dictation, meeting),
{
}

/// Every status line that is understood sets the report: a recording and a transcription are
/// reported as such, an error and a stop as a daemon that is down, and any other name as rest;
/// then the next line is read.
pub proof fn law_status_lines_set_the_report(status: VoxtypeStatusJson)
    ensures
        ({
            let event = WatcherEvent::Parsed { status: Some(status) };
            let alt = status.alt@;
            &&& report_after(event) == Some(crate::state::report_of(alt))
            &&& alt == "recording"@ ==> report_after(event) == Some(
                crate::state::DictationReport::Active { activity: "Enregistrement"@ },
            )
            &&& alt == "transcribing"@ ==> report_after(event) == Some(
                crate::state::DictationReport::Active { activity: "Transcription"@ },
            )
            &&& alt == "error"@ || alt == "stopped"@ ==> report_after(event) == Some(
                crate::state::DictationReport::DaemonDown,
            )
            &&& alt != "recording"@ && alt != "transcribing"@ && alt != "error"@ && alt
                != "stopped"@ ==> report_after(event) == Some(crate::state::DictationReport::Idle)
            &&& step_after(event) == WatcherStep::ReadLine
        }),
{
    crate::state::law_status_names(status.alt@);
}

/// A recording turns the tray green and an idle daemon grey, whatever it showed before: the report
/// that a status line sets is the one that is merged and sent.
pub proof fn law_status_lines_reach_the_tray(
    status: VoxtypeStatusJson,
    meeting: crate::state::MeetingReport,
    displayed: crate::state::ShownState,
)
    ensures
        ({
            let report = report_after(WatcherEvent::Parsed { status: Some(status) });
            let shown = match update_due(report, Some(meeting), Some(displayed)) {
                Some(sent) => sent,
                None => displayed,
            };
            &&& status.alt@ == "recording"@ ==> shown == (
            crate::state::ShownState::ActiveDictation { activity: "Enregistrement"@ })
            &&& status.alt@ == "transcribing"@ ==> shown == (
            crate::state::ShownState::ActiveDictation { activity: "Transcription"@ })
            &&& status.alt@ == "error"@ || status.alt@ == "stopped"@ ==> shown is Stopped
            &&& status.alt@ == "idle"@ && !(meeting is Active) ==> shown is Idle
        }),
{
    reveal_strlit("idle");
    reveal_strlit("recording");
    reveal_strlit("transcribing");
    reveal_strlit("error");
    reveal_strlit("stopped");
    assert("idle"@[0] == 'i');
    assert("recording"@[0] == 'r');
    assert("transcribing"@[0] == 't');
    assert("error"@[0] == 'e');
    assert("stopped"@[0] == 's');
    law_status_lines_set_the_report(status);
}

/// Only a status line that is understood and a daemon that is down make a report.
pub proof fn law_what_makes_a_report(event: WatcherEvent)
    ensures
        report_after(event) is Some <==> {
            ||| event == (WatcherEvent::ServiceChecked { active: false })
            ||| event == (WatcherEvent::ServiceRechecked { active: false })
            ||| event is SpawnFailed
            ||| event is NoStdout
            ||| event matches WatcherEvent::Parsed { status } && status is Some
        },
{
}

/// The round of the dictation task: an active service is followed, lines are read and those that
/// are not blank parsed, and when they end the process is reaped, the service asked again, and
/// after a pause the round begins anew. A service that is inactive or cannot be followed is only
/// waited for.
pub proof fn law_round_of_the_watcher(event: WatcherEvent)
    ensures
        step_after(event) == WatcherStep::SpawnFollow <==> event == (
        WatcherEvent::ServiceChecked { active: true }),
        step_after(event) == WatcherStep::ParseLine <==> (event matches WatcherEvent::LineRead {
            line,
        } && text::trimmed(line@).len() > 0),
        step_after(event) == WatcherStep::ReadLine <==> (event is Spawned || event is Parsed || (
        event matches WatcherEvent::LineRead { line } && text::trimmed(line@).len() == 0)),
        step_after(event) == WatcherStep::Reap <==> event is FollowEnded,
        step_after(event) == WatcherStep::RecheckService <==> event is Reaped,
        step_after(event) == WatcherStep::CheckService <==> event is Slept,
        step_after(event) == WatcherStep::Sleep <==> (event == (WatcherEvent::ServiceChecked {
            active: false,
        }) || event is SpawnFailed || event is NoStdout || event is ServiceRechecked),
{
}

/// A poll stores and pushes what changed: the report is what the poll gave, or an unknown state if
/// it could not be run; it is stored and pushed exactly when it differs from the old one, and
/// where the old one cannot be read it is pushed without being stored.
pub proof fn law_what_a_poll_does(
    polled: crate::state::MeetingReport,
    current: crate::state::MeetingReport,
)
    ensures
        polled != current ==> report_after_poll(Some(polled), Some(current)) == Some(polled)
            && push_after_poll(Some(polled), Some(current)),
        polled == current ==> report_after_poll(Some(polled), Some(current)) is None
            && !push_after_poll(Some(polled), Some(current)),
        !(current is Unknown) ==> report_after_poll(None, Some(current)) == Some(
            crate::state::MeetingReport::Unknown,
        ) && push_after_poll(None, Some(current)),
        report_after_poll(None, Some(crate::state::MeetingReport::Unknown)) is None,
        !push_after_poll(None, Some(crate::state::MeetingReport::Unknown)),
        report_after_poll(Some(polled), None) is None && push_after_poll(Some(polled), None),
        report_after_poll(None, None) is None && push_after_poll(None, None),
{
}

} // verus!
