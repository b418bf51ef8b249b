//! What the two status channels report, and the state that the tray shows.

use crate::text;
use vstd::prelude::*;

verus! {

/// The state that the tray shows.
#[derive(Debug)]
pub enum VoxtypeState {
    /// The service is inactive, or `voxtype status` cannot be reached.
    Stopped,
    /// The daemon runs: no meeting, no dictation.
    Idle,
    /// A dictation is being recorded or transcribed.
    ActiveDictation { activity: String },
    /// A meeting is under way.
    ActiveMeeting { meeting_status: String },
}

/// The contents of a [`VoxtypeState`].
pub enum ShownState {
    Stopped,
    Idle,
    ActiveDictation { activity: Seq<char> },
    ActiveMeeting { meeting_status: Seq<char> },
}

impl View for VoxtypeState {
    type V = ShownState;

    open spec fn view(&self) -> ShownState {
        match self {
            VoxtypeState::Stopped => ShownState::Stopped,
            VoxtypeState::Idle => ShownState::Idle,
            VoxtypeState::ActiveDictation { activity } => ShownState::ActiveDictation {
                activity: activity@,
            },
            VoxtypeState::ActiveMeeting { meeting_status } => ShownState::ActiveMeeting {
                meeting_status: meeting_status@,
            },
        }
    }
}

impl Clone for VoxtypeState {
    fn clone(&self) -> (result: Self)
        ensures
            result@ == self@,
    {
        match self {
            VoxtypeState::Stopped => VoxtypeState::Stopped,
            VoxtypeState::Idle => VoxtypeState::Idle,
            VoxtypeState::ActiveDictation { activity } => VoxtypeState::ActiveDictation {
                activity: activity.clone(),
            },
            VoxtypeState::ActiveMeeting { meeting_status } => VoxtypeState::ActiveMeeting {
                meeting_status: meeting_status.clone(),
            },
        }
    }
}

impl PartialEq for VoxtypeState {
    fn eq(&self, other: &Self) -> (result: bool) {
        match (self, other) {
            (VoxtypeState::Stopped, VoxtypeState::Stopped) => true,
            (VoxtypeState::Idle, VoxtypeState::Idle) => true,
            (
                VoxtypeState::ActiveDictation { activity: a },
                VoxtypeState::ActiveDictation { activity: b },
            ) => *a == *b,
            (
                VoxtypeState::ActiveMeeting { meeting_status: a },
                VoxtypeState::ActiveMeeting { meeting_status: b },
            ) => *a == *b,
            _ => false,
        }
    }
}

impl vstd::std_specs::cmp::PartialEqSpecImpl for VoxtypeState {
    open spec fn obeys_eq_spec() -> bool {
        true
    }

    open spec fn eq_spec(&self, other: &Self) -> bool {
        self@ == other@
    }
}

/// What the dictation channel, `voxtype status --follow`, last reported.
#[derive(Debug)]
pub enum DictationState {
    /// The daemon cannot be reached, or its process has ended.
    DaemonDown,
    /// The daemon is idle.
    Idle,
    /// The daemon records or transcribes.
    Active { activity: String },
}

/// The contents of a [`DictationState`].
pub enum DictationReport {
    DaemonDown,
    Idle,
    Active { activity: Seq<char> },
}

impl View for DictationState {
    type V = DictationReport;

    open spec fn view(&self) -> DictationReport {
        match self {
            DictationState::DaemonDown => DictationReport::DaemonDown,
            DictationState::Idle => DictationReport::Idle,
            DictationState::Active { activity } => DictationReport::Active { activity: activity@ },
        }
    }
}

impl Clone for DictationState {
    fn clone(&self) -> (result: Self)
        ensures
            result@ == self@,
    {
        match self {
            DictationState::DaemonDown => DictationState::DaemonDown,
            DictationState::Idle => DictationState::Idle,
            DictationState::Active { activity } => DictationState::Active {
                activity: activity.clone(),
            },
        }
    }
}

impl PartialEq for DictationState {
    fn eq(&self, other: &Self) -> (result: bool) {
        match (self, other) {
            (DictationState::DaemonDown, DictationState::DaemonDown) => true,
            (DictationState::Idle, DictationState::Idle) => true,
            (DictationState::Active { activity: a }, DictationState::Active { activity: b }) => *a
                == *b,
            _ => false,
        }
    }
}

impl vstd::std_specs::cmp::PartialEqSpecImpl for DictationState {
    open spec fn obeys_eq_spec() -> bool {
        true
    }

    open spec fn eq_spec(&self, other: &Self) -> bool {
        self@ == other@
    }
}

/// What the meeting channel, `voxtype meeting status`, last reported.
#[derive(Debug)]
pub enum MeetingState {
    /// No meeting is under way.
    NoMeeting,
    /// A meeting is recording, paused, or in any other named state.
    Active { status: String },
    /// The command failed or its output was not understood.
    Unknown,
}

/// The contents of a [`MeetingState`].
pub enum MeetingReport {
    NoMeeting,
    Active { status: Seq<char> },
    Unknown,
}

impl View for MeetingState {
    type V = MeetingReport;

    open spec fn view(&self) -> MeetingReport {
        match self {
            MeetingState::NoMeeting => MeetingReport::NoMeeting,
            MeetingState::Active { status } => MeetingReport::Active { status: status@ },
            MeetingState::Unknown => MeetingReport::Unknown,
        }
    }
}

impl Clone for MeetingState {
    fn clone(&self) -> (result: Self)
        ensures
            result@ == self@,
    {
        match self {
            MeetingState::NoMeeting => MeetingState::NoMeeting,
            MeetingState::Active { status } => MeetingState::Active { status: status.clone() },
            MeetingState::Unknown => MeetingState::Unknown,
        }
    }
}

impl PartialEq for MeetingState {
    fn eq(&self, other: &Self) -> (result: bool) {
        match (self, other) {
            (MeetingState::NoMeeting, MeetingState::NoMeeting) => true,
            (MeetingState::Unknown, MeetingState::Unknown) => true,
            (MeetingState::Active { status: a }, MeetingState::Active { status: b }) => *a == *b,
            _ => false,
        }
    }
}

impl vstd::std_specs::cmp::PartialEqSpecImpl for MeetingState {
    open spec fn obeys_eq_spec() -> bool {
        true
    }

    open spec fn eq_spec(&self, other: &Self) -> bool {
        self@ == other@
    }
}

/// The state to show for a pair of reports. A daemon that is down hides everything, a
/// dictation hides a meeting, and a meeting of unknown state counts as none.
pub open spec fn combined(dictation: DictationReport, meeting: MeetingReport) -> ShownState {
    match (dictation, meeting) {
        (DictationReport::DaemonDown, _) => ShownState::Stopped,
        (DictationReport::Active { activity }, _) => ShownState::ActiveDictation { activity },
        (DictationReport::Idle, MeetingReport::Active { status }) => ShownState::ActiveMeeting {
            meeting_status: status,
        },
        (DictationReport::Idle, _) => ShownState::Idle,
    }
}

/// Merges the reports of the two channels into the state to show.
pub fn combine_states(dictation: &DictationState, meeting: &MeetingState) -> (result: VoxtypeState)
    ensures
        result@ == combined(dictation@, meeting@),
{
    match dictation {
        DictationState::DaemonDown => VoxtypeState::Stopped,
        DictationState::Active { activity } => VoxtypeState::ActiveDictation {
            activity: activity.clone(),
        },
        DictationState::Idle => match meeting {
            MeetingState::Active { status } => VoxtypeState::ActiveMeeting {
                meeting_status: status.clone(),
            },
            MeetingState::NoMeeting | MeetingState::Unknown => VoxtypeState::Idle,
        },
    }
}

/// Red is the dictation channel's alone: the tray shows a stopped daemon exactly when
/// that channel reports it down, whatever the meeting channel reports.
pub proof fn law_only_dictation_turns_red(dictation: DictationReport, meeting: MeetingReport)
    ensures
        combined(dictation, meeting) is Stopped <==> dictation is DaemonDown,
{
}

/// Green is either channel's: while the daemon is up, the tray shows an activity exactly
/// when a dictation or a meeting is active.
pub proof fn law_either_channel_turns_green(dictation: DictationReport, meeting: MeetingReport)
    requires
        !(dictation is DaemonDown),
    ensures
        shows_activity(combined(dictation, meeting)) <==> dictation is Active || meeting is Active,
{
}

/// A dictation comes first: while one is active it is what the tray shows, whatever the
/// meeting channel reports.
pub proof fn law_dictation_comes_first(activity: Seq<char>, meeting: MeetingReport)
    ensures
        combined(DictationReport::Active { activity }, meeting) == (ShownState::ActiveDictation {
            activity,
        }),
{
}

/// A failed meeting poll shows what no meeting would show.
pub proof fn law_unknown_meeting_shows_as_none(dictation: DictationReport)
    ensures
        combined(dictation, MeetingReport::Unknown) == combined(dictation, MeetingReport::NoMeeting),
{
}

/// Whether a state is a dictation or a meeting.
pub open spec fn shows_activity(state: ShownState) -> bool {
    state is ActiveDictation || state is ActiveMeeting
}

/// The title of the tooltip for a state.
pub open spec fn tooltip_of(state: ShownState) -> Seq<char> {
    match state {
        ShownState::Stopped => "Daemon arrêté"@,
        ShownState::Idle => "Au repos (idle)"@,
        ShownState::ActiveDictation { activity } => "En cours : "@ + activity,
        ShownState::ActiveMeeting { meeting_status } => "Réunion en cours ("@ + meeting_status
            + ")"@,
    }
}

proof fn lemma_first_letter(state: ShownState)
    ensures
        tooltip_of(state).len() > 0,
        tooltip_of(state)[0] == (match state {
            ShownState::Stopped => 'D',
            ShownState::Idle => 'A',
            ShownState::ActiveDictation { .. } => 'E',
            ShownState::ActiveMeeting { .. } => 'R',
        }),
{
    reveal_strlit("Daemon arrêté");
    reveal_strlit("Au repos (idle)");
    reveal_strlit("En cours : ");
    reveal_strlit("Réunion en cours (");
}

/// The tooltip tells states apart: two states with the same tooltip are the same, so that a
/// meeting is never taken for a dictation.
pub proof fn law_tooltip_tells_states_apart(a: ShownState, b: ShownState)
    requires
        tooltip_of(a) == tooltip_of(b),
    ensures
        a == b,
{
    reveal_strlit(")");
    lemma_first_letter(a);
    lemma_first_letter(b);
    match (a, b) {
        (
            ShownState::ActiveDictation { activity: x },
            ShownState::ActiveDictation { activity: y },
        ) => {
            assert(tooltip_of(a).skip("En cours : "@.len() as int) == x);
            assert(tooltip_of(b).skip("En cours : "@.len() as int) == y);
        },
        (
            ShownState::ActiveMeeting { meeting_status: x },
            ShownState::ActiveMeeting { meeting_status: y },
        ) => {
            assert(tooltip_of(a).drop_last().skip("Réunion en cours ("@.len() as int) == x);
            assert(tooltip_of(b).drop_last().skip("Réunion en cours ("@.len() as int) == y);
        },
        _ => {},
    }
}

impl VoxtypeState {
    /// The title of the tooltip.
    pub fn tooltip_title(&self) -> (result: String)
        ensures
            result@ == tooltip_of(self@),
    {
        match self {
            VoxtypeState::Stopped => "Daemon arrêté".to_owned(),
            VoxtypeState::Idle => "Au repos (idle)".to_owned(),
            VoxtypeState::ActiveDictation { activity } => "En cours : ".to_owned().concat(
                activity.as_str(),
            ),
            VoxtypeState::ActiveMeeting { meeting_status } => "Réunion en cours (".to_owned().concat(
                meeting_status.as_str(),
            ).concat(")"),
        }
    }

    /// Whether a dictation or a meeting is under way.
    pub fn is_active(&self) -> (result: bool)
        ensures
            result == shows_activity(self@),
    {
        match self {
            VoxtypeState::Stopped | VoxtypeState::Idle => false,
            VoxtypeState::ActiveDictation { .. } | VoxtypeState::ActiveMeeting { .. } => true,
        }
    }
}

/// One line of `voxtype status --format json`.
#[derive(Debug)]
pub struct VoxtypeStatusJson {
    /// `idle`, `recording`, `transcribing`, `error`, `stopped`, or a later addition.
    pub alt: String,
    /// The tooltip that voxtype suggests; not shown.
    pub tooltip: Option<String>,
}

/// The report that a status name stands for. A name that is not known counts as idle.
pub open spec fn report_of(alt: Seq<char>) -> DictationReport {
    if alt == "recording"@ {
        DictationReport::Active { activity: "Enregistrement"@ }
    } else if alt == "transcribing"@ {
        DictationReport::Active { activity: "Transcription"@ }
    } else if alt == "error"@ || alt == "stopped"@ {
        DictationReport::DaemonDown
    } else {
        DictationReport::Idle
    }
}

impl VoxtypeStatusJson {
    /// The report that this line makes.
    pub fn to_dictation_state(&self) -> (result: DictationState)
        ensures
            result@ == report_of(self.alt@),
    {
        let alt = self.alt.as_str();
        if text::same_text(alt, "recording") {
            DictationState::Active { activity: "Enregistrement".to_owned() }
        } else if text::same_text(alt, "transcribing") {
            DictationState::Active { activity: "Transcription".to_owned() }
        } else if text::same_text(alt, "error") || text::same_text(alt, "stopped") {
            DictationState::DaemonDown
        } else {
            DictationState::Idle
        }
    }
}

/// What a shown state holds is what it says: the same kind, with the same text.
pub proof fn law_contents_of_a_shown_state(state: VoxtypeState)
    ensures
        match state {
            VoxtypeState::Stopped => state@ is Stopped,
            VoxtypeState::Idle => state@ is Idle,
            VoxtypeState::ActiveDictation { activity } => state@ == (ShownState::ActiveDictation {
                activity: activity@,
            }),
            VoxtypeState::ActiveMeeting { meeting_status } => state@ == (
            ShownState::ActiveMeeting { meeting_status: meeting_status@ }),
        },
{
}

/// What a report holds is what it says: the same kind, with the same text.
pub proof fn law_contents_of_reports(dictation: DictationState, meeting: MeetingState)
    ensures
        match dictation {
            DictationState::DaemonDown => dictation@ is DaemonDown,
            DictationState::Idle => dictation@ is Idle,
            DictationState::Active { activity } => dictation@ == (DictationReport::Active {
                activity: activity@,
            }),
        },
        match meeting {
            MeetingState::NoMeeting => meeting@ is NoMeeting,
            MeetingState::Unknown => meeting@ is Unknown,
            MeetingState::Active { status } => meeting@ == (MeetingReport::Active {
                status: status@,
            }),
        },
{
}

/// While the dictation channel is idle, a meeting is shown with its own status.
pub proof fn law_meeting_is_shown_with_its_status(status: Seq<char>)
    ensures
        combined(DictationReport::Idle, MeetingReport::Active { status }) == (
        ShownState::ActiveMeeting { meeting_status: status }),
{
}

/// The tray is idle exactly when the dictation channel is and no meeting is known of.
pub proof fn law_when_the_tray_is_idle(dictation: DictationReport, meeting: MeetingReport)
    ensures
        combined(dictation, meeting) is Idle <==> dictation is Idle && !(meeting is Active),
{
}

/// The tray follows what happens: while it is idle otherwise, two meetings, or two dictations,
/// are shown alike only if they are in the same state.
pub proof fn law_changes_are_shown(a: Seq<char>, b: Seq<char>, meeting: MeetingReport)
    ensures
        combined(DictationReport::Idle, MeetingReport::Active { status: a }) == combined(
            DictationReport::Idle,
            MeetingReport::Active { status: b },
        ) ==> a == b,
        combined(DictationReport::Active { activity: a }, meeting) == combined(
            DictationReport::Active { activity: b },
            meeting,
        ) ==> a == b,
{
}

/// The tooltip names what is shown: a stopped daemon, rest, the activity of a dictation, the
/// status of a meeting.
pub proof fn law_tooltip_names_the_state(text: Seq<char>)
    ensures
        tooltip_of(ShownState::Stopped) == "Daemon arrêté"@,
        tooltip_of(ShownState::Idle) == "Au repos (idle)"@,
        tooltip_of(ShownState::ActiveDictation { activity: text }) == "En cours : "@ + text,
        tooltip_of(ShownState::ActiveMeeting { meeting_status: text }) == "Réunion en cours ("@
            + text + ")"@,
{
}

/// A dictation and a meeting are activities, a stopped daemon and rest are not.
pub proof fn law_what_is_an_activity(state: ShownState)
    ensures
        shows_activity(state) <==> !(state is Stopped) && !(state is Idle),
{
}

/// What the names of voxtype stand for: `recording` and `transcribing` are activities, `error` and
/// `stopped` a daemon that is down, and every other name, known or not, is rest.
pub proof fn law_status_names(alt: Seq<char>)
    ensures
        alt == "recording"@ ==> report_of(alt) == (DictationReport::Active {
            activity: "Enregistrement"@,
        }),
        alt == "transcribing"@ ==> report_of(alt) == (DictationReport::Active {
            activity: "Transcription"@,
        }),
        report_of(alt) is Active <==> alt == "recording"@ || alt == "transcribing"@,
        report_of(alt) is DaemonDown <==> alt == "error"@ || alt == "stopped"@,
{
    reveal_strlit("recording");
    reveal_strlit("transcribing");
    reveal_strlit("error");
    reveal_strlit("stopped");
    assert("recording"@[0] != "transcribing"@[0]);
    assert("recording"@[0] != "error"@[0]);
    assert("recording"@[0] != "stopped"@[0]);
    assert("transcribing"@[0] != "error"@[0]);
    assert("transcribing"@[0] != "stopped"@[0]);
}

} // verus!
