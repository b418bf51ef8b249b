//! What the tray shows: icon, tooltip and menu, and what the menu entries do.

use crate::icon::{Icon, Icons};
use crate::state::VoxtypeState;
use vstd::prelude::*;

verus! {

/// What a menu entry does.
#[derive(Clone, Copy, Debug, PartialEq, Eq, Structural)]
pub enum MenuAction {
    StartMeeting,
    StopMeeting,
    StartDictation,
    StopDictation,
    StartDaemon,
    RestartDaemon,
    OpenSettings,
    Quit,
}

/// An entry of the menu.
#[derive(Debug, PartialEq)]
pub enum MenuEntry {
    /// A line that cannot be clicked.
    Header { label: String },
    /// A line that can be clicked if it is enabled.
    Item { label: String, enabled: bool, action: MenuAction },
    /// A rule between two groups.
    Separator,
}

/// The contents of a [`MenuEntry`].
pub enum MenuLine {
    Header { label: Seq<char> },
    Item { label: Seq<char>, enabled: bool, action: MenuAction },
    Separator,
}

impl View for MenuEntry {
    type V = MenuLine;

    open spec fn view(&self) -> MenuLine {
        match self {
            MenuEntry::Header { label } => MenuLine::Header { label: label@ },
            MenuEntry::Item { label, enabled, action } => MenuLine::Item {
                label: label@,
                enabled: *enabled,
                action: *action,
            },
            MenuEntry::Separator => MenuLine::Separator,
        }
    }
}

/// The contents of menu entries.
pub open spec fn lines(entries: Seq<MenuEntry>) -> Seq<MenuLine> {
    Seq::new(entries.len(), |i: int| entries[i]@)
}

/// The header of the menu.
pub open spec fn header_line(state: crate::state::ShownState) -> MenuLine {
    MenuLine::Header {
        label: match state {
            crate::state::ShownState::Stopped => "✕ Daemon arrêté"@,
            crate::state::ShownState::Idle => "○ Au repos"@,
            crate::state::ShownState::ActiveMeeting { .. } => "● Réunion en cours"@,
            crate::state::ShownState::ActiveDictation { .. } => "● Dictée en cours"@,
        },
    }
}

/// The entry that starts or stops a meeting.
pub open spec fn meeting_line(state: crate::state::ShownState) -> MenuLine {
    if state is ActiveMeeting {
        MenuLine::Item {
            label: "■ Arrêter la réunion"@,
            enabled: true,
            action: MenuAction::StopMeeting,
        }
    } else {
        MenuLine::Item {
            label: "▶ Démarrer une réunion"@,
            enabled: !(state is Stopped),
            action: MenuAction::StartMeeting,
        }
    }
}

/// The entry that starts or stops a dictation.
pub open spec fn dictation_line(state: crate::state::ShownState) -> MenuLine {
    if state is ActiveDictation {
        MenuLine::Item {
            label: "■ Arrêter la dictée"@,
            enabled: true,
            action: MenuAction::StopDictation,
        }
    } else {
        MenuLine::Item {
            label: "🎙 Démarrer la dictée"@,
            enabled: !(state is Stopped),
            action: MenuAction::StartDictation,
        }
    }
}

/// The entry that starts or restarts the daemon.
pub open spec fn daemon_line(state: crate::state::ShownState) -> MenuLine {
    if state is Stopped {
        MenuLine::Item {
            label: "⏼ Démarrer Voxtype"@,
            enabled: true,
            action: MenuAction::StartDaemon,
        }
    } else {
        MenuLine::Item {
            label: "↻ Redémarrer Voxtype"@,
            enabled: true,
            action: MenuAction::RestartDaemon,
        }
    }
}

/// The entry that opens the settings.
pub open spec fn settings_line() -> MenuLine {
    MenuLine::Item { label: "Réglages…"@, enabled: true, action: MenuAction::OpenSettings }
}

/// The entry that ends the program.
pub open spec fn quit_line() -> MenuLine {
    MenuLine::Item { label: "Quitter"@, enabled: true, action: MenuAction::Quit }
}

/// The menu for a state.
pub open spec fn menu_of(state: crate::state::ShownState) -> Seq<MenuLine> {
    seq![
        header_line(state),
        MenuLine::Separator,
        meeting_line(state),
        dictation_line(state),
        MenuLine::Separator,
        daemon_line(state),
        MenuLine::Separator,
        settings_line(),
        MenuLine::Separator,
        quit_line(),
    ]
}

fn item(label: &str, enabled: bool, action: MenuAction) -> (result: MenuEntry)
    ensures
        result@ == (MenuLine::Item { label: label@, enabled, action }),
{
    MenuEntry::Item { label: label.to_owned(), enabled, action }
}

fn header_entry(state: &VoxtypeState) -> (result: MenuEntry)
    ensures
        result@ == header_line(state@),
{
    let label = match state {
        VoxtypeState::Stopped => "✕ Daemon arrêté",
        VoxtypeState::Idle => "○ Au repos",
        VoxtypeState::ActiveMeeting { .. } => "● Réunion en cours",
        VoxtypeState::ActiveDictation { .. } => "● Dictée en cours",
    };
    MenuEntry::Header { label: label.to_owned() }
}

fn is_stopped(state: &VoxtypeState) -> (result: bool)
    ensures
        result == (state@ is Stopped),
{
    match state {
        VoxtypeState::Stopped => true,
        _ => false,
    }
}

fn meeting_entry(state: &VoxtypeState) -> (result: MenuEntry)
    ensures
        result@ == meeting_line(state@),
{
    match state {
        VoxtypeState::ActiveMeeting { .. } => item(
            "■ Arrêter la réunion",
            true,
            MenuAction::StopMeeting,
        ),
        _ => item("▶ Démarrer une réunion", !is_stopped(state), MenuAction::StartMeeting),
    }
}

fn dictation_entry(state: &VoxtypeState) -> (result: MenuEntry)
    ensures
        result@ == dictation_line(state@),
{
    match state {
        VoxtypeState::ActiveDictation { .. } => item(
            "■ Arrêter la dictée",
            true,
            MenuAction::StopDictation,
        ),
        _ => item("🎙 Démarrer la dictée", !is_stopped(state), MenuAction::StartDictation),
    }
}

fn daemon_entry(state: &VoxtypeState) -> (result: MenuEntry)
    ensures
        result@ == daemon_line(state@),
{
    if is_stopped(state) {
        item("⏼ Démarrer Voxtype", true, MenuAction::StartDaemon)
    } else {
        item("↻ Redémarrer Voxtype", true, MenuAction::RestartDaemon)
    }
}

/// The tooltip of the tray.
#[derive(Debug)]
pub struct ToolTip {
    pub title: String,
    pub description: String,
    pub icon_name: String,
    pub icon_pixmap: Vec<Icon>,
}

/// The tray: the state that it shows, and its icons.
#[derive(Debug)]
pub struct VoxtypeTray {
    pub state: VoxtypeState,
    pub icons: Icons,
}

/// The icon for a state: red, grey or green.
pub open spec fn icon_for(state: crate::state::ShownState, icons: Icons) -> Icon {
    match state {
        crate::state::ShownState::Stopped => icons.stopped,
        crate::state::ShownState::Idle => icons.idle,
        _ => icons.active,
    }
}

impl VoxtypeTray {
    /// A tray that has heard nothing yet: it shows a stopped daemon.
    pub fn new(icons: Icons) -> (result: Self)
        ensures
            result.state@ is Stopped,
            result.icons == icons,
    {
        VoxtypeTray { state: VoxtypeState::Stopped, icons }
    }

    /// The identifier of the tray.
    pub fn id(&self) -> (result: String)
        ensures
            result@ == "voxtype-systray"@,
    {
        "voxtype-systray".to_owned()
    }

    /// The title of the tray.
    pub fn title(&self) -> (result: String)
        ensures
            result@ == "Voxtype"@,
    {
        "Voxtype".to_owned()
    }

    /// The icon to show, in the only size there is.
    pub fn icon_pixmap(&self) -> (result: Vec<Icon>)
        ensures
            result@.len() == 1,
            result@[0]@ == icon_for(self.state@, self.icons)@,
    {
        let icon = match &self.state {
            VoxtypeState::Stopped => &self.icons.stopped,
            VoxtypeState::Idle => &self.icons.idle,
            VoxtypeState::ActiveDictation { .. } | VoxtypeState::ActiveMeeting { .. } => {
                &self.icons.active
            },
        };
        let mut result: Vec<Icon> = Vec::new();
        result.push(icon.clone());
        result
    }

    /// The tooltip to show: a title and nothing else.
    pub fn tool_tip(&self) -> (result: ToolTip)
        ensures
            result.title@ == crate::state::tooltip_of(self.state@),
            result.description@.len() == 0,
            result.icon_name@.len() == 0,
            result.icon_pixmap@.len() == 0,
    {
        ToolTip {
            title: self.state.tooltip_title(),
            description: String::new(),
            icon_name: String::new(),
            icon_pixmap: Vec::new(),
        }
    }

    /// The menu to show.
    pub fn menu(&self) -> (result: Vec<MenuEntry>)
        ensures
            lines(result@) == menu_of(self.state@),
    {
        let mut result: Vec<MenuEntry> = Vec::new();
        result.push(header_entry(&self.state));
        result.push(MenuEntry::Separator);
        result.push(meeting_entry(&self.state));
        result.push(dictation_entry(&self.state));
        result.push(MenuEntry::Separator);
        result.push(daemon_entry(&self.state));
        result.push(MenuEntry::Separator);
        result.push(item("Réglages…", true, MenuAction::OpenSettings));
        result.push(MenuEntry::Separator);
        result.push(item("Quitter", true, MenuAction::Quit));
        assert(lines(result@) =~= menu_of(self.state@));
        result
    }
}

/// Whether a menu offers an action that can be clicked.
pub open spec fn offers(menu: Seq<MenuLine>, action: MenuAction) -> bool {
    exists|i: int|
        0 <= i < menu.len() && (#[trigger] menu[i] matches MenuLine::Item {
            enabled,
            action: offered,
            ..
        } && enabled && offered == action)
}

/// The menu offers what makes sense: a meeting or a dictation can be started or stopped only
/// while the daemon runs, each is stopped exactly while it is shown and started exactly
/// otherwise, the daemon is started exactly while it is stopped and restarted otherwise, and
/// the settings and the end of the program are always at hand.
pub proof fn law_what_the_menu_offers(state: crate::state::ShownState)
    ensures
        offers(menu_of(state), MenuAction::StopMeeting) <==> state is ActiveMeeting,
        offers(menu_of(state), MenuAction::StartMeeting) <==> state is Idle
            || state is ActiveDictation,
        offers(menu_of(state), MenuAction::StopDictation) <==> state is ActiveDictation,
        offers(menu_of(state), MenuAction::StartDictation) <==> state is Idle
            || state is ActiveMeeting,
        offers(menu_of(state), MenuAction::StartDaemon) <==> state is Stopped,
        offers(menu_of(state), MenuAction::RestartDaemon) <==> !(state is Stopped),
        offers(menu_of(state), MenuAction::OpenSettings),
        offers(menu_of(state), MenuAction::Quit),
{
    let menu = menu_of(state);
    assert(menu[2] == meeting_line(state));
    assert(menu[3] == dictation_line(state));
    assert(menu[5] == daemon_line(state));
    assert(menu[7] == settings_line());
    assert(menu[9] == quit_line());
}

/// The colour says what the tooltip says: red for a stopped daemon, green exactly for a
/// dictation or a meeting, grey otherwise.
pub proof fn law_colour_of_the_icon(state: crate::state::ShownState, icons: Icons)
    ensures
        state is Stopped ==> icon_for(state, icons) == icons.stopped,
        crate::state::shows_activity(state) ==> icon_for(state, icons) == icons.active,
        !(state is Stopped) && !crate::state::shows_activity(state) ==> icon_for(state, icons)
            == icons.idle,
{
}

/// The program and the arguments that an action runs.
pub open spec fn command_of(action: MenuAction, title: Seq<char>) -> Option<Seq<Seq<char>>> {
    match action {
        MenuAction::StartMeeting => Some(
            seq!["voxtype"@, "meeting"@, "start"@, "--title"@, title],
        ),
        MenuAction::StopMeeting => Some(seq!["voxtype"@, "meeting"@, "stop"@]),
        MenuAction::StartDictation => Some(seq!["voxtype"@, "record"@, "start"@]),
        MenuAction::StopDictation => Some(seq!["voxtype"@, "record"@, "stop"@]),
        MenuAction::StartDaemon => Some(seq!["systemctl"@, "--user"@, "start"@, "voxtype"@]),
        MenuAction::RestartDaemon => Some(seq!["systemctl"@, "--user"@, "restart"@, "voxtype"@]),
        MenuAction::OpenSettings => None,
        MenuAction::Quit => None,
    }
}

fn words(list: &[&str]) -> (result: Vec<String>)
    ensures
        crate::text::texts(result@) == Seq::new(list@.len(), |i: int| list@[i]@),
{
    let mut result: Vec<String> = Vec::new();
    let mut i: usize = 0;
    while i < list.len()
        invariant
            i <= list@.len(),
            result@.len() == i,
            forall|j: int| 0 <= j < i ==> (#[trigger] result@[j])@ == list@[j]@,
        decreases list@.len() - i,
    {
        result.push(list[i].to_owned());
        i = i + 1;
    }
    assert(crate::text::texts(result@) =~= Seq::new(list@.len(), |j: int| list@[j]@));
    result
}

impl MenuAction {
    /// The program and the arguments that the action runs, with the title for a meeting that
    /// it starts; nothing for an action of the tray itself.
    pub fn command(&self, title: &str) -> (result: Option<Vec<String>>)
        ensures
            match result {
                Some(command) => command_of(*self, title@) == Some(
                    crate::text::texts(command@),
                ),
                None => command_of(*self, title@) is None,
            },
    {
        let command = match self {
            MenuAction::StartMeeting => words(&["voxtype", "meeting", "start", "--title", title]),
            MenuAction::StopMeeting => words(&["voxtype", "meeting", "stop"]),
            MenuAction::StartDictation => words(&["voxtype", "record", "start"]),
            MenuAction::StopDictation => words(&["voxtype", "record", "stop"]),
            MenuAction::StartDaemon => words(&["systemctl", "--user", "start", "voxtype"]),
            MenuAction::RestartDaemon => words(&["systemctl", "--user", "restart", "voxtype"]),
            MenuAction::OpenSettings | MenuAction::Quit => return None,
        };
        assert(command_of(*self, title@)->Some_0 =~= crate::text::texts(command@));
        Some(command)
    }
}

/// A decimal digit.
pub open spec fn digit(n: int) -> Seq<char> {
    "0123456789"@.subrange(n, n + 1)
}

/// The last two decimal digits of a number.
pub open spec fn two_digits(n: int) -> Seq<char> {
    digit(n / 10 % 10) + digit(n % 10)
}

fn format_two_digits(n: u32) -> (result: String)
    ensures
        result@ == two_digits(n as int),
{
    proof {
        reveal_strlit("0123456789");
    }
    let digits = "0123456789";
    let tens: usize = (n / 10 % 10) as usize;
    let ones: usize = (n % 10) as usize;
    digits.substring_char(tens, tens + 1).to_owned().concat(
        digits.substring_char(ones, ones + 1),
    )
}

/// The title of a meeting that is started at a given time.
pub open spec fn title_at(day: int, month: int, year: int, hour: int, minute: int) -> Seq<char> {
    "Réunion du "@ + two_digits(day) + "/"@ + two_digits(month) + "/"@ + two_digits(year) + " à "@
        + two_digits(hour) + ":"@ + two_digits(minute)
}

/// The title of a meeting that is started at a given local time.
pub fn meeting_title(day: u32, month: u32, year: u32, hour: u32, minute: u32) -> (result: String)
    ensures
        result@ == title_at(day as int, month as int, year as int, hour as int, minute as int),
{
    "Réunion du ".to_owned().concat(format_two_digits(day).as_str()).concat("/").concat(
        format_two_digits(month).as_str(),
    ).concat("/").concat(format_two_digits(year).as_str()).concat(" à ").concat(
        format_two_digits(hour).as_str(),
    ).concat(":").concat(format_two_digits(minute).as_str())
}

/// What a menu entry holds is what it says.
pub proof fn law_contents_of_a_menu_entry(entry: MenuEntry)
    ensures
        match entry {
            MenuEntry::Header { label } => entry@ == (MenuLine::Header { label: label@ }),
            MenuEntry::Item { label, enabled, action } => entry@ == (MenuLine::Item {
                label: label@,
                enabled,
                action,
            }),
            MenuEntry::Separator => entry@ is Separator,
        },
{
}

/// The contents of menu entries are theirs, one by one.
pub proof fn law_menu_entries_one_by_one(entries: Seq<MenuEntry>, at: int)
    requires
        0 <= at < entries.len(),
    ensures
        lines(entries).len() == entries.len(),
        lines(entries)[at] == entries[at]@,
{
}

/// A label says what its action does: in every state, each action goes by one label.
pub proof fn law_labels_say_what_is_done(state: crate::state::ShownState, at: int)
    requires
        0 <= at < menu_of(state).len(),
    ensures
        menu_of(state)[at] matches MenuLine::Item { label, action, .. } ==> {
            &&& action == MenuAction::StartMeeting ==> label == "▶ Démarrer une réunion"@
            &&& action == MenuAction::StopMeeting ==> label == "■ Arrêter la réunion"@
            &&& action == MenuAction::StartDictation ==> label == "🎙 Démarrer la dictée"@
            &&& action == MenuAction::StopDictation ==> label == "■ Arrêter la dictée"@
            &&& action == MenuAction::StartDaemon ==> label == "⏼ Démarrer Voxtype"@
            &&& action == MenuAction::RestartDaemon ==> label == "↻ Redémarrer Voxtype"@
            &&& action == MenuAction::OpenSettings ==> label == "Réglages…"@
            &&& action == MenuAction::Quit ==> label == "Quitter"@
        },
{
}

/// The menu begins with a line that names the state and cannot be clicked, and has no other such
/// line.
pub proof fn law_the_menu_names_the_state(state: crate::state::ShownState, at: int)
    ensures
        menu_of(state).len() > 0,
        menu_of(state)[0] matches MenuLine::Header { label } && {
            &&& state is Stopped ==> label == "✕ Daemon arrêté"@
            &&& state is Idle ==> label == "○ Au repos"@
            &&& state is ActiveMeeting ==> label == "● Réunion en cours"@
            &&& state is ActiveDictation ==> label == "● Dictée en cours"@
        },
        0 < at < menu_of(state).len() ==> !(menu_of(state)[at] is Header),
{
}

/// The menu has five groups with a rule between them: the state; the meeting and the dictation; the
/// daemon; the settings; the end of the program. Only the meeting and the dictation are ever
/// greyed, both exactly while the daemon is stopped.
pub proof fn law_groups_of_the_menu(state: crate::state::ShownState)
    ensures
        ({
            let menu = menu_of(state);
            &&& menu.len() == 10
            &&& menu[1] is Separator && menu[4] is Separator && menu[6] is Separator
                && menu[8] is Separator
            &&& menu[2] matches MenuLine::Item { enabled, action, .. } && enabled == !(
            state is Stopped) && (action == MenuAction::StartMeeting || action
                == MenuAction::StopMeeting)
            &&& menu[3] matches MenuLine::Item { enabled, action, .. } && enabled == !(
            state is Stopped) && (action == MenuAction::StartDictation || action
                == MenuAction::StopDictation)
            &&& menu[5] matches MenuLine::Item { enabled, action, .. } && enabled && (action
                == MenuAction::StartDaemon || action == MenuAction::RestartDaemon)
            &&& menu[7] matches MenuLine::Item { enabled, action, .. } && enabled && action
                == MenuAction::OpenSettings
            &&& menu[9] matches MenuLine::Item { enabled, action, .. } && enabled && action
                == MenuAction::Quit
            &&& state is Stopped ==> menu[2]->action == MenuAction::StartMeeting && menu[3]->action
                == MenuAction::StartDictation
        }),
{
}

/// What the entries of the menu run: voxtype for a meeting, with the title that was given, and for
/// a dictation, systemctl for the daemon, and nothing for what the tray does itself.
pub proof fn law_what_the_menu_runs(title: Seq<char>)
    ensures
        command_of(MenuAction::StartMeeting, title) == Some(
            seq!["voxtype"@, "meeting"@, "start"@, "--title"@, title],
        ),
        command_of(MenuAction::StopMeeting, title) == Some(seq!["voxtype"@, "meeting"@, "stop"@]),
        command_of(MenuAction::StartDictation, title) == Some(
            seq!["voxtype"@, "record"@, "start"@],
        ),
        command_of(MenuAction::StopDictation, title) == Some(seq!["voxtype"@, "record"@, "stop"@]),
        command_of(MenuAction::StartDaemon, title) == Some(
            seq!["systemctl"@, "--user"@, "start"@, "voxtype"@],
        ),
        command_of(MenuAction::RestartDaemon, title) == Some(
            seq!["systemctl"@, "--user"@, "restart"@, "voxtype"@],
        ),
        command_of(MenuAction::OpenSettings, title) is None,
        command_of(MenuAction::Quit, title) is None,
{
}

/// Two digits say a number below a hundred, tens first, and of a larger one its last two.
pub proof fn law_two_digits_say_the_number(n: int)
    requires
        0 <= n,
    ensures
        two_digits(n).len() == 2,
        '0' <= two_digits(n)[0] <= '9',
        '0' <= two_digits(n)[1] <= '9',
        10 * (two_digits(n)[0] as int - '0' as int) + (two_digits(n)[1] as int - '0' as int) == n
            % 100,
{
    reveal_strlit("0123456789");
    let tens = n / 10 % 10;
    let ones = n % 10;
    assert(forall|d: int| 0 <= d < 10 ==> (#[trigger] "0123456789"@[d]) as int == '0' as int + d);
    assert("0123456789"@.subrange(tens, tens + 1)[0] == "0123456789"@[tens]);
    assert("0123456789"@.subrange(ones, ones + 1)[0] == "0123456789"@[ones]);
    assert(two_digits(n)[0] == "0123456789"@[tens]);
    assert(two_digits(n)[1] == "0123456789"@[ones]);
    assert(10 * tens + ones == n % 100) by (nonlinear_arith)
        requires
            tens == n / 10 % 10,
            ones == n % 10,
            0 <= n,
    ;
}

/// The title of a meeting says when it was started: day, month and year, then hour and minute, two
/// digits each.
pub proof fn law_titles_say_the_time(day: int, month: int, year: int, hour: int, minute: int)
    ensures
        title_at(day, month, year, hour, minute) == "Réunion du "@ + two_digits(day) + "/"@
            + two_digits(month) + "/"@ + two_digits(year) + " à "@ + two_digits(hour) + ":"@
            + two_digits(minute),
{
}

} // verus!
