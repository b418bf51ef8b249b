use voxtype_systray::icon::{
    icon_from_rgba, png_to_ksni_icon, rgba_to_argb, Icon, IconError, Icons,
};
use voxtype_systray::mode::{mode_of, Mode};
use voxtype_systray::state::VoxtypeState;
use voxtype_systray::tray::{meeting_title, MenuAction, MenuEntry, VoxtypeTray};

/// Two pixels, with transparency.
const RGBA_PNG: &[u8] = &[
    0x89, 0x50, 0x4e, 0x47, 0x0d, 0x0a, 0x1a, 0x0a, 0x00, 0x00, 0x00, 0x0d, 0x49, 0x48, 0x44, 0x52,
    0x00, 0x00, 0x00, 0x02, 0x00, 0x00, 0x00, 0x01, 0x08, 0x06, 0x00, 0x00, 0x00, 0xf4, 0x22, 0x7f,
    0x8a, 0x00, 0x00, 0x00, 0x11, 0x49, 0x44, 0x41, 0x54, 0x78, 0xda, 0x63, 0x60, 0x64, 0x62, 0x66,
    0xf9, 0xd5, 0xe0, 0xf0, 0x1f, 0x00, 0x07, 0x2c, 0x02, 0xc4, 0x5b, 0x83, 0x91, 0xd0, 0x00, 0x00,
    0x00, 0x00, 0x49, 0x45, 0x4e, 0x44, 0xae, 0x42, 0x60, 0x82,
];

/// One pixel, without transparency.
const RGB_PNG: &[u8] = &[
    0x89, 0x50, 0x4e, 0x47, 0x0d, 0x0a, 0x1a, 0x0a, 0x00, 0x00, 0x00, 0x0d, 0x49, 0x48, 0x44, 0x52,
    0x00, 0x00, 0x00, 0x01, 0x00, 0x00, 0x00, 0x01, 0x08, 0x02, 0x00, 0x00, 0x00, 0x90, 0x77, 0x53,
    0xde, 0x00, 0x00, 0x00, 0x0c, 0x49, 0x44, 0x41, 0x54, 0x78, 0xda, 0x63, 0xe0, 0x12, 0x91, 0x03,
    0x00, 0x00, 0x68, 0x00, 0x3d, 0x6a, 0xf5, 0x70, 0x5b, 0x00, 0x00, 0x00, 0x00, 0x49, 0x45, 0x4e,
    0x44, 0xae, 0x42, 0x60, 0x82,
];

fn icon(n: u8) -> Icon {
    Icon {
        width: 1,
        height: 1,
        data: vec![n, n, n, n],
    }
}

fn tray(state: VoxtypeState) -> VoxtypeTray {
    let mut tray = VoxtypeTray::new(Icons {
        stopped: icon(1),
        idle: icon(2),
        active: icon(3),
    });
    tray.state = state;
    tray
}

fn dictation() -> VoxtypeState {
    VoxtypeState::ActiveDictation {
        activity: "Transcription".to_string(),
    }
}

fn meeting() -> VoxtypeState {
    VoxtypeState::ActiveMeeting {
        meeting_status: "paused".to_string(),
    }
}

fn offered(state: VoxtypeState) -> Vec<MenuAction> {
    let mut actions = vec![];
    for entry in tray(state).menu() {
        if let MenuEntry::Item {
            enabled: true,
            action,
            ..
        } = entry
        {
            actions.push(action);
        }
    }
    actions
}

fn labels(state: VoxtypeState) -> Vec<String> {
    tray(state)
        .menu()
        .into_iter()
        .map(|entry| match entry {
            MenuEntry::Header { label } => label,
            MenuEntry::Item { label, .. } => label,
            MenuEntry::Separator => "-".to_string(),
        })
        .collect()
}

#[test]
fn png_files_become_icons() {
    assert_eq!(
        png_to_ksni_icon(RGBA_PNG),
        Ok(Icon {
            width: 2,
            height: 1,
            data: vec![4, 1, 2, 3, 255, 250, 128, 64],
        })
    );
    assert_eq!(
        png_to_ksni_icon(RGB_PNG),
        Ok(Icon {
            width: 1,
            height: 1,
            data: vec![255, 10, 20, 30],
        })
    );
}

#[test]
fn other_bytes_become_no_icon() {
    for (bytes, reason) in [
        (&b""[..], "unexpected end of file"),
        (&RGBA_PNG[..50], "unexpected end of file"),
        (b"GIF89a and more", "Format error decoding Png: "),
    ] {
        let error = png_to_ksni_icon(bytes).unwrap_err();
        let IconError::Undecodable { cause } = &error;
        assert!(cause.starts_with(reason), "{cause}");
        assert_eq!(
            error.message(),
            format!("Failed to decode embedded PNG icon: {cause}")
        );
    }
}

#[test]
fn the_first_bad_icon_is_blamed() {
    let cause = |bytes: &[u8]| png_to_ksni_icon(bytes).unwrap_err();
    let (short, other) = (&RGBA_PNG[..50], &b"GIF89a and more"[..]);
    assert_ne!(cause(short), cause(other));
    assert_eq!(Icons::load(RGB_PNG, short, other).unwrap_err(), cause(short));
    assert_eq!(Icons::load(other, short, RGB_PNG).unwrap_err(), cause(other));
}

#[test]
fn pixels_are_turned_one_by_one() {
    assert_eq!(
        rgba_to_argb(vec![1, 2, 3, 4, 5, 6, 7, 8, 9, 10]),
        vec![4, 1, 2, 3, 8, 5, 6, 7, 9, 10]
    );
    assert_eq!(rgba_to_argb(vec![]), Vec::<u8>::new());
    assert_eq!(
        icon_from_rgba(7, 9, vec![1, 2, 3, 4]),
        Icon {
            width: 7,
            height: 9,
            data: vec![4, 1, 2, 3],
        }
    );
}

#[test]
fn all_three_icons_are_needed() {
    let icons = Icons::load(RGBA_PNG, RGB_PNG, RGBA_PNG).unwrap();
    assert_eq!(icons.stopped.width, 2);
    assert_eq!(icons.idle.width, 1);
    assert_eq!(icons.active.width, 2);
    assert!(Icons::load(b"", RGB_PNG, RGB_PNG).is_err());
    assert!(Icons::load(RGB_PNG, b"", RGB_PNG).is_err());
    assert!(Icons::load(RGB_PNG, RGB_PNG, b"").is_err());
}

#[test]
fn colours() {
    assert_eq!(tray(VoxtypeState::Stopped).icon_pixmap(), vec![icon(1)]);
    assert_eq!(tray(VoxtypeState::Idle).icon_pixmap(), vec![icon(2)]);
    assert_eq!(tray(dictation()).icon_pixmap(), vec![icon(3)]);
    assert_eq!(tray(meeting()).icon_pixmap(), vec![icon(3)]);
}

#[test]
fn names_and_tooltip() {
    let tray = tray(meeting());
    assert_eq!(tray.id(), "voxtype-systray");
    assert_eq!(tray.title(), "Voxtype");
    let tip = tray.tool_tip();
    assert_eq!(tip.title, "Réunion en cours (paused)");
    assert_eq!((tip.description.as_str(), tip.icon_name.as_str()), ("", ""));
    assert!(tip.icon_pixmap.is_empty());
}

#[test]
fn the_tray_starts_red() {
    let tray = VoxtypeTray::new(Icons {
        stopped: icon(1),
        idle: icon(2),
        active: icon(3),
    });
    assert_eq!(tray.state, VoxtypeState::Stopped);
}

#[test]
fn menu_of_a_stopped_daemon() {
    assert_eq!(
        labels(VoxtypeState::Stopped),
        [
            "✕ Daemon arrêté",
            "-",
            "▶ Démarrer une réunion",
            "🎙 Démarrer la dictée",
            "-",
            "⏼ Démarrer Voxtype",
            "-",
            "Réglages…",
            "-",
            "Quitter",
        ]
    );
    assert_eq!(
        offered(VoxtypeState::Stopped),
        [MenuAction::StartDaemon, MenuAction::OpenSettings, MenuAction::Quit]
    );
}

#[test]
fn menus_of_a_running_daemon() {
    assert_eq!(labels(VoxtypeState::Idle)[0], "○ Au repos");
    assert_eq!(
        offered(VoxtypeState::Idle),
        [
            MenuAction::StartMeeting,
            MenuAction::StartDictation,
            MenuAction::RestartDaemon,
            MenuAction::OpenSettings,
            MenuAction::Quit
        ]
    );
    let during = labels(meeting());
    assert_eq!(during[0], "● Réunion en cours");
    assert_eq!(during[2], "■ Arrêter la réunion");
    assert_eq!(during[5], "↻ Redémarrer Voxtype");
    assert_eq!(
        offered(meeting())[..2],
        [MenuAction::StopMeeting, MenuAction::StartDictation]
    );
    let during = labels(dictation());
    assert_eq!(during[0], "● Dictée en cours");
    assert_eq!(during[3], "■ Arrêter la dictée");
    assert_eq!(
        offered(dictation())[..2],
        [MenuAction::StartMeeting, MenuAction::StopDictation]
    );
}

#[test]
fn commands() {
    let run = |action: MenuAction| action.command("T").map(|words| words.join(" "));
    assert_eq!(
        run(MenuAction::StartMeeting).unwrap(),
        "voxtype meeting start --title T"
    );
    assert_eq!(run(MenuAction::StopMeeting).unwrap(), "voxtype meeting stop");
    assert_eq!(run(MenuAction::StartDictation).unwrap(), "voxtype record start");
    assert_eq!(run(MenuAction::StopDictation).unwrap(), "voxtype record stop");
    assert_eq!(
        run(MenuAction::StartDaemon).unwrap(),
        "systemctl --user start voxtype"
    );
    assert_eq!(
        run(MenuAction::RestartDaemon).unwrap(),
        "systemctl --user restart voxtype"
    );
    assert_eq!(run(MenuAction::OpenSettings), None);
    assert_eq!(run(MenuAction::Quit), None);
}

#[test]
fn titles_of_meetings() {
    assert_eq!(meeting_title(7, 11, 2026, 9, 5), "Réunion du 07/11/26 à 09:05");
    assert_eq!(meeting_title(31, 1, 1999, 23, 59), "Réunion du 31/01/99 à 23:59");
}

#[test]
fn modes() {
    let mode = |args: &[&str]| {
        let args: Vec<String> = args.iter().map(|a| a.to_string()).collect();
        mode_of(&args)
    };
    assert_eq!(mode(&[]), Mode::Tray);
    assert_eq!(mode(&["voxtype-systray"]), Mode::Tray);
    assert_eq!(mode(&["voxtype-systray", ""]), Mode::Tray);
    assert_eq!(mode(&["voxtype-systray", "settings", "x"]), Mode::Settings);
    assert_eq!(
        mode(&["voxtype-systray", "Settings"]),
        Mode::Unknown {
            name: "Settings".to_string()
        }
    );
}
