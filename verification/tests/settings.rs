use std::collections::HashMap;
use std::path::PathBuf;
use std::str::FromStr;
use toml_edit::DocumentMut;
use voxtype_systray::config::{
    config_from, read_config, try_read_config, try_update_config, update_config,
    validate_storage_path, CurrentConfig,
};
use voxtype_systray::paths::{
    backup_path, config_path, expand_tilde, home_dir, join, temporary_path,
};
use voxtype_systray::save::{save_config, step_after_update, SaveConfig, SaveRequest, SaveStep};
use voxtype_systray::settings::{
    after_restart, restart_voxtype, FolderProbe, RestartOutcome, SaveResult, SettingsApp,
};

const EMPTY: &str = "Le dossier de stockage ne peut pas être vide.";

fn error_of(result: Result<SaveConfig, String>) -> String {
    match result {
        Ok(_) => panic!("the save began"),
        Err(message) => message,
    }
}

fn begin(storage_path: &str) -> SaveConfig {
    save_config(storage_path, true, Some("/cfg"), Some("/home/testuser")).unwrap()
}

fn done(save: &SaveConfig) -> Result<String, String> {
    match save.request() {
        SaveRequest::Finish { result } => result,
        other => panic!("not finished: {other:?}"),
    }
}

fn ok() -> Result<String, String> {
    Ok(String::new())
}

fn err(message: &str) -> Result<String, String> {
    Err(message.to_string())
}

#[test]
fn test_validate_empty_path() {
    assert!(validate_storage_path("").is_err());
    assert!(validate_storage_path("   ").is_err());
}

#[test]
fn test_validate_valid_path() {
    assert!(validate_storage_path("~/.local/share/voxtype/meetings/").is_ok());
    assert!(validate_storage_path("/tmp/test").is_ok());
}

#[test]
fn blank_folders_are_refused_with_a_message() {
    assert_eq!(validate_storage_path("\t\u{3000}\n"), Err(EMPTY.to_string()));
    assert_eq!(validate_storage_path(" . "), Ok(()));
}

#[test]
fn test_expand_tilde_home() {
    assert_eq!(
        PathBuf::from(expand_tilde("~/foo/bar", Some("/home/testuser"))),
        PathBuf::from("/home/testuser/foo/bar")
    );
}

#[test]
fn test_expand_tilde_only() {
    assert_eq!(
        PathBuf::from(expand_tilde("~", Some("/home/testuser"))),
        PathBuf::from("/home/testuser")
    );
}

#[test]
fn test_expand_tilde_absolute() {
    assert_eq!(
        PathBuf::from(expand_tilde("/absolute/path", Some("/home/testuser"))),
        PathBuf::from("/absolute/path")
    );
}

#[test]
fn other_tildes_stay() {
    assert_eq!(expand_tilde("~user/x", Some("/h")), "~user/x");
    assert_eq!(expand_tilde("a/~/x", Some("/h")), "a/~/x");
    assert_eq!(expand_tilde("", Some("/h")), "");
    assert_eq!(expand_tilde("~//etc", Some("/h")), "/etc");
    assert_eq!(expand_tilde("~/x", None), "/tmp/x");
    assert_eq!(home_dir(None), "/tmp");
}

#[test]
fn joining_is_what_the_standard_library_does() {
    for base in ["", "/", "a", "a/", "/a/b", "/a//", "é"] {
        for path in ["", "b", "/b", "b/", ".config", "../c", "ü"] {
            let expected = PathBuf::from(base).join(path);
            assert_eq!(join(base, path), expected.to_str().unwrap());
        }
    }
}

#[test]
fn test_config_path_uses_xdg() {
    let path = config_path(Some("/custom/config"), Some("/home/testuser"));
    assert_eq!(
        PathBuf::from(path),
        PathBuf::from("/custom/config/voxtype/config.toml")
    );
}

#[test]
fn configuration_files() {
    let home = Some("/home/testuser");
    assert_eq!(config_path(None, home), "/home/testuser/.config/voxtype/config.toml");
    assert_eq!(config_path(None, None), "/tmp/.config/voxtype/config.toml");
    assert_eq!(config_path(Some(""), home), "voxtype/config.toml");
    for xdg in [None, Some("/x"), Some("/x/")] {
        let config = PathBuf::from(config_path(xdg, home));
        assert_eq!(
            PathBuf::from(backup_path(xdg, home)),
            config.with_extension("toml.bak")
        );
        assert_eq!(
            PathBuf::from(temporary_path(xdg, home)),
            config.with_extension("toml.tmp")
        );
    }
}

#[test]
fn test_toml_edit_round_trip_preserves_comments() {
    let original = r#"# VoxType Configuration
# Managed by voxtype-settings GUI

engine = "whisper"

[meeting]
enabled = true
storage_path = "~/.local/share/voxtype/meetings/"
retain_audio = false
max_duration_mins = 180

[audio]
device = "default"
"#;
    let result = try_update_config(original, "/new/path", true)
        .unwrap()
        .unwrap();

    assert!(result.contains("# VoxType Configuration"));
    assert!(result.contains("# Managed by voxtype-settings GUI"));
    assert!(result.contains("engine = \"whisper\""));
    assert!(result.contains("enabled = true"));
    assert!(result.contains("max_duration_mins = 180"));
    assert!(result.contains("[audio]"));
    assert!(result.contains("device = \"default\""));
    assert!(result.contains("/new/path"));
    assert!(result.contains("retain_audio = true"));
}

#[test]
fn test_save_config_empty_path_does_not_touch_file() {
    let result = save_config("", false, Some("/cfg"), None);
    assert!(result.is_err());
    let result = save_config("  ", false, Some("/cfg"), None);
    assert!(result.is_err());
    assert_eq!(error_of(save_config("\n", true, None, None)), EMPTY);
}

#[test]
fn test_save_config_writes_correctly_on_tmp() {
    let original = r#"# VoxType Configuration
# Managed by voxtype-settings GUI

engine = "whisper"
state_file = "auto"

[meeting]
enabled = true
chunk_duration_secs = 30
storage_path = "~/.local/share/voxtype/meetings/"
retain_audio = false
max_duration_mins = 180

[audio]
device = "default"
"#;
    let result = update_config(original, "/new/storage", true).unwrap();

    let written_doc = DocumentMut::from_str(&result).unwrap();
    assert_eq!(
        written_doc["meeting"]["storage_path"].as_str(),
        Some("/new/storage")
    );
    assert_eq!(written_doc["meeting"]["retain_audio"].as_bool(), Some(true));
    assert_eq!(written_doc["meeting"]["enabled"].as_bool(), Some(true));
    assert_eq!(
        written_doc["meeting"]["max_duration_mins"].as_integer(),
        Some(180)
    );
    assert_eq!(written_doc["audio"]["device"].as_str(), Some("default"));
    assert!(result.contains("# VoxType Configuration"));
    assert!(result.contains("# Managed by voxtype-settings GUI"));
}

fn read_back(content: &str) -> CurrentConfig {
    read_config("/c", Some(content)).unwrap()
}

#[test]
fn saved_settings_are_read_back() {
    let contents = [
        "",
        "# only a comment",
        "a = 1\n[b]\nc = 2\n",
        "meeting = { enabled = true }\n",
        "meeting.enabled = true\nother = 1\n",
        "[meeting]\n",
        "[meeting]\nstorage_path = 3\nretain_audio = \"no\"\n",
        "[meeting.storage_path]\nx = 1\n[audio]\ny = 2\n",
        "[[a]]\n[meeting.sub]\nb = 1\n[[a]]\n",
        "a = 1 # no line end",
        "[meeting]",
        "[[meeting.storage_path]]\n[[meeting.storage_path]]\nx = 1\n",
        "# first\nmeeting.storage_path.x = 1 # second\n",
        "[meeting.retain_audio.deep]\n[meeting]\nz = 1979-05-27T07:32:00Z\n",
        "'meeting' = { \"storage_path\" = [1, { a = 2 }], retain_audio = { } }\n",
        "\u{feff}[meeting]\r\nstorage_path = 'x'\r\nretain_audio = true # c\r\n",
    ];
    let folders = [
        "/new/path",
        "a \"b\" 'c' \\ d",
        "'''\"\"\"\\\"",
        "tab\tnewline\nreturn\rend\u{7f}\u{0}",
        "\n\nété \u{1f399}",
        "ends with quotes''\"\"",
        "# no comment",
    ];
    for content in contents {
        for folder in folders {
            for retain in [true, false] {
                let new = try_update_config(content, folder, retain).unwrap().unwrap();
                let read = read_back(&new);
                assert_eq!(read.storage_path, folder);
                assert_eq!(read.retain_audio, retain);
                let again = try_update_config(&new, folder, retain).unwrap().unwrap();
                assert_eq!(again, new);
            }
        }
    }
}

#[test]
fn other_entries_and_comments_stay() {
    let content = "# top\nn = 1.50 # half\n[meeting] # head\n# before\nstorage_path = \"a\" # kept\n# also\nretain_audio = true\nlist = [ # open\n  1, # one\n] # close\n[x.'y z']\nd = 2024-01-01\n# end\n";
    let new = try_update_config(content, "b", false).unwrap().unwrap();
    let expected = "# top\nn = 1.50 # half\n[meeting] # head\n# before\nstorage_path = \"b\" # kept\n# also\nretain_audio = false\nlist = [ # open\n  1, # one\n] # close\n[x.'y z']\nd = 2024-01-01\n# end\n";
    assert_eq!(new, expected);
    let again = try_update_config(&new, "b", false).unwrap().unwrap();
    assert_eq!(again, new);
}

#[test]
fn comments_behind_the_settings_stay() {
    let content = "[meeting]\nstorage_path = \"/old\" # garder\nretain_audio = false\n";
    let new = try_update_config(content, "/new", false).unwrap().unwrap();
    assert_eq!(
        new,
        "[meeting]\nstorage_path = \"/new\" # garder\nretain_audio = false\n"
    );
    let content = "meeting = { storage_path = 'a' , # one\n retain_audio=1 # two\n }\n";
    let new = try_update_config(content, "b", true).unwrap().unwrap();
    assert_eq!(
        new,
        "meeting = { storage_path = \"b\" , # one\n retain_audio=true # two\n }\n"
    );
    let content = "[meeting]\nretain_audio = [ # in\n] # out\n";
    let new = try_update_config(content, "b", true).unwrap().unwrap();
    assert_eq!(
        new,
        "[meeting]\nretain_audio = true # out\nstorage_path = \"b\"\n"
    );
}

/// All sequences of a few parts, up to a length.
fn sequences(parts: &[&str], length: usize) -> Vec<String> {
    let mut all = vec![String::new()];
    let mut last = all.clone();
    for _ in 0..length {
        last = last
            .iter()
            .flat_map(|text| parts.iter().map(move |part| format!("{text}{part}")))
            .collect();
        all.extend(last.iter().cloned());
    }
    all
}

#[test]
fn broken_files_are_refused() {
    for content in ["a ==\na.b = 2\n", "a ==\n[a.b]\n", "a = = 1\n[[a]]\n", "[\n", "= 1\n= 2"] {
        let message = try_update_config(content, "/m", true).unwrap().unwrap_err();
        assert!(message.starts_with("TOML invalide : "));
        assert_eq!(
            try_read_config("/c", Some(content)).unwrap().unwrap_err(),
            "TOML invalide dans /c"
        );
    }
    let parts = [
        "meeting", "storage_path", ".", "=", "[", "]", "{", "}", ",", "\n", " ", "# c", "1", "'s'",
    ];
    for content in sequences(&parts, 4) {
        if let Some(Ok(new)) = try_update_config(&content, "/m", true) {
            assert_eq!(read_back(&new).storage_path, "/m");
        }
    }
}

#[test]
fn what_stays_in_any_file() {
    let parts = [
        "a = 1 # a\n",
        "# line\n",
        "[meeting] # m\n",
        "[meeting.sub]\n",
        "[x.a]\n",
        "[x.b] # x\n",
        "[x.a.c]\n",
        "[[l]]\n",
        "meeting.enabled = true # d\n",
        "storage_path = 's' # s\n",
        "retain_audio = 1\n",
        "meeting = { } # i\n",
        "meeting = { retain_audio = 1, # r\n}\n",
    ];
    let mut seen = 0;
    for content in sequences(&parts, 4) {
        let Some(Ok(new)) = try_update_config(&content, "/m", false) else {
            continue;
        };
        seen += 1;
        let read = read_back(&new);
        assert_eq!((read.storage_path.as_str(), read.retain_audio), ("/m", false));
        let again = try_update_config(&new, "/m", false).unwrap().unwrap();
        assert_eq!(again, new);
        assert_eq!(sorted_comments(&new), sorted_comments(&content));
        let printed = DocumentMut::from_str(&content).unwrap().to_string();
        assert_eq!(other_lines(&new), other_lines(&printed));
    }
    assert!(seen > 1000, "{seen}");
}

#[test]
fn blanks_in_headers_settle_at_the_second_save() {
    let save = |text: &str| try_update_config(text, "/m", true).unwrap().unwrap();
    let once = save("[meeting .sub]\n");
    assert_eq!(
        once,
        "[meeting]\nstorage_path = \"/m\"\nretain_audio = true\n[meeting .sub]\n"
    );
    let twice = save(&once);
    assert_eq!(twice, once.replace(" .", "."));
    assert_eq!(save(&twice), twice);
}

#[test]
fn other_entries_keep_their_order_around_tables() {
    let parts = [
        "[meeting.storage_path] # h\n",
        "[[meeting.retain_audio]]\n",
        "retain_audio.x = 1\n",
        "storage_path = [ # in\n]\n",
        "[meeting]\n",
        "[meeting.sub]\n",
        "[x.a]\n",
        "[x.b]\n",
        "[x.a.c]\n",
        "[[l]]\n",
        "y = 1\n",
        "meeting.storage_path.z = 2\n",
    ];
    let mut seen = 0;
    for content in sequences(&parts, 4) {
        let Some(Ok(new)) = try_update_config(&content, "/m", false) else {
            continue;
        };
        seen += 1;
        let printed = DocumentMut::from_str(&content).unwrap().to_string();
        assert_eq!(other_lines(&new), other_lines(&printed), "{content}");
        let again = try_update_config(&new, "/m", false).unwrap().unwrap();
        assert_eq!(again, new);
    }
    assert!(seen > 1000, "{seen}");
}

/// The lines of a file that name neither the settings, nor what is below them, nor their
/// section.
fn other_lines(text: &str) -> Vec<&str> {
    let mut below = false;
    let mut found = vec![];
    for line in text.lines() {
        let of_settings = line.contains("storage_path") || line.contains("retain_audio");
        if line.starts_with('[') {
            below = of_settings;
        }
        let names_nothing = line.is_empty() || line.starts_with(['#', '}', ']']);
        let of_section = line.starts_with("[meeting]") || line.starts_with("meeting = ");
        if !below && !of_settings && !names_nothing && !of_section {
            found.push(line);
        }
    }
    found
}

fn sorted_comments(text: &str) -> Vec<String> {
    let mut found: Vec<String> = text
        .lines()
        .filter_map(|line| line.split_once('#'))
        .map(|(_, comment)| comment.to_string())
        .collect();
    found.sort();
    found
}

#[test]
fn comments_stay_in_a_file_without_the_section() {
    for content in ["# a\r\n# b\r\nx = 1 # c\r\n[t] # d\r\n# e", "x = 1 # a\n# b\n\n"] {
        let new = try_update_config(content, "/m", true).unwrap().unwrap();
        assert_eq!(sorted_comments(&new), sorted_comments(content));
        assert_eq!(read_back(&new).storage_path, "/m");
    }
}

#[test]
fn a_missing_section_is_added() {
    let new = try_update_config("# top\n[audio]\n", "/m", true).unwrap().unwrap();
    assert_eq!(
        new,
        "meeting = { storage_path = \"/m\", retain_audio = true }\n# top\n[audio]\n"
    );
}

#[test]
fn a_section_that_is_no_table_has_no_place_for_settings() {
    assert!(try_update_config("meeting = 3\n", "/m", true).is_none());
    assert!(try_update_config("[[meeting]]\n", "/m", true).is_none());
    let broken = try_update_config("meeting = \n", "/m", true).unwrap();
    assert!(broken.unwrap_err().starts_with("TOML invalide : TOML parse error"));
}

#[test]
fn reading_the_configuration() {
    let read = read_back("[meeting]\nstorage_path = \"/a\"\nretain_audio = true\n");
    assert_eq!((read.storage_path.as_str(), read.retain_audio), ("/a", true));
    let read = read_back("meeting = { storage_path = 1, retain_audio = 'yes' }\n");
    assert_eq!(
        (read.storage_path.as_str(), read.retain_audio),
        ("~/.local/share/voxtype/meetings/", false)
    );
    assert_eq!(
        read_config("/a/b", None).unwrap_err(),
        "Impossible de lire /a/b"
    );
    assert_eq!(
        read_config("/a/b", Some("=")).unwrap_err(),
        "TOML invalide dans /a/b"
    );
    let read = config_from(None, None);
    assert_eq!(
        (read.storage_path.as_str(), read.retain_audio),
        ("~/.local/share/voxtype/meetings/", false)
    );
}

#[test]
fn missing_entries_are_told_apart() {
    assert!(try_read_config("/c", Some("")).is_none());
    assert!(try_read_config("/c", Some("meeting = 1\n")).is_none());
    assert!(try_read_config("/c", Some("[meeting]\nretain_audio = true\n")).is_none());
    assert!(try_read_config("/c", Some("[meeting]\nstorage_path = 'a'\n")).is_none());
    assert!(try_read_config("/c", None).unwrap().is_err());
    assert!(try_read_config("/c", Some("=")).unwrap().is_err());
    let content = Some("[meeting]\nstorage_path = 'a'\nretain_audio = true\n");
    let read = try_read_config("/c", content).unwrap().unwrap();
    assert_eq!((read.storage_path.as_str(), read.retain_audio), ("a", true));
}

#[test]
fn a_save_from_beginning_to_end() {
    let save = begin(" ~/rec ");
    match save.request() {
        SaveRequest::ReadFile { path } => assert_eq!(path, "/cfg/voxtype/config.toml"),
        other => panic!("{other:?}"),
    }
    let save = save.advance(Ok("[meeting]\n".to_string()));
    match save.request() {
        SaveRequest::CopyFile { from, to } => {
            assert_eq!(from, "/cfg/voxtype/config.toml");
            assert_eq!(to, "/cfg/voxtype/config.toml.bak");
        }
        other => panic!("{other:?}"),
    }
    let save = save.advance(ok());
    match save.request() {
        SaveRequest::WriteFile { path, content } => {
            assert_eq!(path, "/cfg/voxtype/config.toml.tmp");
            assert_eq!(
                content,
                "[meeting]\nstorage_path = \" ~/rec \"\nretain_audio = true\n"
            );
        }
        other => panic!("{other:?}"),
    }
    let save = save.advance(ok());
    match save.request() {
        SaveRequest::RenameFile { from, to } => {
            assert_eq!(from, "/cfg/voxtype/config.toml.tmp");
            assert_eq!(to, "/cfg/voxtype/config.toml");
        }
        other => panic!("{other:?}"),
    }
    let save = save.advance(ok());
    match save.request() {
        SaveRequest::CreateDir { path } => assert_eq!(path, "/home/testuser/rec"),
        other => panic!("{other:?}"),
    }
    let save = save.advance(ok());
    assert!(matches!(save.request(), SaveRequest::RestartDaemon));
    let save = save.advance(ok());
    assert_eq!(
        done(&save),
        Ok("Config sauvegardé et daemon redémarré.".to_string())
    );
    let save = save.advance(err("again"));
    assert!(done(&save).is_ok());
}

/// Runs a save on files in memory.
fn run(files: &mut HashMap<String, String>, storage_path: &str) -> Result<String, String> {
    let mut save = begin(storage_path);
    loop {
        let outcome = match save.request() {
            SaveRequest::ReadFile { path } => Ok(files[&path].clone()),
            SaveRequest::CopyFile { from, to } => {
                let text = files[&from].clone();
                files.insert(to, text);
                ok()
            }
            SaveRequest::WriteFile { path, content } => {
                files.insert(path, content);
                ok()
            }
            SaveRequest::RenameFile { from, to } => {
                let text = files.remove(&from).unwrap();
                files.insert(to, text);
                ok()
            }
            SaveRequest::Finish { result } => return result,
            _ => ok(),
        };
        save = save.advance(outcome);
    }
}

#[test]
fn saving_twice_is_saving_once() {
    let (config, backup) = ("/cfg/voxtype/config.toml", "/cfg/voxtype/config.toml.bak");
    let old = "# top\n[meeting.sub]\nx = 1 # x\n";
    let mut files = HashMap::from([(config.to_string(), old.to_string())]);
    assert!(run(&mut files, "/m").is_ok());
    let once = files[config].clone();
    assert_eq!(files[backup], old);
    assert!(run(&mut files, "/m").is_ok());
    assert_eq!(files[config], once);
    assert_eq!(files[backup], once);
    assert_eq!(files.len(), 2);
}

#[test]
fn every_operation_can_fail() {
    let text = || Ok("[meeting]\n".to_string());
    assert_eq!(
        done(&begin("/m").advance(err("gone"))),
        Err("Impossible de lire le config : gone".to_string())
    );
    assert!(done(&begin("/m").advance(Ok("=".to_string())))
        .unwrap_err()
        .starts_with("TOML invalide : "));
    assert_eq!(
        done(&begin("/m").advance(text()).advance(err("full"))),
        Err("Impossible de créer le backup /cfg/voxtype/config.toml.bak : full".to_string())
    );
    assert_eq!(
        done(&begin("/m").advance(text()).advance(ok()).advance(err("full"))),
        Err("Impossible d'écrire le fichier temporaire : full".to_string())
    );
    let save = begin("/m").advance(text()).advance(ok()).advance(ok()).advance(err("busy"));
    match save.request() {
        SaveRequest::RemoveFile { path } => assert_eq!(path, "/cfg/voxtype/config.toml.tmp"),
        other => panic!("{other:?}"),
    }
    assert_eq!(
        done(&save.advance(err("ignored"))),
        Err("Impossible de remplacer le config : busy".to_string())
    );
    let renamed = || begin("/m").advance(text()).advance(ok()).advance(ok()).advance(ok());
    assert_eq!(
        done(&renamed().advance(err("no"))),
        Ok("Config sauvegardé. Attention : impossible de créer le dossier /m : no".to_string())
    );
    assert_eq!(
        done(&renamed().advance(ok()).advance(err("no"))),
        Ok("Config sauvegardé. Redémarrage du daemon échoué : no".to_string())
    );
}

#[test]
fn a_save_without_a_folder_to_create() {
    let save = save_config("~", false, Some("/cfg"), Some("")).unwrap();
    let save = save.advance(ok()).advance(ok()).advance(ok()).advance(ok());
    assert!(matches!(save.request(), SaveRequest::RestartDaemon));
}

#[test]
fn a_save_without_a_place_backs_up_and_aborts() {
    let save = begin("/m").advance(Ok("meeting = 1\n".to_string()));
    assert!(matches!(save.request(), SaveRequest::CopyFile { .. }));
    let save = save.advance(ok());
    assert!(matches!(save.request(), SaveRequest::Abort));
    let save = save.advance(ok());
    assert!(matches!(save.request(), SaveRequest::Abort));
}

#[test]
fn steps_after_an_update() {
    assert!(matches!(
        step_after_update(None),
        SaveStep::BackingUp { updated: None }
    ));
    assert!(matches!(
        step_after_update(Some(Ok("a".to_string()))),
        SaveStep::BackingUp { updated: Some(_) }
    ));
    assert!(matches!(
        step_after_update(Some(Err("a".to_string()))),
        SaveStep::Done { result: Err(_) }
    ));
}

#[test]
fn the_window_opens_on_the_settings() {
    let app = SettingsApp::new(Ok(CurrentConfig {
        storage_path: "/a".to_string(),
        retain_audio: true,
    }));
    assert_eq!((app.storage_path.as_str(), app.retain_audio), ("/a", true));
    assert_eq!((app.save_result, app.load_error), (None, None));
    let app = SettingsApp::new(Err("Impossible de lire /c".to_string()));
    assert_eq!(
        (app.storage_path.as_str(), app.retain_audio),
        ("~/.local/share/voxtype/meetings/", false)
    );
    assert_eq!(
        app.load_error.unwrap(),
        "Impossible de lire le config : Impossible de lire /c"
    );
}

#[test]
fn the_picker_starts_somewhere_sensible() {
    let mut app = SettingsApp::new(Err(String::new()));
    app.storage_path = " ~/rec ".to_string();
    let home = Some("/home/testuser");
    assert_eq!(app.folder(home), "/home/testuser/rec");
    let probe = |is_dir: bool, exists: bool, parent: Option<&str>| FolderProbe {
        is_dir,
        exists,
        parent: parent.map(|p| p.to_string()),
    };
    let start = |p: FolderProbe, home: Option<&str>| app.initial_dir_for_picker(&p, "/here", home);
    assert_eq!(start(probe(true, true, Some("/p")), home), "/home/testuser/rec");
    assert_eq!(start(probe(false, false, Some("/p")), home), "/here");
    assert_eq!(start(probe(false, true, Some("/p")), home), "/p");
    assert_eq!(start(probe(false, true, None), home), "/home/testuser");
    assert_eq!(start(probe(false, true, None), None), "/");
}

#[test]
fn the_window_takes_over_folders_and_results() {
    let mut app = SettingsApp::new(Err("e".to_string()));
    app.save_finished(Ok("m".to_string()));
    assert_eq!(app.save_result, Some(SaveResult::Success("m".to_string())));
    app.folder_picked(None);
    assert_eq!(app.save_result, Some(SaveResult::Success("m".to_string())));
    app.folder_picked(Some("/p".to_string()));
    assert_eq!((app.storage_path.as_str(), &app.save_result), ("/p", &None));
    app.save_finished(Err("x".to_string()));
    assert_eq!(app.save_result, Some(SaveResult::Failure("x".to_string())));
    assert!(app.load_error.is_some());
}

#[test]
fn restarts() {
    assert_eq!(
        restart_voxtype(&RestartOutcome::NotLaunched),
        Err("Impossible de lancer systemctl".to_string())
    );
    let exited = |success: bool, stderr: &[u8]| RestartOutcome::Exited {
        success,
        stderr: stderr.to_vec(),
    };
    assert_eq!(restart_voxtype(&exited(true, b"warning")), Ok(()));
    assert_eq!(
        restart_voxtype(&exited(false, b"no \xff unit")),
        Err("systemctl restart voxtype a échoué : no \u{fffd} unit".to_string())
    );
    assert_eq!(
        after_restart(false, "x"),
        Err("systemctl restart voxtype a échoué : x".to_string())
    );
}
