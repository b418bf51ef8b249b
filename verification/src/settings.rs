//! The state of the settings window.

use crate::config::CurrentConfig;
use crate::paths;
use crate::text;
use vstd::prelude::*;

verus! {

/// What the window shows after a save.
#[derive(Debug, PartialEq)]
pub enum SaveResult {
    /// The save went well, with a message.
    Success(String),
    /// The save failed, with a message.
    Failure(String),
}

/// The contents of a [`SaveResult`].
pub enum SaveNotice {
    Success(Seq<char>),
    Failure(Seq<char>),
}

impl View for SaveResult {
    type V = SaveNotice;

    open spec fn view(&self) -> SaveNotice {
        match self {
            SaveResult::Success(message) => SaveNotice::Success(message@),
            SaveResult::Failure(message) => SaveNotice::Failure(message@),
        }
    }
}

/// What the settings window holds.
#[derive(Debug)]
pub struct SettingsApp {
    /// The storage folder, as it stands in the text field.
    pub storage_path: String,
    /// Whether recordings are to be kept.
    pub retain_audio: bool,
    /// What came of the last save.
    pub save_result: Option<SaveResult>,
    /// Why the configuration file could not be read.
    pub load_error: Option<String>,
}

/// The contents of a [`SettingsApp`].
pub struct WindowState {
    pub settings: crate::config::Settings,
    pub notice: Option<SaveNotice>,
    pub load_error: Option<Seq<char>>,
}

impl View for SettingsApp {
    type V = WindowState;

    open spec fn view(&self) -> WindowState {
        WindowState {
            settings: crate::config::Settings {
                storage_path: self.storage_path@,
                retain_audio: self.retain_audio,
            },
            notice: crate::seen(self.save_result),
            load_error: crate::seen(self.load_error),
        }
    }
}

/// What is known of the folder that the window names.
#[derive(Debug)]
pub struct FolderProbe {
    /// It is a directory.
    pub is_dir: bool,
    /// It exists, as a directory or otherwise.
    pub exists: bool,
    /// What it is in, if that is a directory.
    pub parent: Option<String>,
}

/// The folder that the picker opens for a folder and what is known of it: the folder itself if
/// it is a directory, the current directory if it does not exist; else what it is in; else the
/// home directory, or the root.
pub open spec fn picker_start(
    folder: Seq<char>,
    is_dir: bool,
    exists: bool,
    parent: Option<Seq<char>>,
    current_dir: Seq<char>,
    home: Option<&str>,
) -> Seq<char> {
    if is_dir {
        folder
    } else if !exists {
        current_dir
    } else if parent is Some {
        parent->Some_0
    } else {
        match home {
            Some(home) => home@,
            None => "/"@,
        }
    }
}

impl SettingsApp {
    /// Opens the window on what reading the configuration file gave: the settings in it, or
    /// the defaults with the error.
    pub fn new(config: Result<CurrentConfig, String>) -> (result: Self)
        ensures
            result@ == (match config {
                Ok(config) => WindowState { settings: config@, notice: None, load_error: None },
                Err(error) => WindowState {
                    settings: crate::config::settings_or_defaults(None, None),
                    notice: None,
                    load_error: Some("Impossible de lire le config : "@ + error@),
                },
            }),
    {
        match config {
            Ok(config) => SettingsApp {
                storage_path: config.storage_path,
                retain_audio: config.retain_audio,
                save_result: None,
                load_error: None,
            },
            Err(error) => SettingsApp {
                storage_path: "~/.local/share/voxtype/meetings/".to_owned(),
                retain_audio: false,
                save_result: None,
                load_error: Some(
                    "Impossible de lire le config : ".to_owned().concat(error.as_str()),
                ),
            },
        }
    }

    /// The folder that the text field names.
    pub fn folder(&self, home: Option<&str>) -> (result: String)
        ensures
            result@ == paths::expanded(text::trimmed(self.storage_path@), home),
    {
        paths::expand_tilde(text::trim(self.storage_path.as_str()), home)
    }

    /// The folder that the picker opens, from what is known of [`SettingsApp::folder`].
    pub fn initial_dir_for_picker(
        &self,
        probe: &FolderProbe,
        current_dir: &str,
        home: Option<&str>,
    ) -> (result: String)
        ensures
            result@ == picker_start(
                paths::expanded(text::trimmed(self.storage_path@), home),
                probe.is_dir,
                probe.exists,
                crate::seen(probe.parent),
                current_dir@,
                home,
            ),
    {
        if probe.is_dir {
            return self.folder(home);
        }
        if !probe.exists {
            return current_dir.to_owned();
        }
        if let Some(parent) = &probe.parent {
            return parent.clone();
        }
        match home {
            Some(home) => home.to_owned(),
            None => "/".to_owned(),
        }
    }

    /// Takes over the folder that the user picked, if any; the last save is then out of date.
    pub fn folder_picked(&mut self, picked: Option<String>)
        ensures
            match picked {
                Some(folder) => final(self)@ == (WindowState {
                    settings: crate::config::Settings {
                        storage_path: folder@,
                        retain_audio: old(self)@.settings.retain_audio,
                    },
                    notice: None,
                    load_error: old(self)@.load_error,
                }),
                None => final(self)@ == old(self)@,
            },
    {
        if let Some(folder) = picked {
            self.storage_path = folder;
            self.save_result = None;
        }
    }

    /// Takes over what came of a save, to be shown.
    pub fn save_finished(&mut self, result: Result<String, String>)
        ensures
            final(self)@ == (WindowState {
                notice: Some(
                    match result {
                        Ok(message) => SaveNotice::Success(message@),
                        Err(message) => SaveNotice::Failure(message@),
                    },
                ),
                ..old(self)@
            }),
    {
        self.save_result = Some(
            match result {
                Ok(message) => SaveResult::Success(message),
                Err(message) => SaveResult::Failure(message),
            },
        );
    }
}

/// What came of `systemctl --user restart voxtype`.
#[derive(Debug)]
pub enum RestartOutcome {
    /// It could not be run.
    NotLaunched,
    /// It ran, with or without success, and wrote to its standard error.
    Exited { success: bool, stderr: Vec<u8> },
}

/// The outcome of a restart that ran.
pub open spec fn restart_result(success: bool, stderr: Seq<char>) -> Result<(), Seq<char>> {
    if success {
        Ok(())
    } else {
        Err("systemctl restart voxtype a échoué : "@ + stderr)
    }
}

/// The outcome of a restart that ran, from what it wrote to its standard error.
pub fn after_restart(success: bool, stderr: &str) -> (result: Result<(), String>)
    ensures
        result is Ok <==> success,
        result matches Err(message) ==> message@ == "systemctl restart voxtype a échoué : "@
            + stderr@,
        match result {
            Ok(()) => restart_result(success, stderr@) is Ok,
            Err(message) => restart_result(success, stderr@) == Err::<(), _>(message@),
        },
{
    if success {
        Ok(())
    } else {
        Err("systemctl restart voxtype a échoué : ".to_owned().concat(stderr))
    }
}

/// Whether the daemon was restarted, or a message that says why not.
pub fn restart_voxtype(outcome: &RestartOutcome) -> (result: Result<(), String>)
    ensures
        result is Ok <==> (outcome matches RestartOutcome::Exited { success, .. } && *success),
        match outcome {
            RestartOutcome::NotLaunched => result matches Err(message) && message@
                == "Impossible de lancer systemctl"@,
            RestartOutcome::Exited { success, stderr } => match result {
                Ok(()) => *success,
                Err(message) => {
                    &&& restart_result(*success, text::utf8_lossy(stderr@)) == Err::<(), _>(
                        message@,
                    )
                    &&& vstd::utf8::valid_utf8(stderr@) ==> restart_result(
                        *success,
                        vstd::utf8::decode_utf8(stderr@),
                    ) == Err::<(), _>(message@)
                },
            },
        },
{
    match outcome {
        RestartOutcome::NotLaunched => Err("Impossible de lancer systemctl".to_owned()),
        RestartOutcome::Exited { success, stderr } => {
            let message = text::from_utf8_lossy(stderr.as_slice());
            after_restart(*success, message.as_str())
        },
    }
}

/// A restart that exits with success is a success whatever it printed, and only then; else the
/// message ends with what it printed.
pub proof fn law_when_a_restart_worked(success: bool, stderr: Seq<char>, other: Seq<char>)
    ensures
        restart_result(success, stderr) is Ok <==> success,
        restart_result(success, stderr) is Ok <==> restart_result(success, other) is Ok,
        restart_result(false, stderr) == Err::<(), _>(
            "systemctl restart voxtype a échoué : "@ + stderr,
        ),
{
}

/// What the window holds is what it says.
pub proof fn law_contents_of_the_window(app: SettingsApp)
    ensures
        app@.settings.storage_path == app.storage_path@,
        app@.settings.retain_audio == app.retain_audio,
        app.save_result is None <==> app@.notice is None,
        app.save_result matches Some(result) ==> app@.notice == Some(result@),
        app.load_error is None <==> app@.load_error is None,
        app.load_error matches Some(error) ==> app@.load_error == Some(error@),
{
}

/// What the outcome of a save holds is what it says.
pub proof fn law_contents_of_a_save_result(message: String)
    ensures
        SaveResult::Success(message)@ == SaveNotice::Success(message@),
        SaveResult::Failure(message)@ == SaveNotice::Failure(message@),
{
}

/// Where the picker opens: in the folder itself if it is a directory, in the current directory if
/// it does not exist; else in the directory that it is in; and failing that in the home directory,
/// or the root where there is none.
pub proof fn law_where_the_picker_opens(
    folder: Seq<char>,
    exists_too: bool,
    parent: Seq<char>,
    any_parent: Option<Seq<char>>,
    current_dir: Seq<char>,
    home: &str,
    any_home: Option<&str>,
)
    ensures
        picker_start(folder, true, exists_too, any_parent, current_dir, any_home) == folder,
        picker_start(folder, false, false, any_parent, current_dir, any_home) == current_dir,
        picker_start(folder, false, true, Some(parent), current_dir, any_home) == parent,
        picker_start(folder, false, true, None, current_dir, Some(home)) == home@,
        picker_start(folder, false, true, None, current_dir, None) == "/"@,
{
}

} // verus!
