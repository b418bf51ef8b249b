//! Saving the settings, one file operation at a time: the caller carries out the request that
//! is due and hands back its outcome.

use crate::config::{try_update_config, validate_storage_path};
use crate::paths;
use crate::text;
use vstd::prelude::*;

verus! {

/// The operation that is due.
#[derive(Debug)]
pub enum SaveRequest {
    /// Read the text of a file.
    ReadFile { path: String },
    /// Copy a file.
    CopyFile { from: String, to: String },
    /// Write a text to a file.
    WriteFile { path: String, content: String },
    /// Move a file over another one.
    RenameFile { from: String, to: String },
    /// Remove a file, whether or not that succeeds.
    RemoveFile { path: String },
    /// Create a directory and those above it.
    CreateDir { path: String },
    /// Restart the daemon.
    RestartDaemon,
    /// Nothing more: the section of the settings is no table, so they have no place.
    Abort,
    /// Nothing more: the save is over, with a message.
    Finish { result: Result<String, String> },
}

/// The contents of a [`SaveRequest`].
pub enum Request {
    ReadFile { path: Seq<char> },
    CopyFile { from: Seq<char>, to: Seq<char> },
    WriteFile { path: Seq<char>, content: Seq<char> },
    RenameFile { from: Seq<char>, to: Seq<char> },
    RemoveFile { path: Seq<char> },
    CreateDir { path: Seq<char> },
    RestartDaemon,
    Abort,
    Finish { result: Result<Seq<char>, Seq<char>> },
}

impl View for SaveRequest {
    type V = Request;

    open spec fn view(&self) -> Request {
        match self {
            SaveRequest::ReadFile { path } => Request::ReadFile { path: path@ },
            SaveRequest::CopyFile { from, to } => Request::CopyFile { from: from@, to: to@ },
            SaveRequest::WriteFile { path, content } => Request::WriteFile {
                path: path@,
                content: content@,
            },
            SaveRequest::RenameFile { from, to } => Request::RenameFile { from: from@, to: to@ },
            SaveRequest::RemoveFile { path } => Request::RemoveFile { path: path@ },
            SaveRequest::CreateDir { path } => Request::CreateDir { path: path@ },
            SaveRequest::RestartDaemon => Request::RestartDaemon,
            SaveRequest::Abort => Request::Abort,
            SaveRequest::Finish { result } => Request::Finish {
                result: crate::config::text_result(*result),
            },
        }
    }
}

/// How far a save has come.
#[derive(Debug)]
pub enum SaveStep {
    /// The configuration file is to be read.
    Reading,
    /// It is to be backed up; its new text is known, unless the settings have no place in it.
    BackingUp { updated: Option<String> },
    /// The new text is to be written beside it.
    Writing { content: String },
    /// The new file is to take its place.
    Renaming,
    /// That failed: the new file is to be removed.
    Removing { error: String },
    /// The storage folder is to be created.
    CreatingDir,
    /// The daemon is to be restarted.
    Restarting,
    /// The settings have no place in the configuration file.
    Aborted,
    /// The save is over.
    Done { result: Result<String, String> },
}

/// The contents of a [`SaveStep`].
pub enum Progress {
    Reading,
    BackingUp { updated: Option<Seq<char>> },
    Writing { content: Seq<char> },
    Renaming,
    Removing { error: Seq<char> },
    CreatingDir,
    Restarting,
    Aborted,
    Done { result: Result<Seq<char>, Seq<char>> },
}

impl View for SaveStep {
    type V = Progress;

    open spec fn view(&self) -> Progress {
        match self {
            SaveStep::Reading => Progress::Reading,
            SaveStep::BackingUp { updated } => Progress::BackingUp {
                updated: crate::seen(*updated),
            },
            SaveStep::Writing { content } => Progress::Writing { content: content@ },
            SaveStep::Renaming => Progress::Renaming,
            SaveStep::Removing { error } => Progress::Removing { error: error@ },
            SaveStep::CreatingDir => Progress::CreatingDir,
            SaveStep::Restarting => Progress::Restarting,
            SaveStep::Aborted => Progress::Aborted,
            SaveStep::Done { result } => Progress::Done {
                result: crate::config::text_result(*result),
            },
        }
    }
}

/// A save under way.
#[derive(Debug)]
pub struct SaveConfig {
    storage_path: String,
    retain_audio: bool,
    config: String,
    backup: String,
    temporary: String,
    directory: String,
    step: SaveStep,
}

/// The contents of a [`SaveConfig`].
pub struct SaveState {
    /// The settings to save.
    pub settings: crate::config::Settings,
    /// The configuration file.
    pub config: Seq<char>,
    /// Its backup.
    pub backup: Seq<char>,
    /// The file that takes its place.
    pub temporary: Seq<char>,
    /// The storage folder.
    pub directory: Seq<char>,
    /// How far the save has come.
    pub progress: Progress,
}

impl View for SaveConfig {
    type V = SaveState;

    closed spec fn view(&self) -> SaveState {
        SaveState {
            settings: crate::config::Settings {
                storage_path: self.storage_path@,
                retain_audio: self.retain_audio,
            },
            config: self.config@,
            backup: self.backup@,
            temporary: self.temporary@,
            directory: self.directory@,
            progress: self.step@,
        }
    }
}

/// The state of a save that begins.
pub open spec fn save_begun(
    settings: crate::config::Settings,
    xdg_config_home: Option<&str>,
    home: Option<&str>,
) -> SaveState {
    let config = paths::config_file(xdg_config_home, home);
    SaveState {
        settings,
        config,
        backup: config + ".bak"@,
        temporary: config + ".tmp"@,
        directory: paths::expanded(text::trimmed(settings.storage_path), home),
        progress: Progress::Reading,
    }
}

/// Begins to save the settings, from the variables `XDG_CONFIG_HOME` and `HOME`. A blank
/// storage folder is refused before anything is touched.
pub fn save_config(
    storage_path: &str,
    retain_audio: bool,
    xdg_config_home: Option<&str>,
    home: Option<&str>,
) -> (result: Result<SaveConfig, String>)
    ensures
        match result {
            Ok(save) => {
                &&& text::trimmed(storage_path@).len() > 0
                &&& save@.settings.storage_path == storage_path@
                &&& save@.settings.retain_audio == retain_audio
                &&& save@.config == paths::config_file(xdg_config_home, home)
                &&& is_sound(save@)
                &&& save@.progress is Reading
                &&& save@ == save_begun(
                    (crate::config::Settings { storage_path: storage_path@, retain_audio }),
                    xdg_config_home,
                    home,
                )
            },
            Err(message) => {
                &&& text::trimmed(storage_path@).len() == 0
                &&& message@ == "Le dossier de stockage ne peut pas être vide."@
            },
        },
{
    match validate_storage_path(storage_path) {
        Err(message) => Err(message),
        Ok(()) => Ok(
            SaveConfig {
                storage_path: storage_path.to_owned(),
                retain_audio,
                config: paths::config_path(xdg_config_home, home),
                backup: paths::backup_path(xdg_config_home, home),
                temporary: paths::temporary_path(xdg_config_home, home),
                directory: paths::expand_tilde(text::trim(storage_path), home),
                step: SaveStep::Reading,
            },
        ),
    }
}

/// The operation that is due in a state.
pub open spec fn request_in(state: SaveState) -> Request {
    match state.progress {
        Progress::Reading => Request::ReadFile { path: state.config },
        Progress::BackingUp { .. } => Request::CopyFile { from: state.config, to: state.backup },
        Progress::Writing { content } => Request::WriteFile { path: state.temporary, content },
        Progress::Renaming => Request::RenameFile { from: state.temporary, to: state.config },
        Progress::Removing { .. } => Request::RemoveFile { path: state.temporary },
        Progress::CreatingDir => Request::CreateDir { path: state.directory },
        Progress::Restarting => Request::RestartDaemon,
        Progress::Aborted => Request::Abort,
        Progress::Done { result } => Request::Finish { result },
    }
}

/// The progress after the configuration file was read and the settings were written to its
/// text; there is no update where they have no place in it.
pub open spec fn progress_after_update(updated: Option<Result<Seq<char>, Seq<char>>>) -> Progress {
    match updated {
        Some(Ok(content)) => Progress::BackingUp { updated: Some(content) },
        Some(Err(message)) => Progress::Done { result: Err(message) },
        None => Progress::BackingUp { updated: None },
    }
}

/// The contents of an update of the configuration file, if there is one.
pub open spec fn update_result(updated: Option<Result<String, String>>) -> Option<
    Result<Seq<char>, Seq<char>>,
> {
    match updated {
        Some(updated) => Some(crate::config::text_result(updated)),
        None => None,
    }
}

/// How far a save has come once the configuration file was read and the settings were written
/// to its text.
pub fn step_after_update(updated: Option<Result<String, String>>) -> (result: SaveStep)
    ensures
        result@ == progress_after_update(update_result(updated)),
{
    match updated {
        Some(Ok(content)) => SaveStep::BackingUp { updated: Some(content) },
        Some(Err(message)) => SaveStep::Done { result: Err(message) },
        None => SaveStep::BackingUp { updated: None },
    }
}

/// The progress after an operation other than a successful read of the configuration file.
pub open spec fn progress_after(
    state: SaveState,
    outcome: Result<Seq<char>, Seq<char>>,
) -> Progress {
    match (state.progress, outcome) {
        (Progress::Reading, Err(error)) => Progress::Done {
            result: Err("Impossible de lire le config : "@ + error),
        },
        (Progress::Reading, Ok(_)) => Progress::Reading,
        (Progress::BackingUp { .. }, Err(error)) => Progress::Done {
            result: Err("Impossible de créer le backup "@ + state.backup + " : "@ + error),
        },
        (Progress::BackingUp { updated: Some(content) }, Ok(_)) => Progress::Writing { content },
        (Progress::BackingUp { updated: None }, Ok(_)) => Progress::Aborted,
        (Progress::Writing { .. }, Err(error)) => Progress::Done {
            result: Err("Impossible d'écrire le fichier temporaire : "@ + error),
        },
        (Progress::Writing { .. }, Ok(_)) => Progress::Renaming,
        (Progress::Renaming, Err(error)) => Progress::Removing {
            error: "Impossible de remplacer le config : "@ + error,
        },
        (Progress::Renaming, Ok(_)) => if state.directory.len() == 0 {
            Progress::Restarting
        } else {
            Progress::CreatingDir
        },
        (Progress::Removing { error }, _) => Progress::Done { result: Err(error) },
        (Progress::CreatingDir, Err(error)) => Progress::Done {
            result: Ok(
                "Config sauvegardé. Attention : impossible de créer le dossier "@ + state.directory
                    + " : "@ + error,
            ),
        },
        (Progress::CreatingDir, Ok(_)) => Progress::Restarting,
        (Progress::Restarting, Err(error)) => Progress::Done {
            result: Ok("Config sauvegardé. Redémarrage du daemon échoué : "@ + error),
        },
        (Progress::Restarting, Ok(_)) => Progress::Done {
            result: Ok("Config sauvegardé et daemon redémarré."@),
        },
        (Progress::Aborted, _) => Progress::Aborted,
        (Progress::Done { result }, _) => Progress::Done { result },
    }
}

/// Whether `updated` is what writing the settings to the text of the configuration file gives,
/// or nothing where they have no place in it.
pub open spec fn is_update_or_nothing(
    content: Seq<char>,
    settings: crate::config::Settings,
    updated: Option<Result<Seq<char>, Seq<char>>>,
) -> bool {
    &&& updated is Some <==> crate::config::is_updatable(content)
    &&& updated matches Some(updated) ==> crate::config::is_update(content, settings, updated)
}

/// Whether a save goes from one state to another when the operation that is due has a given
/// outcome: a text where a file was read, an error message where it failed.
pub open spec fn goes_on(
    state: SaveState,
    outcome: Result<Seq<char>, Seq<char>>,
    next: SaveState,
) -> bool {
    match (state.progress, outcome) {
        (Progress::Reading, Ok(content)) => exists|updated: Option<Result<Seq<char>, Seq<char>>>|
            {
                &&& #[trigger] is_update_or_nothing(content, state.settings, updated)
                &&& next == (SaveState { progress: progress_after_update(updated), ..state })
            },
        _ => next == (SaveState { progress: progress_after(state, outcome), ..state }),
    }
}

impl SaveConfig {
    /// The operation that is due.
    pub fn request(&self) -> (result: SaveRequest)
        ensures
            result@ == request_in(self@),
    {
        match &self.step {
            SaveStep::Reading => SaveRequest::ReadFile { path: self.config.clone() },
            SaveStep::BackingUp { .. } => SaveRequest::CopyFile {
                from: self.config.clone(),
                to: self.backup.clone(),
            },
            SaveStep::Writing { content } => SaveRequest::WriteFile {
                path: self.temporary.clone(),
                content: content.clone(),
            },
            SaveStep::Renaming => SaveRequest::RenameFile {
                from: self.temporary.clone(),
                to: self.config.clone(),
            },
            SaveStep::Removing { .. } => SaveRequest::RemoveFile { path: self.temporary.clone() },
            SaveStep::CreatingDir => SaveRequest::CreateDir { path: self.directory.clone() },
            SaveStep::Restarting => SaveRequest::RestartDaemon,
            SaveStep::Aborted => SaveRequest::Abort,
            SaveStep::Done { result: Ok(message) } => SaveRequest::Finish {
                result: Ok(message.clone()),
            },
            SaveStep::Done { result: Err(message) } => SaveRequest::Finish {
                result: Err(message.clone()),
            },
        }
    }

    /// Goes on after the operation that was due: `outcome` is the text where a file was read,
    /// the error message where the operation failed, and any text otherwise.
    pub fn advance(self, outcome: Result<String, String>) -> (result: SaveConfig)
        ensures
            goes_on(self@, crate::config::text_result(outcome), result@),
    {
        let ghost before = self@;
        let ghost came = crate::config::text_result(outcome);
        let ghost mut written: Option<Result<Seq<char>, Seq<char>>> = None;
        let step = match (self.step, outcome) {
            (SaveStep::Reading, Err(error)) => SaveStep::Done {
                result: Err("Impossible de lire le config : ".to_owned().concat(error.as_str())),
            },
            (SaveStep::Reading, Ok(content)) => {
                let updated = try_update_config(
                    content.as_str(),
                    self.storage_path.as_str(),
                    self.retain_audio,
                );
                proof {
                    written = update_result(updated);
                }
                step_after_update(updated)
            },
            (SaveStep::BackingUp { .. }, Err(error)) => SaveStep::Done {
                result: Err(
                    "Impossible de créer le backup ".to_owned().concat(self.backup.as_str()).concat(
                        " : ",
                    ).concat(error.as_str()),
                ),
            },
            (SaveStep::BackingUp { updated: Some(content) }, Ok(_)) => SaveStep::Writing { content },
            (SaveStep::BackingUp { updated: None }, Ok(_)) => SaveStep::Aborted,
            (SaveStep::Writing { .. }, Err(error)) => SaveStep::Done {
                result: Err(
                    "Impossible d'écrire le fichier temporaire : ".to_owned().concat(error.as_str()),
                ),
            },
            (SaveStep::Writing { .. }, Ok(_)) => SaveStep::Renaming,
            (SaveStep::Renaming, Err(error)) => SaveStep::Removing {
                error: "Impossible de remplacer le config : ".to_owned().concat(error.as_str()),
            },
            (SaveStep::Renaming, Ok(_)) => if self.directory.as_str().is_empty() {
                SaveStep::Restarting
            } else {
                SaveStep::CreatingDir
            },
            (SaveStep::Removing { error }, _) => SaveStep::Done { result: Err(error) },
            (SaveStep::CreatingDir, Err(error)) => SaveStep::Done {
                result: Ok(
                    "Config sauvegardé. Attention : impossible de créer le dossier ".to_owned().concat(
                        self.directory.as_str(),
                    ).concat(" : ").concat(error.as_str()),
                ),
            },
            (SaveStep::CreatingDir, Ok(_)) => SaveStep::Restarting,
            (SaveStep::Restarting, Err(error)) => SaveStep::Done {
                result: Ok(
                    "Config sauvegardé. Redémarrage du daemon échoué : ".to_owned().concat(
                        error.as_str(),
                    ),
                ),
            },
            (SaveStep::Restarting, Ok(_)) => SaveStep::Done {
                result: Ok("Config sauvegardé et daemon redémarré.".to_owned()),
            },
            (SaveStep::Aborted, _) => SaveStep::Aborted,
            (SaveStep::Done { result }, _) => SaveStep::Done { result },
        };
        let next = SaveConfig {
            storage_path: self.storage_path,
            retain_audio: self.retain_audio,
            config: self.config,
            backup: self.backup,
            temporary: self.temporary,
            directory: self.directory,
            step,
        };
        proof {
            if before.progress is Reading && came is Ok {
                assert(is_update_or_nothing(came->Ok_0, before.settings, written));
                assert(next@ == SaveState { progress: progress_after_update(written), ..before });
            } else {
                assert(next@ == SaveState { progress: progress_after(before, came), ..before });
            }
        }
        next
    }
}

/// Whether a save has begun as [`save_config`] begins one, so that its three files differ.
pub open spec fn is_sound(state: SaveState) -> bool {
    &&& state.backup == state.config + ".bak"@
    &&& state.temporary == state.config + ".tmp"@
}

/// Whether states follow each other from the beginning of a save, each by the outcome of the
/// operation that was due.
pub open spec fn is_save(
    states: Seq<SaveState>,
    outcomes: Seq<Result<Seq<char>, Seq<char>>>,
) -> bool {
    &&& states.len() == outcomes.len() + 1
    &&& is_sound(states[0])
    &&& states[0].progress is Reading
    &&& forall|i: int|
        #![trigger outcomes[i]]
        0 <= i < outcomes.len() ==> goes_on(states[i], outcomes[i], states[i + 1])
}

/// How many operations a save may still have before it, at most.
pub open spec fn operations_left(progress: Progress) -> nat {
    match progress {
        Progress::Reading => 6,
        Progress::BackingUp { .. } => 5,
        Progress::Writing { .. } => 4,
        Progress::Renaming => 3,
        Progress::Removing { .. } => 1,
        Progress::CreatingDir => 2,
        Progress::Restarting => 1,
        Progress::Aborted => 0,
        Progress::Done { .. } => 0,
    }
}

/// A save comes to its end: every operation leaves fewer to do.
pub proof fn law_a_save_ends(
    state: SaveState,
    outcome: Result<Seq<char>, Seq<char>>,
    next: SaveState,
)
    requires
        goes_on(state, outcome, next),
        operations_left(state.progress) > 0,
    ensures
        operations_left(next.progress) < operations_left(state.progress),
{
}

/// The settings and the files of a save never change.
pub proof fn law_a_save_keeps_its_files(
    states: Seq<SaveState>,
    outcomes: Seq<Result<Seq<char>, Seq<char>>>,
    at: int,
)
    requires
        is_save(states, outcomes),
        0 <= at < states.len(),
    ensures
        states[at].settings == states[0].settings,
        states[at].config == states[0].config,
        states[at].directory == states[0].directory,
        is_sound(states[at]),
    decreases at,
{
    if at > 0 {
        law_a_save_keeps_its_files(states, outcomes, at - 1);
        assert(goes_on(states[at - 1], outcomes[at - 1], states[at]));
    }
}

/// The backup comes first: whenever a file is written or moved, the configuration file has
/// been copied to its backup before.
pub proof fn law_backup_comes_first(
    states: Seq<SaveState>,
    outcomes: Seq<Result<Seq<char>, Seq<char>>>,
    at: int,
)
    requires
        is_save(states, outcomes),
        0 <= at < states.len(),
        request_in(states[at]) is WriteFile || request_in(states[at]) is RenameFile || request_in(
            states[at],
        ) is RemoveFile || request_in(states[at]) is CreateDir || request_in(
            states[at],
        ) is RestartDaemon,
    ensures
        exists|before: int|
            0 <= before < at && request_in(#[trigger] states[before]) == (Request::CopyFile {
                from: states[0].config,
                to: states[0].config + ".bak"@,
            }) && outcomes[before] is Ok,
    decreases at,
{
    law_a_save_keeps_its_files(states, outcomes, at);
    if at > 0 {
        law_a_save_keeps_its_files(states, outcomes, at - 1);
        assert(goes_on(states[at - 1], outcomes[at - 1], states[at]));
        if !(states[at - 1].progress is BackingUp) {
            law_backup_comes_first(states, outcomes, at - 1);
        }
    }
}

/// The configuration file is replaced whole or not at all: the only operation that changes it
/// moves the new file over it, and that comes only after the new file was written.
pub proof fn law_config_is_replaced_whole(
    states: Seq<SaveState>,
    outcomes: Seq<Result<Seq<char>, Seq<char>>>,
    at: int,
)
    requires
        is_save(states, outcomes),
        0 <= at < states.len(),
    ensures
        match request_in(states[at]) {
            Request::WriteFile { path, .. } => path == states[0].config + ".tmp"@ && path
                != states[0].config,
            Request::RemoveFile { path } => path == states[0].config + ".tmp"@ && path
                != states[0].config,
            Request::CopyFile { from, to } => from == states[0].config && to
                == states[0].config + ".bak"@ && to != states[0].config,
            Request::RenameFile { from, to } => {
                &&& from == states[0].config + ".tmp"@
                &&& to == states[0].config
                &&& at > 0
                &&& request_in(states[at - 1]) is WriteFile
                &&& outcomes[at - 1] is Ok
            },
            _ => true,
        },
{
    reveal_strlit(".tmp");
    reveal_strlit(".bak");
    law_a_save_keeps_its_files(states, outcomes, at);
    let config = states[0].config;
    assert((config + ".tmp"@).len() != config.len());
    assert((config + ".bak"@).len() != config.len());
    if at > 0 {
        assert(goes_on(states[at - 1], outcomes[at - 1], states[at]));
    }
}

/// A save that ends with an error has not replaced the configuration file, and one that has
/// replaced it ends well, if only with a warning.
pub proof fn law_an_error_leaves_the_config(
    states: Seq<SaveState>,
    outcomes: Seq<Result<Seq<char>, Seq<char>>>,
    at: int,
)
    requires
        is_save(states, outcomes),
        0 <= at < states.len(),
        states[at].progress matches Progress::Done { result } && result is Err
            || states[at].progress is Aborted,
    ensures
        forall|before: int|
            0 <= before < at && request_in(#[trigger] states[before]) is RenameFile
                ==> outcomes[before] is Err,
{
    assert forall|before: int|
        0 <= before < at && request_in(
            #[trigger] states[before],
        ) is RenameFile implies outcomes[before] is Err by {
        assert(goes_on(states[before], outcomes[before], states[before + 1]));
        if outcomes[before] is Ok {
            lemma_after_replacing(states, outcomes, before + 1, at);
        }
    }
}

proof fn lemma_after_replacing(
    states: Seq<SaveState>,
    outcomes: Seq<Result<Seq<char>, Seq<char>>>,
    from: int,
    at: int,
)
    requires
        is_save(states, outcomes),
        0 <= from <= at < states.len(),
        is_after_replacing(states[from].progress),
    ensures
        is_after_replacing(states[at].progress),
    decreases at - from,
{
    if from < at {
        lemma_after_replacing(states, outcomes, from, at - 1);
        assert(goes_on(states[at - 1], outcomes[at - 1], states[at]));
    }
}

/// Whether the configuration file has been replaced.
pub open spec fn is_after_replacing(progress: Progress) -> bool {
    ||| progress is CreatingDir
    ||| progress is Restarting
    ||| progress matches Progress::Done { result } && result is Ok
}

/// What is written is the update: the text that a save writes, always as its third operation,
/// reads as the text that it read first, with the settings of the save written to it.
pub proof fn law_the_update_is_written(
    states: Seq<SaveState>,
    outcomes: Seq<Result<Seq<char>, Seq<char>>>,
    at: int,
    written: Seq<char>,
)
    requires
        is_save(states, outcomes),
        0 <= at < states.len(),
        request_in(states[at]) == (Request::WriteFile {
            path: states[0].config + ".tmp"@,
            content: written,
        }),
    ensures
        at == 2,
        outcomes[0] matches Ok(content) && crate::config::is_updatable(content)
            && crate::config::is_update(content, states[0].settings, Ok(written)),
{
    assert(goes_on(states[0], outcomes[0], states[1])) by {
        assert(outcomes.len() > 0);
    }
    if at != 2 {
        assert(outcomes.len() >= 1);
        if at >= 2 {
            assert(goes_on(states[1], outcomes[1], states[2]));
            lemma_past_writing(states, outcomes, at);
        }
    } else {
        assert(goes_on(states[1], outcomes[1], states[2]));
    }
}

proof fn lemma_past_writing(
    states: Seq<SaveState>,
    outcomes: Seq<Result<Seq<char>, Seq<char>>>,
    at: int,
)
    requires
        is_save(states, outcomes),
        3 <= at < states.len(),
    ensures
        operations_left(states[at].progress) <= 3,
    decreases at,
{
    assert(goes_on(states[0], outcomes[0], states[1]));
    assert(goes_on(states[1], outcomes[1], states[2]));
    assert(goes_on(states[at - 1], outcomes[at - 1], states[at]));
    if at > 3 {
        lemma_past_writing(states, outcomes, at - 1);
    }
}

/// The texts of files, by their paths.
pub type Files = Map<Seq<char>, Seq<char>>;

/// The files after an operation that succeeded; one that failed is taken to leave them alone.
pub open spec fn files_after(
    files: Files,
    request: Request,
    outcome: Result<Seq<char>, Seq<char>>,
) -> Files {
    match (request, outcome) {
        (Request::CopyFile { from, to }, Ok(_)) => files.insert(to, files[from]),
        (Request::WriteFile { path, content }, Ok(_)) => files.insert(path, content),
        (Request::RenameFile { from, to }, Ok(_)) => files.insert(to, files[from]).remove(from),
        (Request::RemoveFile { path }, Ok(_)) => files.remove(path),
        _ => files,
    }
}

/// Whether a save runs on files that nothing else touches: a file that is read has the text
/// that is read, and every operation does to the files what it says.
pub open spec fn runs_on(
    states: Seq<SaveState>,
    outcomes: Seq<Result<Seq<char>, Seq<char>>>,
    files: Seq<Files>,
) -> bool {
    &&& is_save(states, outcomes)
    &&& files.len() == states.len()
    &&& outcomes.len() > 0 && outcomes[0] is Ok ==> files[0].contains_key(states[0].config)
        && outcomes[0]->Ok_0 == files[0][states[0].config]
    &&& forall|i: int|
        #![trigger outcomes[i]]
        0 <= i < outcomes.len() ==> files[i + 1] == files_after(
            files[i],
            request_in(states[i]),
            outcomes[i],
        )
}

/// Whether a save can no longer end well.
pub open spec fn has_failed(progress: Progress) -> bool {
    ||| progress is Removing
    ||| progress is Aborted
    ||| progress matches Progress::Done { result } && result is Err
}

proof fn lemma_failure_stays(
    states: Seq<SaveState>,
    outcomes: Seq<Result<Seq<char>, Seq<char>>>,
    from: int,
    at: int,
)
    requires
        is_save(states, outcomes),
        0 <= from <= at < states.len(),
        has_failed(states[from].progress),
    ensures
        has_failed(states[at].progress),
    decreases at - from,
{
    if from < at {
        lemma_failure_stays(states, outcomes, from, at - 1);
        assert(goes_on(states[at - 1], outcomes[at - 1], states[at]));
    }
}

proof fn lemma_files_stay_once_replaced(
    states: Seq<SaveState>,
    outcomes: Seq<Result<Seq<char>, Seq<char>>>,
    files: Seq<Files>,
    from: int,
    at: int,
)
    requires
        runs_on(states, outcomes, files),
        0 <= from <= at < states.len(),
        is_after_replacing(states[from].progress),
    ensures
        files[at] == files[from],
    decreases at - from,
{
    if from < at {
        lemma_files_stay_once_replaced(states, outcomes, files, from, at - 1);
        lemma_after_replacing(states, outcomes, from, at - 1);
        assert(goes_on(states[at - 1], outcomes[at - 1], states[at]));
        assert(files[at] == files_after(
            files[at - 1],
            request_in(states[at - 1]),
            outcomes[at - 1],
        ));
    }
}

/// A save that ended well has replaced the configuration file by its update and kept the old
/// text as the backup; no other file has changed, and the file that it wrote on the way is
/// gone.
pub proof fn law_a_save_replaces_the_config(
    states: Seq<SaveState>,
    outcomes: Seq<Result<Seq<char>, Seq<char>>>,
    files: Seq<Files>,
)
    requires
        runs_on(states, outcomes, files),
        states.last().progress matches Progress::Done { result } && result is Ok,
    ensures
        ({
            let config = states[0].config;
            let before = files[0];
            let after = files.last();
            &&& before.contains_key(config)
            &&& after.contains_key(config)
            &&& crate::config::is_update(
                before[config],
                states[0].settings,
                Ok(after[config]),
            )
            &&& after == before.insert(config + ".bak"@, before[config]).insert(
                config,
                after[config],
            ).remove(config + ".tmp"@)
            &&& after[config + ".bak"@] == before[config]
        }),
{
    let last = states.len() - 1;
    let config = states[0].config;
    reveal_strlit(".tmp");
    reveal_strlit(".bak");
    let backup = config + ".bak"@;
    let temporary = config + ".tmp"@;
    assert(backup.len() != config.len());
    assert(temporary.len() != config.len());
    assert(backup[config.len() as int + 1] == 'b');
    assert(temporary[config.len() as int + 1] == 't');
    assert forall|i: int| 0 <= i <= last implies !has_failed(#[trigger] states[i].progress) by {
        if has_failed(states[i].progress) {
            lemma_failure_stays(states, outcomes, i, last);
        }
    }
    assert(goes_on(states[0], outcomes[0], states[1]));
    assert(!has_failed(states[1].progress));
    assert(goes_on(states[1], outcomes[1], states[2]));
    assert(!has_failed(states[2].progress));
    assert(goes_on(states[2], outcomes[2], states[3]));
    assert(!has_failed(states[3].progress));
    assert(goes_on(states[3], outcomes[3], states[4]));
    assert(!has_failed(states[4].progress));
    lemma_files_stay_once_replaced(states, outcomes, files, 4, last);
    let content = files[0][config];
    let written = states[2].progress->content;
    assert(files[1] == files[0]);
    assert(files[2] == files[0].insert(backup, content));
    assert(files[3] == files[2].insert(temporary, written));
    assert(files[4] == files[3].insert(config, written).remove(temporary));
    assert(files[4] =~= files[0].insert(backup, content).insert(config, written).remove(temporary));
}

/// Saving the same settings twice is saving them once: a second save that ends well, of the
/// same settings to the file that the first one left, leaves its text as it is, to the letter,
/// and the backup then holds that text too. Left out are files that name the section only in
/// headers such as `[meeting .sub]`: there the second save still takes the blank out.
pub proof fn law_saving_twice_is_saving_once(
    first_states: Seq<SaveState>,
    first_outcomes: Seq<Result<Seq<char>, Seq<char>>>,
    first_files: Seq<Files>,
    states: Seq<SaveState>,
    outcomes: Seq<Result<Seq<char>, Seq<char>>>,
    files: Seq<Files>,
)
    requires
        runs_on(first_states, first_outcomes, first_files),
        first_states.last().progress matches Progress::Done { result } && result is Ok,
        runs_on(states, outcomes, files),
        states.last().progress matches Progress::Done { result } && result is Ok,
        states[0].settings == first_states[0].settings,
        states[0].config == first_states[0].config,
        files[0] == first_files.last(),
        crate::document::toml_parse(first_files[0][states[0].config]) matches Ok(read)
            && !crate::config::is_spaced_group(read),
    ensures
        files.last()[states[0].config] == first_files.last()[states[0].config],
        files.last()[states[0].config + ".bak"@] == first_files.last()[states[0].config],
{
    law_a_save_replaces_the_config(first_states, first_outcomes, first_files);
    law_a_save_replaces_the_config(states, outcomes, files);
    let config = states[0].config;
    crate::config::law_saving_twice_changes_nothing(
        first_files[0][config],
        states[0].settings,
        first_files.last()[config],
        files.last()[config],
    );
}

/// A save carries what it was begun with: the two settings, as they were given, the configuration
/// file, its backup and its replacement beside it, and the storage folder, trimmed and with its
/// tilde replaced; and it begins by reading.
pub proof fn law_a_save_carries_its_settings(
    settings: crate::config::Settings,
    xdg_config_home: Option<&str>,
    home: Option<&str>,
)
    ensures
        ({
            let begun = save_begun(settings, xdg_config_home, home);
            let config = paths::config_file(xdg_config_home, home);
            &&& begun.settings.storage_path == settings.storage_path
            &&& begun.settings.retain_audio == settings.retain_audio
            &&& begun.config == config
            &&& begun.backup == config + ".bak"@
            &&& begun.temporary == config + ".tmp"@
            &&& begun.directory == paths::expanded(text::trimmed(settings.storage_path), home)
            &&& begun.progress is Reading
            &&& is_sound(begun)
        }),
{
}

/// What the user saves is what is read afterwards: a save of a folder and a flag that ends well
/// leaves a configuration file from which that folder and that flag are read.
pub proof fn law_what_is_saved_is_read_back(
    storage_path: Seq<char>,
    retain_audio: bool,
    xdg_config_home: Option<&str>,
    home: Option<&str>,
    states: Seq<SaveState>,
    outcomes: Seq<Result<Seq<char>, Seq<char>>>,
    files: Seq<Files>,
    path: Seq<char>,
)
    requires
        runs_on(states, outcomes, files),
        states[0] == save_begun(
            (crate::config::Settings { storage_path, retain_audio }),
            xdg_config_home,
            home,
        ),
        states.last().progress matches Progress::Done { result } && result is Ok,
    ensures
        ({
            let config = paths::config_file(xdg_config_home, home);
            let before = files[0];
            let after = files.last();
            &&& after.contains_key(config)
            &&& crate::config::is_readable(Some(after[config]))
            &&& crate::config::settings_read(path, Some(after[config])) matches Ok(read)
                && read.storage_path == storage_path && read.retain_audio == retain_audio
            &&& after.contains_key(config + ".bak"@)
            &&& after[config + ".bak"@] == before[config]
        }),
{
    law_a_save_replaces_the_config(states, outcomes, files);
    let config = paths::config_file(xdg_config_home, home);
    crate::config::law_written_file_reads_back(
        files[0][config],
        crate::config::Settings { storage_path, retain_audio },
        files.last()[config],
        path,
    );
    reveal_strlit(".tmp");
    reveal_strlit(".bak");
    assert((config + ".bak"@)[config.len() as int + 1] == 'b');
    assert((config + ".tmp"@)[config.len() as int + 1] == 't');
}

/// What a request holds is what it says.
pub proof fn law_contents_of_a_request(request: SaveRequest)
    ensures
        match request {
            SaveRequest::ReadFile { path } => request@ == (Request::ReadFile { path: path@ }),
            SaveRequest::CopyFile { from, to } => request@ == (Request::CopyFile {
                from: from@,
                to: to@,
            }),
            SaveRequest::WriteFile { path, content } => request@ == (Request::WriteFile {
                path: path@,
                content: content@,
            }),
            SaveRequest::RenameFile { from, to } => request@ == (Request::RenameFile {
                from: from@,
                to: to@,
            }),
            SaveRequest::RemoveFile { path } => request@ == (Request::RemoveFile { path: path@ }),
            SaveRequest::CreateDir { path } => request@ == (Request::CreateDir { path: path@ }),
            SaveRequest::RestartDaemon => request@ is RestartDaemon,
            SaveRequest::Abort => request@ is Abort,
            SaveRequest::Finish { result: Ok(message) } => request@ == (Request::Finish {
                result: Ok(message@),
            }),
            SaveRequest::Finish { result: Err(message) } => request@ == (Request::Finish {
                result: Err(message@),
            }),
        },
{
}

/// What a step holds is what it says.
pub proof fn law_contents_of_a_step(step: SaveStep)
    ensures
        match step {
            SaveStep::Reading => step@ is Reading,
            SaveStep::BackingUp { updated: Some(text) } => step@ == (Progress::BackingUp {
                updated: Some(text@),
            }),
            SaveStep::BackingUp { updated: None } => step@ == (Progress::BackingUp {
                updated: None,
            }),
            SaveStep::Writing { content } => step@ == (Progress::Writing { content: content@ }),
            SaveStep::Renaming => step@ is Renaming,
            SaveStep::Removing { error } => step@ == (Progress::Removing { error: error@ }),
            SaveStep::CreatingDir => step@ is CreatingDir,
            SaveStep::Restarting => step@ is Restarting,
            SaveStep::Aborted => step@ is Aborted,
            SaveStep::Done { result: Ok(message) } => step@ == (Progress::Done {
                result: Ok(message@),
            }),
            SaveStep::Done { result: Err(message) } => step@ == (Progress::Done {
                result: Err(message@),
            }),
        },
{
}

/// What a save asks for: the configuration file is read and copied to its backup, the new text is
/// written to the temporary file, which is moved over the configuration file, or removed if that
/// fails; then the storage folder is created and the daemon restarted.
pub proof fn law_what_a_save_asks_for(state: SaveState)
    ensures
        match state.progress {
            Progress::Reading => request_in(state) == (Request::ReadFile { path: state.config }),
            Progress::BackingUp { .. } => request_in(state) == (Request::CopyFile {
                from: state.config,
                to: state.backup,
            }),
            Progress::Writing { content } => request_in(state) == (Request::WriteFile {
                path: state.temporary,
                content,
            }),
            Progress::Renaming => request_in(state) == (Request::RenameFile {
                from: state.temporary,
                to: state.config,
            }),
            Progress::Removing { .. } => request_in(state) == (Request::RemoveFile {
                path: state.temporary,
            }),
            Progress::CreatingDir => request_in(state) == (Request::CreateDir {
                path: state.directory,
            }),
            Progress::Restarting => request_in(state) is RestartDaemon,
            Progress::Aborted => request_in(state) is Abort,
            Progress::Done { result } => request_in(state) == (Request::Finish { result }),
        },
{
}

/// The settings and the files stay the same from one operation to the next.
pub proof fn law_an_operation_keeps_the_save(
    state: SaveState,
    outcome: Result<Seq<char>, Seq<char>>,
    next: SaveState,
)
    requires
        goes_on(state, outcome, next),
    ensures
        next.settings == state.settings,
        next.config == state.config,
        next.backup == state.backup,
        next.temporary == state.temporary,
        next.directory == state.directory,
{
}

/// A configuration file that was read is updated with the settings of the save and then backed
/// up; one that is no TOML ends the save with the reason; where the settings have no place in
/// it, it is backed up all the same.
pub proof fn law_after_reading(state: SaveState, content: Seq<char>, next: SaveState)
    requires
        goes_on(state, Ok(content), next),
        state.progress is Reading,
    ensures
        match crate::document::toml_parse(content) {
            Err(reason) => next.progress == (Progress::Done {
                result: Err("TOML invalide : "@ + reason),
            }),
            Ok(_) => {
                &&& crate::config::is_updatable(content) ==> (next.progress matches
                    Progress::BackingUp { updated: Some(updated) } && crate::config::is_update(
                    content,
                    state.settings,
                    Ok(updated),
                ))
                &&& !crate::config::is_updatable(content) ==> next.progress == (
                Progress::BackingUp { updated: None })
            },
        },
{
    crate::config::law_when_the_settings_can_be_written(content);
}

/// An operation that succeeds leads to the next one: the backup to the write of the updated text,
/// the write to the move, the move to the storage folder, or straight to the restart where no
/// folder is named, the folder to the restart, and the restart to the end of the save.
pub proof fn law_after_a_success(state: SaveState, outcome: Seq<char>, next: SaveState)
    requires
        goes_on(state, Ok(outcome), next),
    ensures
        state.progress matches Progress::BackingUp { updated: Some(content) } ==> next.progress == (
        Progress::Writing { content }),
        state.progress matches Progress::BackingUp { updated: None } ==> next.progress is Aborted,
        state.progress is Writing ==> next.progress is Renaming,
        state.progress is Renaming && state.directory.len() > 0 ==> next.progress is CreatingDir,
        state.progress is Renaming && state.directory.len() == 0 ==> next.progress is Restarting,
        state.progress is CreatingDir ==> next.progress is Restarting,
        state.progress is Restarting ==> next.progress == (Progress::Done {
            result: Ok("Config sauvegardé et daemon redémarré."@),
        }),
{
}

/// An operation that fails ends the save with a message that says which and why: as an error up
/// to the move, after which the temporary file is removed first, and as a success with a warning
/// once the configuration file has been replaced.
pub proof fn law_after_a_failure(state: SaveState, error: Seq<char>, next: SaveState)
    requires
        goes_on(state, Err(error), next),
    ensures
        state.progress is Reading ==> next.progress == (Progress::Done {
            result: Err("Impossible de lire le config : "@ + error),
        }),
        state.progress is BackingUp ==> next.progress == (Progress::Done {
            result: Err("Impossible de créer le backup "@ + state.backup + " : "@ + error),
        }),
        state.progress is Writing ==> next.progress == (Progress::Done {
            result: Err("Impossible d'écrire le fichier temporaire : "@ + error),
        }),
        state.progress is Renaming ==> next.progress == (Progress::Removing {
            error: "Impossible de remplacer le config : "@ + error,
        }),
        state.progress is CreatingDir ==> next.progress == (Progress::Done {
            result: Ok(
                "Config sauvegardé. Attention : impossible de créer le dossier "@ + state.directory
                    + " : "@ + error,
            ),
        }),
        state.progress is Restarting ==> next.progress == (Progress::Done {
            result: Ok("Config sauvegardé. Redémarrage du daemon échoué : "@ + error),
        }),
{
}

/// Once the temporary file was to be removed the save ends with the error that led there, whether
/// or not that succeeded, and a save that is over stays as it is.
pub proof fn law_a_save_stays_over(
    state: SaveState,
    outcome: Result<Seq<char>, Seq<char>>,
    next: SaveState,
)
    requires
        goes_on(state, outcome, next),
    ensures
        state.progress matches Progress::Removing { error } ==> next.progress == (Progress::Done {
            result: Err(error),
        }),
        state.progress is Done ==> next.progress == state.progress,
        state.progress is Aborted ==> next.progress is Aborted,
{
}

/// What follows an update: a new text is to be backed up for, a reason ends the save, and where
/// there is neither the file is backed up all the same.
pub proof fn law_after_an_update(content: String, reason: String)
    ensures
        progress_after_update(update_result(Some(Ok(content)))) == (Progress::BackingUp {
            updated: Some(content@),
        }),
        progress_after_update(update_result(Some(Err(reason)))) == (Progress::Done {
            result: Err(reason@),
        }),
        progress_after_update(update_result(None)) == (Progress::BackingUp { updated: None }),
{
}

} // verus!
