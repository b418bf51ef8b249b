//! The two settings of the configuration file that can be edited, and how they are read and
//! written.

use crate::document;
use crate::text;
use vstd::multiset::Multiset;
use vstd::prelude::*;

verus! {

/// The settings in the configuration file.
#[derive(Debug)]
pub struct CurrentConfig {
    /// Where transcripts and recordings of meetings are stored.
    pub storage_path: String,
    /// Whether recordings are kept after they have been transcribed.
    pub retain_audio: bool,
}

/// The contents of a [`CurrentConfig`].
pub struct Settings {
    pub storage_path: Seq<char>,
    pub retain_audio: bool,
}

impl View for CurrentConfig {
    type V = Settings;

    open spec fn view(&self) -> Settings {
        Settings { storage_path: self.storage_path@, retain_audio: self.retain_audio }
    }
}

/// The path of the setting `storage_path`.
pub open spec fn storage_path_entry() -> Seq<document::Step> {
    document::key_path("meeting"@, "storage_path"@)
}

/// The path of the setting `retain_audio`.
pub open spec fn retain_audio_entry() -> Seq<document::Step> {
    document::key_path("meeting"@, "retain_audio"@)
}

/// The settings for what the two entries hold: a folder that is no string and a flag that is
/// no boolean give way to the defaults.
pub open spec fn settings_or_defaults(
    storage_path: Option<Seq<char>>,
    retain_audio: Option<bool>,
) -> Settings {
    Settings {
        storage_path: match storage_path {
            Some(path) => path,
            None => "~/.local/share/voxtype/meetings/"@,
        },
        retain_audio: match retain_audio {
            Some(flag) => flag,
            None => false,
        },
    }
}

/// The settings for what the two entries hold.
pub fn config_from(storage_path: Option<String>, retain_audio: Option<bool>) -> (result:
    CurrentConfig)
    ensures
        result@ == settings_or_defaults(crate::seen(storage_path), retain_audio),
{
    let storage_path = match storage_path {
        Some(path) => path,
        None => "~/.local/share/voxtype/meetings/".to_owned(),
    };
    let retain_audio = match retain_audio {
        Some(flag) => flag,
        None => false,
    };
    CurrentConfig { storage_path, retain_audio }
}

/// Whether both settings are in a document.
pub open spec fn has_settings(entries: document::Entries) -> bool {
    &&& document::has_key(entries, "meeting"@, "storage_path"@)
    &&& document::has_key(entries, "meeting"@, "retain_audio"@)
}

/// The settings in a document.
pub open spec fn settings_in(entries: document::Entries) -> Settings {
    settings_or_defaults(
        match entries[storage_path_entry()] {
            document::Node::Str(path) => Some(path),
            _ => None,
        },
        match entries[retain_audio_entry()] {
            document::Node::Bool(flag) => Some(flag),
            _ => None,
        },
    )
}

/// What reading the configuration file gives: the settings, or a message that names the file
/// where it could not be read or is no TOML.
pub open spec fn settings_read(path: Seq<char>, content: Option<Seq<char>>) -> Result<
    Settings,
    Seq<char>,
> {
    match content {
        None => Err("Impossible de lire "@ + path),
        Some(content) => match document::toml_parse(content) {
            Err(_) => Err("TOML invalide dans "@ + path),
            Ok(read) => Ok(settings_in(read.entries)),
        },
    }
}

/// Whether a configuration file can be read for its settings: it is missing, it is no TOML,
/// or it has both settings.
pub open spec fn is_readable(content: Option<Seq<char>>) -> bool {
    content matches Some(content) ==> (document::toml_parse(content) matches Ok(read)
        ==> has_settings(read.entries))
}

/// The contents of what reading the configuration file gave.
pub open spec fn config_result(result: Result<CurrentConfig, String>) -> Result<
    Settings,
    Seq<char>,
> {
    match result {
        Ok(config) => Ok(config@),
        Err(message) => Err(message@),
    }
}

/// Reads the settings from the text of the configuration file at `path`; `content` is missing
/// if the file could not be read. Both settings must be in the file.
pub fn read_config(path: &str, content: Option<&str>) -> (result: Result<CurrentConfig, String>)
    requires
        is_readable(crate::seen(content)),
    ensures
        config_result(result) == settings_read(path@, crate::seen(content)),
{
    match content {
        None => Err("Impossible de lire ".to_owned().concat(path)),
        Some(content) => match document::parse_document(content) {
            Err(_) => Err("TOML invalide dans ".to_owned().concat(path)),
            Ok(parsed) => {
                let storage_path = document::str_at(&parsed, "meeting", "storage_path");
                let retain_audio = document::bool_at(&parsed, "meeting", "retain_audio");
                Ok(config_from(storage_path, retain_audio))
            },
        },
    }
}

/// Reads the settings as [`read_config`] does, or gives nothing where the file has no entry
/// for one of them.
pub fn try_read_config(path: &str, content: Option<&str>) -> (result: Option<
    Result<CurrentConfig, String>,
>)
    ensures
        result is Some <==> is_readable(crate::seen(content)),
        result matches Some(read) ==> config_result(read) == settings_read(
            path@,
            crate::seen(content),
        ),
{
    if let Some(content) = content {
        if let Ok(parsed) = document::parse_document(content) {
            if !document::contains_key(&parsed, "meeting", "storage_path")
                || !document::contains_key(&parsed, "meeting", "retain_audio") {
                return None;
            }
        }
    }
    Some(read_config(path, content))
}

/// Checks that a storage folder is not blank.
pub fn validate_storage_path(path: &str) -> (result: Result<(), String>)
    ensures
        result is Ok <==> text::trimmed(path@).len() > 0,
        result matches Err(message) ==> message@
            == "Le dossier de stockage ne peut pas être vide."@,
{
    if text::trim(path).is_empty() {
        Err("Le dossier de stockage ne peut pas être vide.".to_owned())
    } else {
        Ok(())
    }
}

/// Entries with the two settings written to them.
pub open spec fn with_settings(entries: document::Entries, settings: Settings) -> document::Entries {
    document::with_value(
        document::with_value(
            entries,
            "meeting"@,
            "storage_path"@,
            document::Node::Str(settings.storage_path),
        ),
        "meeting"@,
        "retain_audio"@,
        document::Node::Bool(settings.retain_audio),
    )
}

/// The comments that are left when the two settings are written: all but those inside an array
/// or a table that stood in the place of one.
pub open spec fn comments_left(read: document::Reading) -> Multiset<Seq<char>> {
    let left = document::comments_without(read, storage_path_entry());
    if read.entries.contains_key(retain_audio_entry()) && !document::is_plain(
        read.entries[retain_audio_entry()],
    ) {
        left.sub(read.inner_comments[retain_audio_entry()])
    } else {
        left
    }
}

/// Whether an entry is missing or a single value.
pub open spec fn is_plain_or_missing(
    entries: document::Entries,
    path: Seq<document::Step>,
) -> bool {
    entries.contains_key(path) ==> document::is_plain(entries[path])
}

/// The order of the entries other than the section `meeting`, the two settings and what is
/// below them.
pub open spec fn order_of_others(order: Seq<Seq<document::Step>>) -> Seq<Seq<document::Step>> {
    order.filter(
        |path: Seq<document::Step>|
            path != document::section_path("meeting"@) && !document::is_within(
                path,
                storage_path_entry(),
            ) && !document::is_within(path, retain_audio_entry()),
    )
}

/// Whether a setting is in a document, as a single value.
pub open spec fn is_plain_entry(entries: document::Entries, path: Seq<document::Step>) -> bool {
    entries.contains_key(path) && document::is_plain(entries[path])
}

/// Whether the entries of a document stay in their order when the settings are written: all but
/// the settings and their section, and where both settings are single values, those too.
pub open spec fn order_stays(read: document::Reading, order: Seq<Seq<document::Step>>) -> bool {
    &&& order_of_others(order) == order_of_others(read.order)
    &&& is_plain_entry(read.entries, storage_path_entry()) && is_plain_entry(
        read.entries,
        retain_audio_entry(),
    ) ==> order == read.order
}

/// The text of a document once the two settings have been written to it, each between the
/// blanks and comments that stood around the old value.
pub open spec fn text_with_settings(read: document::Reading, settings: Settings) -> Seq<char> {
    document::toml_print(
        document::contents_written(
            document::contents_written(
                read.contents,
                document::decor_of(read, storage_path_entry()),
                "meeting"@,
                "storage_path"@,
                document::Node::Str(settings.storage_path),
            ),
            document::decor_of(read, retain_audio_entry()),
            "meeting"@,
            "retain_audio"@,
            document::Node::Bool(settings.retain_audio),
        ),
    )
}

/// Whether the section `meeting` has no header and no single value in it, and is named in the
/// headers of tables below it with blanks in front of the dot.
pub open spec fn is_spaced_group(read: document::Reading) -> bool {
    &&& read.spaced_groups.contains(document::section_path("meeting"@))
    &&& forall|key: Seq<char>|
        read.entries.contains_key(#[trigger] document::key_path("meeting"@, key))
            ==> !document::is_plain(read.entries[document::key_path("meeting"@, key)])
}

/// Whether settings stand in a document just as they would be written to it.
pub open spec fn stand_written(read: document::Reading, settings: Settings) -> bool {
    &&& document::stands_written(
        read,
        storage_path_entry(),
        document::Node::Str(settings.storage_path),
    )
    &&& document::stands_written(
        read,
        retain_audio_entry(),
        document::Node::Bool(settings.retain_audio),
    )
}

/// Whether a text is the text of a document once the two settings have been written to it.
pub open spec fn is_new_text(read: document::Reading, settings: Settings, text: Seq<char>) -> bool {
    &&& text == text_with_settings(read, settings)
    &&& stand_written(read, settings) && document::all_decorated(read) ==> text
        == document::toml_print(read.contents)
    &&& document::toml_parse(text) matches Ok(new)
    &&& new.entries == with_settings(read.entries, settings)
    &&& new.comments == comments_left(read)
    &&& order_stays(read, new.order)
    &&& stand_written(new, settings)
    &&& document::all_decorated(new)
    &&& !is_spaced_group(read) ==> document::toml_print(new.contents) == text
}

/// Whether the settings can be written to a configuration file: it is no TOML, or its section
/// `meeting` is a table or missing.
pub open spec fn is_updatable(content: Seq<char>) -> bool {
    document::toml_parse(content) matches Ok(read) ==> document::is_writable(
        read.entries,
        "meeting"@,
    )
}

/// Whether `updated` is what writing the settings to a configuration file gives: a message
/// where the file is no TOML, else the text of the document in it once the two settings were
/// written to it.
pub open spec fn is_update(
    content: Seq<char>,
    settings: Settings,
    updated: Result<Seq<char>, Seq<char>>,
) -> bool {
    match document::toml_parse(content) {
        Err(message) => updated == Err::<Seq<char>, _>("TOML invalide : "@ + message),
        Ok(read) => updated matches Ok(text) && is_new_text(read, settings, text),
    }
}

/// The contents of a text or of a message.
pub open spec fn text_result(result: Result<String, String>) -> Result<Seq<char>, Seq<char>> {
    match result {
        Ok(text) => Ok(text@),
        Err(message) => Err(message@),
    }
}

/// Writes the two settings to the text of a configuration file and gives the new text. Every
/// other entry stays, in its order, and so does every comment, unless it is inside an array or
/// a table that a setting replaces. The section `meeting` must be a table or missing.
pub fn update_config(content: &str, storage_path: &str, retain_audio: bool) -> (result: Result<
    String,
    String,
>)
    requires
        is_updatable(content@),
    ensures
        is_update(
            content@,
            (Settings { storage_path: storage_path@, retain_audio }),
            text_result(result),
        ),
{
    match document::parse_document(content) {
        Err(message) => Err("TOML invalide : ".to_owned().concat(message.as_str())),
        Ok(mut parsed) => {
            let ghost read = document::document_reading(parsed);
            document::write_str(&mut parsed, "meeting", "storage_path", storage_path);
            let ghost between = document::document_reading(parsed);
            document::write_bool(&mut parsed, "meeting", "retain_audio", retain_audio);
            proof {
                lemma_both_written(
                    read,
                    between,
                    document::document_reading(parsed),
                    Settings { storage_path: storage_path@, retain_audio },
                );
            }
            Ok(document::print_document(&parsed))
        },
    }
}

/// Writes the settings as [`update_config`] does, or gives nothing where the section `meeting`
/// is no table.
pub fn try_update_config(content: &str, storage_path: &str, retain_audio: bool) -> (result: Option<
    Result<String, String>,
>)
    ensures
        result is Some <==> is_updatable(content@),
        result matches Some(updated) ==> is_update(
            content@,
            (Settings { storage_path: storage_path@, retain_audio }),
            text_result(updated),
        ),
{
    if let Ok(parsed) = document::parse_document(content) {
        if let Some(is_table) = document::section_is_table(&parsed, "meeting") {
            if !is_table {
                return None;
            }
        }
    }
    Some(update_config(content, storage_path, retain_audio))
}

/// What comes of writing the two settings one after the other.
proof fn lemma_both_written(
    read: document::Reading,
    between: document::Reading,
    after: document::Reading,
    settings: Settings,
)
    requires
        document::is_written(
            read,
            between,
            "meeting"@,
            "storage_path"@,
            document::Node::Str(settings.storage_path),
        ),
        document::is_written(
            between,
            after,
            "meeting"@,
            "retain_audio"@,
            document::Node::Bool(settings.retain_audio),
        ),
        read.unplaced == Set::<Seq<document::Step>>::empty(),
    ensures
        after.entries == with_settings(read.entries, settings),
        after.comments == comments_left(read),
        document::decor_of(between, retain_audio_entry()) == document::decor_of(
            read,
            retain_audio_entry(),
        ),
        order_stays(read, after.order),
        read.steady && document::groups_hold_tables(read) && !is_spaced_group(read)
            ==> after.steady,
        stand_written(after, settings),
        stand_written(read, settings) ==> document::stands_written(
            between,
            retain_audio_entry(),
            document::Node::Bool(settings.retain_audio),
        ),
{
    lemma_setting_entries_differ();
    let flag = retain_audio_entry();
    let folder = storage_path_entry();
    assert(flag.take(2) == flag);
    assert(folder.take(2) == folder);
    assert(between.entries.contains_key(flag) == read.entries.contains_key(flag));
    assert(read.entries.contains_key(flag) ==> between.entries[flag] == read.entries[flag]);
    assert(!document::is_within(folder, flag));
    assert(!document::is_within(flag, folder));
    let others = |path: Seq<document::Step>|
        path != document::section_path("meeting"@) && !document::is_within(path, folder)
            && !document::is_within(path, flag);
    let not_folder = |path: Seq<document::Step>|
        path != document::section_path("meeting"@) && !document::is_within(
            path,
            document::key_path("meeting"@, "storage_path"@),
        );
    let not_flag = |path: Seq<document::Step>|
        path != document::section_path("meeting"@) && !document::is_within(
            path,
            document::key_path("meeting"@, "retain_audio"@),
        );
    assert(read.unplaced.subset_of(set![document::section_path("meeting"@)]));
    assert(between.unplaced.subset_of(set![document::section_path("meeting"@)]));
    lemma_filter_twice(read.order, not_folder, others);
    lemma_filter_twice(between.order, not_folder, others);
    lemma_filter_twice(between.order, not_flag, others);
    lemma_filter_twice(after.order, not_flag, others);
}

/// Dropping some items before dropping more makes no difference.
proof fn lemma_filter_twice<T>(s: Seq<T>, wide: spec_fn(T) -> bool, narrow: spec_fn(T) -> bool)
    requires
        forall|item: T| #[trigger] narrow(item) ==> wide(item),
    ensures
        s.filter(wide).filter(narrow) == s.filter(narrow),
    decreases s.len(),
{
    reveal(Seq::filter);
    if s.len() > 0 {
        let front = s.drop_last();
        lemma_filter_twice(front, wide, narrow);
        if wide(s.last()) {
            assert(s.filter(wide) == front.filter(wide).push(s.last()));
            assert(s.filter(wide).drop_last() == front.filter(wide));
        }
    }
}

proof fn lemma_setting_entries_differ()
    ensures
        "storage_path"@ != "retain_audio"@,
        storage_path_entry() != retain_audio_entry(),
        storage_path_entry().len() == 2,
        retain_audio_entry().len() == 2,
{
    reveal_strlit("storage_path");
    reveal_strlit("retain_audio");
    assert("storage_path"@[0] == 's');
    assert("retain_audio"@[0] == 'r');
    assert(storage_path_entry()[1] == document::Step::Key("storage_path"@));
    assert(retain_audio_entry()[1] == document::Step::Key("retain_audio"@));
}

/// What is saved is read back: once the settings have been written, they are both there and
/// have the values that were written.
pub proof fn law_saved_settings_are_read_back(entries: document::Entries, settings: Settings)
    ensures
        has_settings(with_settings(entries, settings)),
        settings_in(with_settings(entries, settings)) == settings,
{
    lemma_setting_entries_differ();
    let first = document::with_value(
        entries,
        "meeting"@,
        "storage_path"@,
        document::Node::Str(settings.storage_path),
    );
    assert(storage_path_entry().take(2) == storage_path_entry());
    assert(first.contains_key(storage_path_entry()));
    assert(with_settings(entries, settings).contains_key(storage_path_entry()));
}

/// A written file reads back: whatever text the settings are written to, reading the new text
/// succeeds and gives the settings that were written.
pub proof fn law_written_file_reads_back(
    content: Seq<char>,
    settings: Settings,
    written: Seq<char>,
    path: Seq<char>,
)
    requires
        is_update(content, settings, Ok(written)),
    ensures
        is_readable(Some(written)),
        settings_read(path, Some(written)) == Ok::<_, Seq<char>>(settings),
{
    let read = document::toml_parse(content)->Ok_0;
    law_saved_settings_are_read_back(read.entries, settings);
}

/// Only the two settings change: every entry that is not one of them, nor below one of them,
/// nor the section itself, is there afterwards exactly if it was there before, with the same
/// value.
pub proof fn law_other_entries_stay(
    entries: document::Entries,
    settings: Settings,
    path: Seq<document::Step>,
)
    requires
        path != seq![document::Step::Key("meeting"@)],
        !document::is_within(path, storage_path_entry()),
        !document::is_within(path, retain_audio_entry()),
    ensures
        with_settings(entries, settings).contains_key(path) == entries.contains_key(path),
        entries.contains_key(path) ==> with_settings(entries, settings)[path] == entries[path],
{
    assert(storage_path_entry().take(2) == storage_path_entry());
    assert(retain_audio_entry().take(2) == retain_audio_entry());
}

/// A section that is a table stays one.
pub proof fn law_section_stays_a_table(entries: document::Entries, settings: Settings)
    ensures
        with_settings(entries, settings).contains_key(seq![document::Step::Key("meeting"@)]),
        with_settings(entries, settings)[seq![document::Step::Key("meeting"@)]] is Table,
{
    assert(seq![document::Step::Key("meeting"@)].len() == 1);
    assert(storage_path_entry().len() == 2);
    assert(retain_audio_entry().len() == 2);
}

/// Every comment stays where the settings were single values, or missing.
pub proof fn law_comments_stay(read: document::Reading)
    requires
        is_plain_or_missing(read.entries, storage_path_entry()),
        is_plain_or_missing(read.entries, retain_audio_entry()),
    ensures
        comments_left(read) == read.comments,
{
}

/// Where an array or a table stood in the place of a setting, a comment is left as often as it
/// stands outside of it.
pub proof fn law_comments_outside_stay(read: document::Reading, comment: Seq<char>)
    ensures
        ({
            let inside = |path: Seq<document::Step>|
                if is_plain_or_missing(read.entries, path) {
                    0
                } else {
                    read.inner_comments[path].count(comment)
                };
            let gone = inside(storage_path_entry()) + inside(retain_audio_entry());
            comments_left(read).count(comment) == if read.comments.count(comment) >= gone {
                read.comments.count(comment) - gone
            } else {
                0
            }
        }),
{
    broadcast use vstd::multiset::group_multiset_axioms;

}

/// Tables and keys stay in their order: a written file names all old entries but the settings and
/// their section in the old order, and if both settings were single values, all entries.
pub proof fn law_order_stays(
    content: Seq<char>,
    settings: Settings,
    written: Seq<char>,
    read: document::Reading,
    new: document::Reading,
)
    requires
        is_update(content, settings, Ok(written)),
        document::toml_parse(content) == Ok::<_, Seq<char>>(read),
        document::toml_parse(written) == Ok::<_, Seq<char>>(new),
    ensures
        order_of_others(new.order) == order_of_others(read.order),
        is_plain_entry(read.entries, storage_path_entry()) && is_plain_entry(
            read.entries,
            retain_audio_entry(),
        ) ==> new.order == read.order,
{
}

/// Saving the same settings twice is saving them once: the second time the text stays as it
/// is, to the letter. Left out are texts that name the section only in headers such as
/// `[meeting .sub]`: the header that it gets makes the blank go at the next save.
pub proof fn law_saving_twice_changes_nothing(
    content: Seq<char>,
    settings: Settings,
    once: Seq<char>,
    twice: Seq<char>,
)
    requires
        is_update(content, settings, Ok(once)),
        is_update(once, settings, Ok(twice)),
        document::toml_parse(content) matches Ok(read) && !is_spaced_group(read),
    ensures
        twice == once,
{
}

/// What a configuration holds is what it says.
pub proof fn law_contents_of_a_config(config: CurrentConfig, message: String)
    ensures
        config@.storage_path == config.storage_path@,
        config@.retain_audio == config.retain_audio,
        config_result(Ok(config)) == Ok::<_, Seq<char>>(config@),
        config_result(Err(message)) == Err::<Settings, _>(message@),
        text_result(Ok(message)) == Ok::<_, Seq<char>>(message@),
        text_result(Err(message)) == Err::<Seq<char>, _>(message@),
{
}

/// The settings are `storage_path` and `retain_audio` in the section `meeting`, and a document has
/// them exactly when that section is a table with both.
pub proof fn law_where_the_settings_stand(entries: document::Entries)
    ensures
        ({
            let section = seq![document::Step::Key("meeting"@)];
            let folder = seq![document::Step::Key("meeting"@), document::Step::Key("storage_path"@)];
            let flag = seq![document::Step::Key("meeting"@), document::Step::Key("retain_audio"@)];
            &&& storage_path_entry() == folder
            &&& retain_audio_entry() == flag
            &&& has_settings(entries) <==> entries.contains_key(section) && entries[section] is Table
                && entries.contains_key(folder) && entries.contains_key(flag)
        }),
{
}

/// A setting that is given is taken as it is, each on its own; one that is missing is
/// `~/.local/share/voxtype/meetings/`, or that audio is not kept.
pub proof fn law_settings_and_their_defaults(
    folder: Seq<char>,
    other_folder: Option<Seq<char>>,
    flag: bool,
    other_flag: Option<bool>,
)
    ensures
        settings_or_defaults(Some(folder), other_flag).storage_path == folder,
        settings_or_defaults(other_folder, Some(flag)).retain_audio == flag,
        settings_or_defaults(None, other_flag).storage_path == "~/.local/share/voxtype/meetings/"@,
        !settings_or_defaults(other_folder, None).retain_audio,
{
}

/// The settings of a document are what stands at their keys: a string is taken for the folder and
/// a boolean for the flag, and anything else there gives way to the default.
pub proof fn law_settings_of_a_document(entries: document::Entries)
    ensures
        ({
            let folder = entries[seq![
                document::Step::Key("meeting"@),
                document::Step::Key("storage_path"@),
            ]];
            let flag = entries[seq![
                document::Step::Key("meeting"@),
                document::Step::Key("retain_audio"@),
            ]];
            &&& folder matches document::Node::Str(text) ==> settings_in(entries).storage_path
                == text
            &&& !(folder is Str) ==> settings_in(entries).storage_path
                == "~/.local/share/voxtype/meetings/"@
            &&& flag matches document::Node::Bool(value) ==> settings_in(entries).retain_audio
                == value
            &&& !(flag is Bool) ==> !settings_in(entries).retain_audio
        }),
{
}

/// Reading the configuration file gives its settings, or names the file that could not be read or
/// is no TOML; it is possible exactly when the file is missing, is no TOML or has both settings.
pub proof fn law_reading_the_config(path: Seq<char>, content: Seq<char>)
    ensures
        settings_read(path, None) == Err::<Settings, _>("Impossible de lire "@ + path),
        is_readable(None),
        match document::toml_parse(content) {
            Err(_) => {
                &&& settings_read(path, Some(content)) == Err::<Settings, _>(
                    "TOML invalide dans "@ + path,
                )
                &&& is_readable(Some(content))
            },
            Ok(read) => {
                &&& settings_read(path, Some(content)) == Ok::<_, Seq<char>>(
                    settings_in(read.entries),
                )
                &&& is_readable(Some(content)) <==> has_settings(read.entries)
            },
        },
{
}

/// The settings can be written exactly when the file is no TOML, or has no section `meeting`, or
/// has a table there.
pub proof fn law_when_the_settings_can_be_written(content: Seq<char>)
    ensures
        match document::toml_parse(content) {
            Err(_) => is_updatable(content),
            Ok(read) => {
                let section = seq![document::Step::Key("meeting"@)];
                is_updatable(content) <==> !read.entries.contains_key(section)
                    || read.entries[section] is Table
            },
        },
{
}

/// Writing the settings to a file that is no TOML gives the reason why it is none, and to any
/// other file a new text.
pub proof fn law_update_of_a_broken_file(
    content: Seq<char>,
    settings: Settings,
    updated: Result<Seq<char>, Seq<char>>,
)
    requires
        is_update(content, settings, updated),
    ensures
        match document::toml_parse(content) {
            Err(reason) => updated == Err::<Seq<char>, _>("TOML invalide : "@ + reason),
            Ok(_) => updated is Ok,
        },
{
}

/// A written file has the settings at their keys, as they were given, and nothing below them; its
/// section is a table; every other entry is as before; and no comment is lost where the settings
/// were single values, or missing.
pub proof fn law_what_a_written_file_holds(
    content: Seq<char>,
    settings: Settings,
    written: Seq<char>,
    read: document::Reading,
    new: document::Reading,
    path: Seq<document::Step>,
)
    requires
        is_update(content, settings, Ok(written)),
        document::toml_parse(content) == Ok::<_, Seq<char>>(read),
        document::toml_parse(written) == Ok::<_, Seq<char>>(new),
    ensures
        ({
            let section = seq![document::Step::Key("meeting"@)];
            let folder = seq![document::Step::Key("meeting"@), document::Step::Key("storage_path"@)];
            let flag = seq![document::Step::Key("meeting"@), document::Step::Key("retain_audio"@)];
            &&& new.entries.contains_key(folder)
            &&& new.entries[folder] == document::Node::Str(settings.storage_path)
            &&& new.entries.contains_key(flag)
            &&& new.entries[flag] == document::Node::Bool(settings.retain_audio)
            &&& new.entries.contains_key(section)
            &&& new.entries[section] is Table
            &&& path != section && !document::is_within(path, folder) && !document::is_within(
                path,
                flag,
            ) ==> new.entries.contains_key(path) == read.entries.contains_key(path) && (
            read.entries.contains_key(path) ==> new.entries[path] == read.entries[path])
            &&& path.len() > 2 && (document::is_within(path, folder) || document::is_within(
                path,
                flag,
            )) ==> !new.entries.contains_key(path)
            &&& is_plain_or_missing(read.entries, folder) && is_plain_or_missing(
                read.entries,
                flag,
            ) ==> new.comments == read.comments
        }),
{
    lemma_setting_entries_differ();
    assert(storage_path_entry().take(2) == storage_path_entry());
    assert(retain_audio_entry().take(2) == retain_audio_entry());
    assert(seq![document::Step::Key("meeting"@)].len() == 1);
    law_saved_settings_are_read_back(read.entries, settings);
    law_section_stays_a_table(read.entries, settings);
    if path != seq![document::Step::Key("meeting"@)] && !document::is_within(
        path,
        storage_path_entry(),
    ) && !document::is_within(path, retain_audio_entry()) {
        law_other_entries_stay(read.entries, settings, path);
    }
}

/// A written file is the old document with the two settings written to it, folder first, each
/// between what stood around the old value, and printed.
pub proof fn law_how_a_file_is_written(
    content: Seq<char>,
    settings: Settings,
    written: Seq<char>,
    read: document::Reading,
)
    requires
        is_update(content, settings, Ok(written)),
        document::toml_parse(content) == Ok::<_, Seq<char>>(read),
    ensures
        ({
            let folder = seq![document::Step::Key("meeting"@), document::Step::Key("storage_path"@)];
            let flag = seq![document::Step::Key("meeting"@), document::Step::Key("retain_audio"@)];
            let once = document::contents_written(
                read.contents,
                document::decor_of(read, folder),
                "meeting"@,
                "storage_path"@,
                document::Node::Str(settings.storage_path),
            );
            let twice = document::contents_written(
                once,
                document::decor_of(read, flag),
                "meeting"@,
                "retain_audio"@,
                document::Node::Bool(settings.retain_audio),
            );
            written == document::toml_print(twice)
        }),
{
}

/// The order of the other entries lists exactly those entries that are neither the section nor a
/// setting nor below one.
pub proof fn law_which_entries_are_the_others(
    order: Seq<Seq<document::Step>>,
    path: Seq<document::Step>,
)
    ensures
        order_of_others(order).contains(path) <==> order.contains(path) && path != seq![
            document::Step::Key("meeting"@),
        ] && !document::is_within(path, storage_path_entry()) && !document::is_within(
            path,
            retain_audio_entry(),
        ),
{
    let others = |path: Seq<document::Step>|
        path != document::section_path("meeting"@) && !document::is_within(
            path,
            storage_path_entry(),
        ) && !document::is_within(path, retain_audio_entry());
    lemma_what_a_filter_keeps(order, others, path);
}

proof fn lemma_what_a_filter_keeps<T>(s: Seq<T>, keep: spec_fn(T) -> bool, item: T)
    ensures
        s.filter(keep).contains(item) <==> s.contains(item) && keep(item),
    decreases s.len(),
{
    reveal(Seq::filter);
    if s.len() > 0 {
        let front = s.drop_last();
        lemma_what_a_filter_keeps(front, keep, item);
        assert(s == front.push(s.last()));
        assert(s.contains(item) <==> front.contains(item) || s.last() == item) by {
            if front.contains(item) {
                let i = front.index_of(item);
                assert(s[i] == item);
            }
            if s.last() == item {
                assert(s[s.len() - 1] == item);
            }
            if s.contains(item) && s.last() != item {
                let i = s.index_of(item);
                assert(front[i] == item);
            }
        }
        if keep(s.last()) {
            let kept = front.filter(keep);
            let all = kept.push(s.last());
            assert(s.filter(keep) == all);
            assert(all.contains(item) <==> kept.contains(item) || s.last() == item) by {
                if kept.contains(item) {
                    let i = kept.index_of(item);
                    assert(all[i] == item);
                }
                if s.last() == item {
                    assert(all[all.len() - 1] == item);
                }
                if all.contains(item) && s.last() != item {
                    let i = all.index_of(item);
                    assert(kept[i] == item);
                }
            }
        }
    }
}

} // verus!
