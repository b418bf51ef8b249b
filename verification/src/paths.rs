//! Where the configuration lives, and how a path with a tilde is read.

use crate::text;
use vstd::prelude::*;

verus! {

/// A path followed by another: an absolute path replaces what it follows, and a separator
/// is added where the first path does not end with one.
pub open spec fn joined(base: Seq<char>, path: Seq<char>) -> Seq<char> {
    if path.len() > 0 && path.first() == '/' {
        path
    } else if base.len() == 0 || base.last() == '/' {
        base + path
    } else {
        base + "/"@ + path
    }
}

/// Joins two Unix paths.
pub fn join(base: &str, path: &str) -> (result: String)
    ensures
        result@ == joined(base@, path@),
{
    let base_len: usize = base.unicode_len();
    let path_len: usize = path.unicode_len();
    if path_len > 0 && path.get_char(0) == '/' {
        path.to_owned()
    } else if base_len == 0 || base.get_char(base_len - 1) == '/' {
        base.to_owned().concat(path)
    } else {
        base.to_owned().concat("/").concat(path)
    }
}

/// The home directory, `/tmp` where `HOME` is not set.
pub open spec fn home_or_tmp(home: Option<&str>) -> Seq<char> {
    match home {
        Some(home) => home@,
        None => "/tmp"@,
    }
}

/// The home directory, from the variable `HOME`.
pub fn home_dir<'a>(home: Option<&'a str>) -> (result: &'a str)
    ensures
        result@ == home_or_tmp(home),
{
    match home {
        Some(home) => home,
        None => "/tmp",
    }
}

/// The configuration file: in `XDG_CONFIG_HOME` where it is set, else in `.config` in the
/// home directory.
pub open spec fn config_file(xdg_config_home: Option<&str>, home: Option<&str>) -> Seq<char> {
    let base = match xdg_config_home {
        Some(base) => base@,
        None => joined(home_or_tmp(home), ".config"@),
    };
    joined(joined(base, "voxtype"@), "config.toml"@)
}

/// The path of the configuration file, from the variables `XDG_CONFIG_HOME` and `HOME`.
pub fn config_path(xdg_config_home: Option<&str>, home: Option<&str>) -> (result: String)
    ensures
        result@ == config_file(xdg_config_home, home),
{
    let base = match xdg_config_home {
        Some(base) => base.to_owned(),
        None => join(home_dir(home), ".config"),
    };
    join(join(base.as_str(), "voxtype").as_str(), "config.toml")
}

/// The path of the backup of the configuration file: `config.toml.bak` beside it.
pub fn backup_path(xdg_config_home: Option<&str>, home: Option<&str>) -> (result: String)
    ensures
        result@ == config_file(xdg_config_home, home) + ".bak"@,
{
    config_path(xdg_config_home, home).concat(".bak")
}

/// The path of the file that replaces the configuration file: `config.toml.tmp` beside it.
pub fn temporary_path(xdg_config_home: Option<&str>, home: Option<&str>) -> (result: String)
    ensures
        result@ == config_file(xdg_config_home, home) + ".tmp"@,
{
    config_path(xdg_config_home, home).concat(".tmp")
}

/// A path with a leading tilde replaced by the home directory.
pub open spec fn expanded(path: Seq<char>, home: Option<&str>) -> Seq<char> {
    match text::after_prefix(path, "~/"@) {
        Some(rest) => joined(home_or_tmp(home), rest),
        None => if path == "~"@ {
            home_or_tmp(home)
        } else {
            path
        },
    }
}

/// Replaces a leading tilde by the home directory.
pub fn expand_tilde(path: &str, home: Option<&str>) -> (result: String)
    ensures
        result@ == expanded(path@, home),
{
    if let Some(rest) = text::strip_prefix(path, "~/") {
        join(home_dir(home), rest)
    } else if text::same_text(path, "~") {
        home_dir(home).to_owned()
    } else {
        path.to_owned()
    }
}

/// The configuration file always ends in `config.toml`; it, its backup and its replacement
/// are three different files.
pub proof fn law_three_different_files(xdg_config_home: Option<&str>, home: Option<&str>)
    ensures
        ({
            let config = config_file(xdg_config_home, home);
            &&& exists|directory: Seq<char>| config == directory + "config.toml"@
            &&& config + ".bak"@ != config
            &&& config + ".tmp"@ != config
            &&& config + ".bak"@ != config + ".tmp"@
        }),
{
    reveal_strlit("config.toml");
    reveal_strlit(".bak");
    reveal_strlit(".tmp");
    let config = config_file(xdg_config_home, home);
    let base = match xdg_config_home {
        Some(base) => base@,
        None => joined(home_or_tmp(home), ".config"@),
    };
    let directory = joined(base, "voxtype"@);
    if directory.len() == 0 || directory.last() == '/' {
        assert(config == directory + "config.toml"@);
    } else {
        assert(config == directory + "/"@ + "config.toml"@);
    }
    assert((config + ".bak"@).len() == config.len() + 4);
    assert((config + ".tmp"@).len() == config.len() + 4);
    assert((config + ".bak"@)[config.len() as int + 1] == 'b');
    assert((config + ".tmp"@)[config.len() as int + 1] == 't');
}

/// Only a leading tilde that stands for the home directory is replaced: every path that is
/// neither `~` nor begins with `~/` stays as it is.
pub proof fn law_other_paths_stay(path: Seq<char>, home: Option<&str>)
    requires
        path.len() == 0 || path[0] != '~' || (path.len() > 1 && path[1] != '/'),
    ensures
        expanded(path, home) == path,
{
    reveal_strlit("~/");
    reveal_strlit("~");
    assert(text::after_prefix(path, "~/"@) is None) by {
        if text::stands_at("~/"@, path, 0) {
            assert(path.subrange(0, 2)[0] == path[0]);
            assert(path.subrange(0, 2)[1] == path[1]);
        }
    }
}

/// A path below the home directory leads there: `~/rest` reads as the home directory, a
/// separator and `rest`.
pub proof fn law_tilde_leads_home(rest: Seq<char>, home: &str)
    requires
        rest.len() == 0 || rest[0] != '/',
        home@.len() > 0,
        home@.last() != '/',
    ensures
        expanded("~/"@ + rest, Some(home)) == home@ + "/"@ + rest,
        expanded("~"@, Some(home)) == home@,
{
    reveal_strlit("~/");
    reveal_strlit("~");
    let path = "~/"@ + rest;
    assert(path.subrange(0, 2) == "~/"@);
    assert(path.skip(2) == rest);
    assert(!text::stands_at("~/"@, "~"@, 0));
}

/// A tilde becomes an absolute path wherever the home directory is one.
pub proof fn law_tilde_becomes_absolute(path: Seq<char>, home: Option<&str>)
    requires
        path == "~"@ || text::stands_at("~/"@, path, 0),
        home_or_tmp(home).len() > 0,
        home_or_tmp(home)[0] == '/',
    ensures
        expanded(path, home).len() > 0,
        expanded(path, home)[0] == '/',
{
    reveal_strlit("~/");
    reveal_strlit("~");
    assert(!text::stands_at("~/"@, "~"@, 0));
}

/// Joining puts exactly one separator between two relative paths, and an absolute path stands for
/// itself.
pub proof fn law_joining_paths(base: Seq<char>, path: Seq<char>)
    ensures
        path.len() > 0 && path[0] == '/' ==> joined(base, path) == path,
        !(path.len() > 0 && path[0] == '/') && base.len() == 0 ==> joined(base, path) == path,
        !(path.len() > 0 && path[0] == '/') && base.len() > 0 && base.last() == '/' ==> joined(
            base,
            path,
        ) == base + path,
        !(path.len() > 0 && path[0] == '/') && base.len() > 0 && base.last() != '/' ==> joined(
            base,
            path,
        ) == base + "/"@ + path,
{
    assert(Seq::<char>::empty() + path == path);
    if base.len() == 0 {
        assert(base == Seq::<char>::empty());
    }
}

/// The home directory is what `HOME` says, or `/tmp`.
pub proof fn law_home_directory(home: &str)
    ensures
        home_or_tmp(Some(home)) == home@,
        home_or_tmp(None) == "/tmp"@,
{
}

/// The configuration file is `voxtype/config.toml` below `XDG_CONFIG_HOME`, which comes before
/// `HOME`.
pub proof fn law_config_below_xdg(base: &str, home: Option<&str>)
    ensures
        base@.len() == 0 ==> config_file(Some(base), home) == "voxtype/config.toml"@,
        base@.len() > 0 && base@.last() == '/' ==> config_file(Some(base), home) == base@
            + "voxtype/config.toml"@,
        base@.len() > 0 && base@.last() != '/' ==> config_file(Some(base), home) == base@
            + "/voxtype/config.toml"@,
{
    reveal_strlit("voxtype");
    reveal_strlit("config.toml");
    reveal_strlit("/");
    reveal_strlit("voxtype/config.toml");
    reveal_strlit("/voxtype/config.toml");
    assert("voxtype"@[0] == 'v' && "voxtype"@.last() == 'e');
    assert("config.toml"@[0] == 'c');
    let directory = joined(base@, "voxtype"@);
    assert(directory.last() == 'e');
    let config = config_file(Some(base), home);
    assert(config == directory + "/"@ + "config.toml"@);
    if base@.len() == 0 {
        assert(config =~= "voxtype/config.toml"@);
    } else if base@.last() == '/' {
        assert(config =~= base@ + "voxtype/config.toml"@);
    } else {
        assert(config =~= base@ + "/voxtype/config.toml"@);
    }
}

/// Without `XDG_CONFIG_HOME` the configuration file is `.config/voxtype/config.toml` below the
/// home directory, or below `/tmp` where there is none.
pub proof fn law_config_below_home(home: &str)
    ensures
        config_file(None, None) == "/tmp/.config/voxtype/config.toml"@,
        home@.len() == 0 ==> config_file(None, Some(home)) == ".config/voxtype/config.toml"@,
        home@.len() > 0 && home@.last() == '/' ==> config_file(None, Some(home)) == home@
            + ".config/voxtype/config.toml"@,
        home@.len() > 0 && home@.last() != '/' ==> config_file(None, Some(home)) == home@
            + "/.config/voxtype/config.toml"@,
{
    reveal_strlit("voxtype");
    reveal_strlit("config.toml");
    reveal_strlit(".config");
    reveal_strlit("/");
    reveal_strlit("/tmp");
    reveal_strlit("/tmp/.config/voxtype/config.toml");
    reveal_strlit(".config/voxtype/config.toml");
    reveal_strlit("/.config/voxtype/config.toml");
    assert(".config"@[0] == '.' && ".config"@.last() == 'g');
    assert("voxtype"@[0] == 'v' && "voxtype"@.last() == 'e');
    assert("config.toml"@[0] == 'c');
    assert("/tmp"@.last() == 'p');
    let base = joined(home@, ".config"@);
    assert(base.last() == 'g');
    let config = config_file(None, Some(home));
    assert(config == base + "/"@ + "voxtype"@ + "/"@ + "config.toml"@);
    if home@.len() == 0 {
        assert(config =~= ".config/voxtype/config.toml"@);
    } else if home@.last() == '/' {
        assert(config =~= home@ + ".config/voxtype/config.toml"@);
    } else {
        assert(config =~= home@ + "/.config/voxtype/config.toml"@);
    }
    let none = joined("/tmp"@, ".config"@);
    assert(none.last() == 'g');
    assert(config_file(None, None) == none + "/"@ + "voxtype"@ + "/"@ + "config.toml"@);
    assert(config_file(None, None) =~= "/tmp/.config/voxtype/config.toml"@);
}

/// A tilde stands for the home directory: `~` is the home directory, and `~/rest` is `rest` joined
/// to it.
pub proof fn law_tilde_stands_for_home(rest: Seq<char>, home: Option<&str>)
    ensures
        expanded("~"@, home) == home_or_tmp(home),
        expanded("~/"@ + rest, home) == joined(home_or_tmp(home), rest),
{
    reveal_strlit("~/");
    reveal_strlit("~");
    text::law_prefix_and_rest("~/"@, rest, "~/"@ + rest);
    assert(!text::stands_at("~/"@, "~"@, 0));
}

} // verus!
