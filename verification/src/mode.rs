//! What the program is asked to do.

use crate::text;
use vstd::prelude::*;

verus! {

/// What the program is asked to do.
#[derive(Debug, PartialEq)]
pub enum Mode {
    /// Show the tray.
    Tray,
    /// Show the settings window.
    Settings,
    /// Something else, which is not known.
    Unknown { name: String },
}

/// The first argument behind the program's own name, empty if there is none.
pub open spec fn subcommand(args: Seq<Seq<char>>) -> Seq<char> {
    if args.len() > 1 {
        args[1]
    } else {
        Seq::empty()
    }
}

/// What the program is asked to do by its arguments, the first of which is its own name: the
/// tray without a subcommand, the settings window for `settings`.
pub fn mode_of(args: &Vec<String>) -> (result: Mode)
    ensures
        match result {
            Mode::Tray => subcommand(text::texts(args@)).len() == 0,
            Mode::Settings => subcommand(text::texts(args@)) == "settings"@,
            Mode::Unknown { name } => {
                &&& name@ == subcommand(text::texts(args@))
                &&& name@.len() != 0
                &&& name@ != "settings"@
            },
        },
{
    let name = if args.len() > 1 {
        args[1].clone()
    } else {
        String::new()
    };
    if text::same_text(name.as_str(), "settings") {
        Mode::Settings
    } else if name.as_str().is_empty() {
        Mode::Tray
    } else {
        Mode::Unknown { name }
    }
}

/// The subcommand is the second word of the command line, if there is one, and words behind it do
/// not count.
pub proof fn law_subcommand_is_the_second_word(name: Seq<char>, word: Seq<char>, more: Seq<Seq<char>>)
    ensures
        subcommand(seq![name, word] + more) == word,
        subcommand(seq![name]).len() == 0,
        subcommand(Seq::<Seq<char>>::empty()).len() == 0,
{
}

} // verus!
