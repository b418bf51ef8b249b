//! TOML documents that are edited in place, with their comments and their layout.

use toml_edit::DocumentMut;
use vstd::multiset::Multiset;
use vstd::prelude::*;

verus! {

/// One step from a table or an array to an entry in it.
pub enum Step {
    Key(Seq<char>),
    Index(nat),
}

/// What stands at an entry of a document.
pub enum Node {
    /// A string.
    Str(Seq<char>),
    /// A boolean.
    Bool(bool),
    /// A number or a date, as it is written.
    Other(Seq<char>),
    /// An array, or an array of tables; its elements are entries of their own.
    Array,
    /// A table, with a header or inline; what is in it are entries of its own.
    Table,
}

/// The entries of a document, each under the steps that lead to it from the root.
pub type Entries = Map<Seq<Step>, Node>;

/// Whether a node is a single value: no array and no table.
pub open spec fn is_plain(node: Node) -> bool {
    node is Str || node is Bool || node is Other
}

/// The path of a section.
pub open spec fn section_path(section: Seq<char>) -> Seq<Step> {
    seq![Step::Key(section)]
}

/// The path of a key in a section.
pub open spec fn key_path(section: Seq<char>, key: Seq<char>) -> Seq<Step> {
    seq![Step::Key(section), Step::Key(key)]
}

/// Whether a path leads through `root`, or to it.
pub open spec fn is_within(path: Seq<Step>, root: Seq<Step>) -> bool {
    root.len() <= path.len() && path.take(root.len() as int) == root
}

/// Whether there is a section with a given key.
pub open spec fn has_key(entries: Entries, section: Seq<char>, key: Seq<char>) -> bool {
    &&& entries.contains_key(section_path(section))
    &&& entries[section_path(section)] is Table
    &&& entries.contains_key(key_path(section, key))
}

/// Whether a section can be written to: there is none yet, or it is a table.
pub open spec fn is_writable(entries: Entries, section: Seq<char>) -> bool {
    entries.contains_key(section_path(section)) ==> entries[section_path(section)] is Table
}

/// The entries with a value written to a key: it replaces what stood at the key and below
/// it, and a section that is missing is added.
pub open spec fn with_value(
    entries: Entries,
    section: Seq<char>,
    key: Seq<char>,
    value: Node,
) -> Entries {
    let kept = entries.remove_keys(
        Set::new(|path: Seq<Step>| is_within(path, key_path(section, key))),
    );
    kept.insert(section_path(section), Node::Table).insert(key_path(section, key), value)
}

/// What there is to say of a document.
pub struct Reading {
    /// The entries.
    pub entries: Entries,
    /// The comments, each from its `#` to the end of its line.
    pub comments: Multiset<Seq<char>>,
    /// The comments inside each array and each table, in front of the keys in it too, and for
    /// a table with a header those around the header.
    pub inner_comments: Map<Seq<Step>, Multiset<Seq<char>>>,
    /// What stands in front of each value, behind the `=` or the comma, and what stands behind
    /// it, up to the comma or the end of the line: blanks and comments. A value that leaves
    /// either to be chosen when it is printed is not listed.
    pub decors: Map<Seq<Step>, (Seq<char>, Seq<char>)>,
    /// The paths of the entries in the order in which the text that the document prints to
    /// first names them.
    pub order: Seq<Seq<Step>>,
    /// The paths of the strings and booleans that are spelled as `toml_edit::value` spells
    /// them.
    pub default_spellings: Set<Seq<Step>>,
    /// The paths of the tables that print without a header of their own, named only in the
    /// headers of tables below them, and with blanks between their key and the dot behind it.
    pub spaced_groups: Set<Seq<Step>>,
    /// The paths of the tables that print with a header but have no place of their own in the
    /// text: they were named only in other headers until a value was assigned to a key in them,
    /// and print behind the table that is found before them.
    pub unplaced: Set<Seq<Step>>,
    /// Whether printing what is read from the text that the document prints to gives that text
    /// again.
    pub steady: bool,
    /// Everything that the document holds, down to its blanks and its line ends, with each
    /// value as it is spelled when it is printed; in some form.
    pub contents: Seq<char>,
    /// Whether the document is as `DocumentMut::from_str` makes one, or differs from such a
    /// document only by strings and booleans that were assigned to keys, as `toml_edit::value`
    /// makes them or between the blanks and comments that the old value stood between. A
    /// document put together otherwise may have, say, a word where only blanks and comments
    /// can stand, and print to a text that is no TOML.
    pub regular: bool,
}

#[verifier::external_type_specification]
#[verifier::external_body]
pub struct ExDocumentMut(DocumentMut);

/// What there is to say of a document.
pub uninterp spec fn document_reading(document: DocumentMut) -> Reading;

/// What `DocumentMut::from_str` makes of a text: a document, or a message that says what is
/// wrong with the text.
pub uninterp spec fn toml_parse(text: Seq<char>) -> Result<Reading, Seq<char>>;

/// The contents of a document after a value was assigned to a key of a section, as `IndexMut`
/// and `toml_edit::value` do it.
pub uninterp spec fn contents_with_value(
    contents: Seq<char>,
    section: Seq<char>,
    key: Seq<char>,
    value: Node,
) -> Seq<char>;

/// The contents of a document after a value was assigned to a key of a section with what is to
/// stand in front of it and behind it, as `IndexMut` and `Value::decorated` do it.
pub uninterp spec fn contents_with_decorated(
    contents: Seq<char>,
    section: Seq<char>,
    key: Seq<char>,
    value: Node,
    prefix: Seq<char>,
    suffix: Seq<char>,
) -> Seq<char>;

/// The text that `DocumentMut::to_string` makes of the contents of a document.
pub uninterp spec fn toml_print(contents: Seq<char>) -> Seq<char>;

/// Whether every single value is listed with what stands in front of it and behind it.
pub open spec fn all_decorated(reading: Reading) -> bool {
    forall|path: Seq<Step>|
        #![trigger reading.decors.contains_key(path)]
        reading.entries.contains_key(path) && is_plain(reading.entries[path])
            ==> reading.decors.contains_key(path)
}

/// Whether no table that is named only in other headers, with blanks behind its key, has a single
/// value in it.
pub open spec fn groups_hold_tables(reading: Reading) -> bool {
    forall|section: Seq<char>, key: Seq<char>|
        reading.entries.contains_key(#[trigger] key_path(section, key)) && is_plain(
            reading.entries[key_path(section, key)],
        ) ==> !reading.spaced_groups.contains(section_path(section))
}

/// Calls `DocumentMut::from_str`. The document, or the message of the error, depends on the
/// text alone. A document that was read is regular, has blanks, if only empty ones, around every
/// single value and a place for every table with a header, and prints to a text that prints to
/// itself.
///
/// Left unsaid is what rests on the machine: the stack is taken to suffice. The parser follows
/// nested brackets by recursion and refuses to go deeper than some eighty levels, but each
/// bracket that closes what was not opened, in a text that is no TOML, lets it go one level
/// deeper.
#[verifier::external_body]
pub(crate) fn parse_document(text: &str) -> (result: Result<DocumentMut, String>)
    ensures
        match result {
            Ok(document) => {
                &&& toml_parse(text@) == Ok::<_, Seq<char>>(document_reading(document))
                &&& document_reading(document).regular
                &&& document_reading(document).steady
                &&& document_reading(document).unplaced == Set::<Seq<Step>>::empty()
                &&& all_decorated(document_reading(document))
                &&& groups_hold_tables(document_reading(document))
            },
            Err(message) => toml_parse(text@) == Err::<Reading, _>(message@),
        },
{
    text.parse::<DocumentMut>().map_err(|error| error.to_string())
}

/// Whether a text is a faithful print: reading it gives the same entries in the same order, the
/// same comments and the same values in their default spelling, and printing what was read from
/// a steady document gives the text again.
pub open spec fn reads_as(text: Seq<char>, printed: Reading) -> bool {
    &&& toml_parse(text) matches Ok(read)
    &&& read.entries == printed.entries
    &&& read.comments == printed.comments
    &&& read.order == printed.order
    &&& read.default_spellings == printed.default_spellings
    &&& all_decorated(read)
    &&& printed.steady ==> toml_print(read.contents) == text
}

/// Calls `DocumentMut::to_string`. The text depends on the contents of the document alone and
/// is a faithful print of it.
#[verifier::external_body]
pub(crate) fn print_document(document: &DocumentMut) -> (result: String)
    requires
        document_reading(*document).regular,
    ensures
        result@ == toml_print(document_reading(*document).contents),
        reads_as(result@, document_reading(*document)),
{
    document.to_string()
}

/// Calls `Table::get` for the section and `Item::get` for the key, to see whether both are
/// there.
#[verifier::external_body]
pub(crate) fn contains_key(document: &DocumentMut, section: &str, key: &str) -> (result: bool)
    ensures
        result == has_key(document_reading(*document).entries, section@, key@),
{
    document.get(section).and_then(|item| item.get(key)).is_some()
}

/// Calls `Table::get` for the section and `Item::is_table_like` on it: whether the section is
/// a table, or nothing if there is no such entry.
#[verifier::external_body]
pub(crate) fn section_is_table(document: &DocumentMut, section: &str) -> (result: Option<bool>)
    ensures
        ({
            let entries = document_reading(*document).entries;
            let path = section_path(section@);
            result == if entries.contains_key(path) {
                Some(entries[path] is Table)
            } else {
                None
            }
        }),
{
    document.get(section).map(|item| item.is_table_like())
}

/// Indexes a document by section and key, which panics where either is missing, and calls
/// `Item::as_str` on the item: its text, if it is a string.
#[verifier::external_body]
pub(crate) fn str_at(document: &DocumentMut, section: &str, key: &str) -> (result: Option<String>)
    requires
        has_key(document_reading(*document).entries, section@, key@),
    ensures
        match document_reading(*document).entries[key_path(section@, key@)] {
            Node::Str(text) => result matches Some(found) && found@ == text,
            _ => result is None,
        },
{
    document[section][key].as_str().map(|text| text.to_string())
}

/// Indexes a document by section and key, which panics where either is missing, and calls
/// `Item::as_bool` on the item: its value, if it is a boolean.
#[verifier::external_body]
pub(crate) fn bool_at(document: &DocumentMut, section: &str, key: &str) -> (result: Option<bool>)
    requires
        has_key(document_reading(*document).entries, section@, key@),
    ensures
        match document_reading(*document).entries[key_path(section@, key@)] {
            Node::Bool(value) => result == Some(value),
            _ => result is None,
        },
{
    document[section][key].as_bool()
}

/// What stands in front of the value at a path and behind it, if it is listed.
pub open spec fn decor_of(reading: Reading, path: Seq<Step>) -> Option<(Seq<char>, Seq<char>)> {
    if reading.decors.contains_key(path) {
        Some(reading.decors[path])
    } else {
        None
    }
}

/// Calls `Table::get` and `Item::get` for the section and the key, `Item::as_value` and
/// `Value::decor` on what is there, and `Decor::prefix`, `Decor::suffix` and
/// `RawString::as_str`: what stands in front of the value and behind it. There is nothing where
/// there is no such value, or where it leaves either to be chosen when it is printed.
#[verifier::external_body]
pub(crate) fn decor_at(document: &DocumentMut, section: &str, key: &str) -> (result: Option<
    (String, String),
>)
    ensures
        match result {
            Some((prefix, suffix)) => decor_of(
                document_reading(*document),
                key_path(section@, key@),
            ) == Some((prefix@, suffix@)),
            None => decor_of(document_reading(*document), key_path(section@, key@)) is None,
        },
{
    let decor = document.get(section)?.get(key)?.as_value()?.decor();
    let prefix = decor.prefix()?.as_str()?.to_string();
    Some((prefix, decor.suffix()?.as_str()?.to_string()))
}

/// The comments that are left when the entry at a path is replaced by a value that keeps what
/// stands around it: all but those inside the old entry.
pub open spec fn comments_without(reading: Reading, path: Seq<Step>) -> Multiset<Seq<char>> {
    if reading.entries.contains_key(path) && !is_plain(reading.entries[path]) {
        reading.comments.sub(reading.inner_comments[path])
    } else {
        reading.comments
    }
}

/// The order of the entries other than a section, a key in it and what is below the key.
pub open spec fn order_without(
    order: Seq<Seq<Step>>,
    section: Seq<char>,
    key: Seq<char>,
) -> Seq<Seq<Step>> {
    order.filter(
        |path: Seq<Step>|
            path != section_path(section) && !is_within(path, key_path(section, key)),
    )
}

/// Whether a document was changed by writing a value to a key, and not otherwise: no other entry
/// changes, no comment goes but those inside the old entry, and the other entries stay in their
/// order. Of the place of the section nothing is said unless the old entry was a single value,
/// for it may get a header of its own; then blanks behind its key in other headers go when the
/// new text is read. Of the order nothing is said either where another section has no place of
/// its own, for its place may rest on a table that is replaced.
pub open spec fn is_written(
    before: Reading,
    after: Reading,
    section: Seq<char>,
    key: Seq<char>,
    value: Node,
) -> bool {
    let path = key_path(section, key);
    &&& after.regular
    &&& after.entries == with_value(before.entries, section, key, value)
    &&& after.comments == comments_without(before, path)
    &&& before.entries.contains_key(path) && is_plain(before.entries[path]) ==> after.order
        == before.order
    &&& before.unplaced.subset_of(set![section_path(section)]) ==> order_without(
        after.order,
        section,
        key,
    ) == order_without(before.order, section, key)
    &&& after.unplaced.subset_of(before.unplaced.insert(section_path(section)))
    &&& !after.spaced_groups.contains(section_path(section))
    &&& before.steady && !before.spaced_groups.contains(section_path(section)) ==> after.steady
    &&& after.default_spellings == before.default_spellings.filter(
        |other: Seq<Step>| !is_within(other, path),
    ).insert(path)
    &&& forall|other: Seq<char>|
        #![trigger key_path(section, other)]
        other != key ==> {
            let other_path = key_path(section, other);
            &&& decor_of(after, other_path) == decor_of(before, other_path)
            &&& before.entries.contains_key(other_path) ==> after.inner_comments[other_path]
                == before.inner_comments[other_path]
        }
}

/// Indexes a document by section and key, which adds what is missing and panics where the
/// section is no table, and assigns `toml_edit::value` of a text to the item. What the document
/// holds afterwards depends on what it held before, the section, the key and the value alone.
#[verifier::external_body]
fn assign_str(document: &mut DocumentMut, section: &str, key: &str, value: &str)
    requires
        is_writable(document_reading(*old(document)).entries, section@),
        document_reading(*old(document)).regular,
        decor_of(document_reading(*old(document)), key_path(section@, key@)) is None,
    ensures
        is_written(
            document_reading(*old(document)),
            document_reading(*final(document)),
            section@,
            key@,
            Node::Str(value@),
        ),
        document_reading(*final(document)).contents == contents_with_value(
            document_reading(*old(document)).contents,
            section@,
            key@,
            Node::Str(value@),
        ),
{
    document[section][key] = toml_edit::value(value);
}

/// Indexes a document by section and key, which adds what is missing and panics where the
/// section is no table, and assigns `toml_edit::value` of a boolean to the item. What the
/// document holds afterwards depends on what it held before, the section, the key and the value
/// alone.
#[verifier::external_body]
fn assign_bool(document: &mut DocumentMut, section: &str, key: &str, value: bool)
    requires
        is_writable(document_reading(*old(document)).entries, section@),
        document_reading(*old(document)).regular,
        decor_of(document_reading(*old(document)), key_path(section@, key@)) is None,
    ensures
        is_written(
            document_reading(*old(document)),
            document_reading(*final(document)),
            section@,
            key@,
            Node::Bool(value),
        ),
        document_reading(*final(document)).contents == contents_with_value(
            document_reading(*old(document)).contents,
            section@,
            key@,
            Node::Bool(value),
        ),
{
    document[section][key] = toml_edit::value(value);
}

/// Whether a value stands at a path in its default spelling.
pub open spec fn stands_written(reading: Reading, path: Seq<Step>, value: Node) -> bool {
    &&& reading.entries.contains_key(path)
    &&& reading.entries[path] == value
    &&& reading.default_spellings.contains(path)
}

/// Indexes a document by section and key and assigns `toml_edit::value` of a text to the item,
/// given by `Value::decorated` what stood in front of the old value and behind it. What the
/// document holds afterwards depends on what it held before and the other arguments alone, and
/// is the same as before where the same text stood there in the same spelling.
#[verifier::external_body]
fn replace_str(
    document: &mut DocumentMut,
    section: &str,
    key: &str,
    value: &str,
    prefix: &str,
    suffix: &str,
)
    requires
        is_writable(document_reading(*old(document)).entries, section@),
        document_reading(*old(document)).regular,
        decor_of(document_reading(*old(document)), key_path(section@, key@)) == Some(
            (prefix@, suffix@),
        ),
    ensures
        is_written(
            document_reading(*old(document)),
            document_reading(*final(document)),
            section@,
            key@,
            Node::Str(value@),
        ),
        document_reading(*final(document)).contents == contents_with_decorated(
            document_reading(*old(document)).contents,
            section@,
            key@,
            Node::Str(value@),
            prefix@,
            suffix@,
        ),
        stands_written(
            document_reading(*old(document)),
            key_path(section@, key@),
            Node::Str(value@),
        ) ==> document_reading(*final(document)).contents == document_reading(
            *old(document),
        ).contents,
{
    document[section][key] = toml_edit::value(
        toml_edit::Value::from(value).decorated(prefix, suffix),
    );
}

/// Indexes a document by section and key and assigns `toml_edit::value` of a boolean to the
/// item, given by `Value::decorated` what stood in front of the old value and behind it. What
/// the document holds afterwards depends on what it held before and the other arguments alone,
/// and is the same as before where the same boolean stood there.
#[verifier::external_body]
fn replace_bool(
    document: &mut DocumentMut,
    section: &str,
    key: &str,
    value: bool,
    prefix: &str,
    suffix: &str,
)
    requires
        is_writable(document_reading(*old(document)).entries, section@),
        document_reading(*old(document)).regular,
        decor_of(document_reading(*old(document)), key_path(section@, key@)) == Some(
            (prefix@, suffix@),
        ),
    ensures
        is_written(
            document_reading(*old(document)),
            document_reading(*final(document)),
            section@,
            key@,
            Node::Bool(value),
        ),
        document_reading(*final(document)).contents == contents_with_decorated(
            document_reading(*old(document)).contents,
            section@,
            key@,
            Node::Bool(value),
            prefix@,
            suffix@,
        ),
        stands_written(
            document_reading(*old(document)),
            key_path(section@, key@),
            Node::Bool(value),
        ) ==> document_reading(*final(document)).contents == document_reading(
            *old(document),
        ).contents,
{
    document[section][key] = toml_edit::value(
        toml_edit::Value::from(value).decorated(prefix, suffix),
    );
}

/// The contents of a document after a value was written to a key of a section, between the
/// blanks and comments that stood around the old value, if there are any.
pub open spec fn contents_written(
    contents: Seq<char>,
    decor: Option<(Seq<char>, Seq<char>)>,
    section: Seq<char>,
    key: Seq<char>,
    value: Node,
) -> Seq<char> {
    match decor {
        Some((prefix, suffix)) => contents_with_decorated(
            contents,
            section,
            key,
            value,
            prefix,
            suffix,
        ),
        None => contents_with_value(contents, section, key, value),
    }
}

/// Writes a text to a key of a section. The section is added where it is missing, and what
/// stands around the old value stays.
pub(crate) fn write_str(document: &mut DocumentMut, section: &str, key: &str, value: &str)
    requires
        is_writable(document_reading(*old(document)).entries, section@),
        document_reading(*old(document)).regular,
    ensures
        is_written(
            document_reading(*old(document)),
            document_reading(*final(document)),
            section@,
            key@,
            Node::Str(value@),
        ),
        document_reading(*final(document)).contents == contents_written(
            document_reading(*old(document)).contents,
            decor_of(document_reading(*old(document)), key_path(section@, key@)),
            section@,
            key@,
            Node::Str(value@),
        ),
        decor_of(document_reading(*old(document)), key_path(section@, key@)) is Some
            && stands_written(
            document_reading(*old(document)),
            key_path(section@, key@),
            Node::Str(value@),
        ) ==> document_reading(*final(document)).contents == document_reading(
            *old(document),
        ).contents,
{
    match decor_at(document, section, key) {
        Some((prefix, suffix)) => replace_str(
            document,
            section,
            key,
            value,
            prefix.as_str(),
            suffix.as_str(),
        ),
        None => assign_str(document, section, key, value),
    }
}

/// Writes a boolean to a key of a section. The section is added where it is missing, and what
/// stands around the old value stays.
pub(crate) fn write_bool(document: &mut DocumentMut, section: &str, key: &str, value: bool)
    requires
        is_writable(document_reading(*old(document)).entries, section@),
        document_reading(*old(document)).regular,
    ensures
        is_written(
            document_reading(*old(document)),
            document_reading(*final(document)),
            section@,
            key@,
            Node::Bool(value),
        ),
        document_reading(*final(document)).contents == contents_written(
            document_reading(*old(document)).contents,
            decor_of(document_reading(*old(document)), key_path(section@, key@)),
            section@,
            key@,
            Node::Bool(value),
        ),
        decor_of(document_reading(*old(document)), key_path(section@, key@)) is Some
            && stands_written(
            document_reading(*old(document)),
            key_path(section@, key@),
            Node::Bool(value),
        ) ==> document_reading(*final(document)).contents == document_reading(
            *old(document),
        ).contents,
{
    match decor_at(document, section, key) {
        Some((prefix, suffix)) => replace_bool(
            document,
            section,
            key,
            value,
            prefix.as_str(),
            suffix.as_str(),
        ),
        None => assign_bool(document, section, key, value),
    }
}

/// Writing a value puts it under its key, in a section that is a table; what was below the key is
/// gone, and every other entry is there as before.
pub proof fn law_what_writing_a_value_does(
    entries: Entries,
    section: Seq<char>,
    key: Seq<char>,
    value: Node,
    path: Seq<Step>,
)
    ensures
        ({
            let after = with_value(entries, section, key, value);
            let place = seq![Step::Key(section), Step::Key(key)];
            &&& path == place ==> after.contains_key(path) && after[path] == value
            &&& path == seq![Step::Key(section)] ==> after.contains_key(path) && after[path] is Table
            &&& path.len() > 2 && path[0] == Step::Key(section) && path[1] == Step::Key(key)
                ==> !after.contains_key(path)
            &&& path != seq![Step::Key(section)] && !(path.len() >= 2 && path[0] == Step::Key(
                section,
            ) && path[1] == Step::Key(key)) ==> after.contains_key(path) == entries.contains_key(
                path,
            ) && (entries.contains_key(path) ==> after[path] == entries[path])
        }),
{
    let place = key_path(section, key);
    assert(place.len() == 2 && place[0] == Step::Key(section) && place[1] == Step::Key(key));
    assert(seq![Step::Key(section)].len() == 1);
    if path.len() >= 2 {
        assert(path.take(2)[0] == path[0] && path.take(2)[1] == path[1]);
        if path[0] == Step::Key(section) && path[1] == Step::Key(key) {
            assert(path.take(2) =~= place);
        }
    }
}

/// A key is there exactly when its section is a table that has it, and a section can be written to
/// exactly when it is a table or missing.
pub proof fn law_when_a_key_is_there(entries: Entries, section: Seq<char>, key: Seq<char>)
    ensures
        has_key(entries, section, key) <==> entries.contains_key(seq![Step::Key(section)])
            && entries[seq![Step::Key(section)]] is Table && entries.contains_key(
            seq![Step::Key(section), Step::Key(key)],
        ),
        is_writable(entries, section) <==> !entries.contains_key(seq![Step::Key(section)])
            || entries[seq![Step::Key(section)]] is Table,
{
}

/// A value is written between what stood around the old one, if that is known.
pub proof fn law_writing_keeps_the_surroundings(
    contents: Seq<char>,
    section: Seq<char>,
    key: Seq<char>,
    value: Node,
    prefix: Seq<char>,
    suffix: Seq<char>,
)
    ensures
        contents_written(contents, Some((prefix, suffix)), section, key, value)
            == contents_with_decorated(contents, section, key, value, prefix, suffix),
        contents_written(contents, None, section, key, value) == contents_with_value(
            contents,
            section,
            key,
            value,
        ),
{
}

} // verus!
