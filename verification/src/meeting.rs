//! Reading the output of `voxtype meeting status`.

use crate::state::MeetingState;
use crate::text;
use vstd::prelude::*;

verus! {

/// The status that a lower-case line names, if it is a status line and names one.
pub open spec fn status_named(line: Seq<char>) -> Option<Seq<char>> {
    match text::after_prefix(line, "meeting status:"@) {
        Some(rest) => if text::trimmed(rest).len() == 0 {
            None
        } else {
            Some(text::trimmed(rest))
        },
        None => None,
    }
}

/// The report of the first line that names a status.
pub open spec fn first_status(lines: Seq<Seq<char>>) -> crate::state::MeetingReport
    decreases lines.len(),
{
    if lines.len() == 0 {
        crate::state::MeetingReport::Unknown
    } else {
        match status_named(lines.first()) {
            Some(status) => crate::state::MeetingReport::Active { status },
            None => first_status(lines.drop_first()),
        }
    }
}

/// The report of an output, given in lower case as a whole and line by line.
pub open spec fn report_of_lowered(
    output: Seq<char>,
    lines: Seq<Seq<char>>,
) -> crate::state::MeetingReport {
    if text::occurs("no meeting"@, output) {
        crate::state::MeetingReport::NoMeeting
    } else {
        first_status(lines)
    }
}

/// Texts in lower case, one by one.
pub open spec fn all_lowercase(texts: Seq<Seq<char>>) -> Seq<Seq<char>> {
    Seq::new(texts.len(), |i: int| text::lowercase(texts[i]))
}

/// Texts with their ASCII letters in lower case, one by one.
pub open spec fn all_ascii_lowercase(texts: Seq<Seq<char>>) -> Seq<Seq<char>> {
    Seq::new(texts.len(), |i: int| text::ascii_lowercase(texts[i]))
}

/// The report of an output.
pub open spec fn meeting_report(output: Seq<char>) -> crate::state::MeetingReport {
    report_of_lowered(text::lowercase(output), all_lowercase(text::lines_of(output)))
}

/// The report of an output of ASCII characters.
pub open spec fn ascii_meeting_report(output: Seq<char>) -> crate::state::MeetingReport {
    report_of_lowered(
        text::ascii_lowercase(output),
        text::lines_of(text::ascii_lowercase(output)),
    )
}

/// Reads an output that is already in lower case, as a whole and line by line.
pub fn read_lowered(output: &str, lines: &Vec<String>) -> (result: MeetingState)
    ensures
        result@ == report_of_lowered(output@, text::texts(lines@)),
{
    if text::contains(output, "no meeting") {
        return MeetingState::NoMeeting;
    }
    let ghost all = text::texts(lines@);
    let mut i: usize = 0;
    assert(all.skip(0) == all);
    while i < lines.len()
        invariant
            i <= lines@.len(),
            all == text::texts(lines@),
            first_status(all.skip(i as int)) == first_status(all),
            !text::occurs("no meeting"@, output@),
        decreases lines@.len() - i,
    {
        assert(all.skip(i as int).first() == lines@[i as int]@);
        assert(all.skip(i as int).drop_first() == all.skip(i + 1));
        if let Some(rest) = text::strip_prefix(lines[i].as_str(), "meeting status:") {
            let status = text::trim(rest);
            if !status.is_empty() {
                return MeetingState::Active { status: status.to_owned() };
            }
        }
        i = i + 1;
    }
    MeetingState::Unknown
}

/// Reads the output of `voxtype meeting status`. Upper and lower case count as the same:
/// an output that says `no meeting` anywhere reports none; else the first line that
/// begins with `meeting status:` and names a status reports that status, in lower case;
/// an output without such a line is not understood.
pub fn parse_meeting_status(output: &str) -> (result: MeetingState)
    ensures
        result@ == meeting_report(output@),
        vstd::utf8::is_ascii_chars(output@) ==> result@ == ascii_meeting_report(output@),
{
    let lowered = text::to_lowercase(output);
    let lines = text::lines(output);
    let mut lowered_lines: Vec<String> = Vec::new();
    let ghost all = text::texts(lines@);
    let ghost ascii = vstd::utf8::is_ascii_chars(output@);
    proof {
        if ascii {
            lemma_lines_of_ascii(output@);
        }
    }
    let mut i: usize = 0;
    while i < lines.len()
        invariant
            i <= lines@.len(),
            lowered_lines@.len() == i,
            all == text::texts(lines@),
            ascii ==> forall|j: int|
                0 <= j < all.len() ==> vstd::utf8::is_ascii_chars(#[trigger] all[j]),
            forall|j: int|
                0 <= j < i ==> (#[trigger] lowered_lines@[j])@ == text::lowercase(all[j]),
            ascii ==> forall|j: int|
                0 <= j < i ==> (#[trigger] lowered_lines@[j])@ == text::ascii_lowercase(all[j]),
        decreases lines@.len() - i,
    {
        assert(all[i as int] == lines@[i as int]@);
        let line = text::to_lowercase(lines[i].as_str());
        lowered_lines.push(line);
        i = i + 1;
    }
    proof {
        assert(text::texts(lowered_lines@) =~= all_lowercase(all));
        if ascii {
            assert(text::texts(lowered_lines@) =~= all_ascii_lowercase(all));
            lemma_lines_of_ascii_lowercase(output@);
        }
    }
    read_lowered(lowered.as_str(), &lowered_lines)
}

proof fn lemma_lines_of_ascii(s: Seq<char>)
    requires
        vstd::utf8::is_ascii_chars(s),
    ensures
        forall|j: int|
            0 <= j < text::lines_of(s).len() ==> vstd::utf8::is_ascii_chars(
                #[trigger] text::lines_of(s)[j],
            ),
    decreases s.len(),
{
    text::lemma_first_line_len(s);
    let n = text::first_line_len(s) as int;
    if s.len() != 0 && n != s.len() {
        let line = text::without_return(s.take(n));
        lemma_lines_of_ascii(s.skip(n + 1));
        let tail = text::lines_of(s.skip(n + 1));
        assert(text::lines_of(s) == seq![line] + tail);
        assert forall|j: int| 0 <= j < text::lines_of(s).len() implies vstd::utf8::is_ascii_chars(
            #[trigger] text::lines_of(s)[j],
        ) by {
            if j > 0 {
                assert(text::lines_of(s)[j] == tail[j - 1]);
            }
        }
    }
}

/// Lower case leaves the line ends of an ASCII text where they are.
proof fn lemma_lines_of_ascii_lowercase(s: Seq<char>)
    ensures
        text::lines_of(text::ascii_lowercase(s)) == all_ascii_lowercase(text::lines_of(s)),
    decreases s.len(),
{
    let low = text::ascii_lowercase(s);
    text::lemma_first_line_len(s);
    let n = text::first_line_len(s) as int;
    text::lemma_first_line_ends(low, n);
    if s.len() == 0 {
        assert(all_ascii_lowercase(text::lines_of(s)) =~= Seq::empty());
    } else if n == s.len() {
        assert(all_ascii_lowercase(seq![s]) =~= seq![low]);
    } else {
        lemma_lines_of_ascii_lowercase(s.skip(n + 1));
        assert(low.skip(n + 1) =~= text::ascii_lowercase(s.skip(n + 1)));
        assert(low.take(n) =~= text::ascii_lowercase(s.take(n)));
        let line = text::without_return(s.take(n));
        assert(text::without_return(low.take(n)) =~= text::ascii_lowercase(line));
        assert(all_ascii_lowercase(seq![line] + text::lines_of(s.skip(n + 1))) =~= seq![
            text::ascii_lowercase(line),
        ] + all_ascii_lowercase(text::lines_of(s.skip(n + 1))));
    }
}

/// Case does not matter: two ASCII outputs that differ in nothing but case are read
/// alike.
pub proof fn law_case_does_not_matter(a: Seq<char>, b: Seq<char>)
    requires
        text::ascii_lowercase(a) == text::ascii_lowercase(b),
    ensures
        ascii_meeting_report(a) == ascii_meeting_report(b),
{
}

/// Outputs beyond ASCII are read alike too if they are the same in lower case, as a whole and
/// line by line.
pub proof fn law_only_the_lower_case_counts(a: Seq<char>, b: Seq<char>)
    requires
        text::lowercase(a) == text::lowercase(b),
        all_lowercase(text::lines_of(a)) == all_lowercase(text::lines_of(b)),
    ensures
        meeting_report(a) == meeting_report(b),
{
}

/// Any status counts, known or not: unless the output says that there is no meeting, the
/// first status that it names is the one reported.
pub proof fn law_first_named_status_is_reported(
    output: Seq<char>,
    lines: Seq<Seq<char>>,
    at: int,
    status: Seq<char>,
)
    requires
        !text::occurs("no meeting"@, output),
        0 <= at < lines.len(),
        status_named(lines[at]) == Some(status),
        forall|i: int| 0 <= i < at ==> status_named(#[trigger] lines[i]) is None,
    ensures
        report_of_lowered(output, lines) == (crate::state::MeetingReport::Active { status }),
    decreases at,
{
    if at > 0 {
        assert(status_named(lines[0]) is None);
        law_first_named_status_is_reported(output, lines.drop_first(), at - 1, status);
    }
}

/// An output is not understood exactly when it neither says that there is no meeting nor
/// names a status, and a reported status is never empty.
pub proof fn law_when_an_output_is_not_understood(output: Seq<char>, lines: Seq<Seq<char>>)
    ensures
        report_of_lowered(output, lines) is Unknown <==> !text::occurs("no meeting"@, output) && (
        forall|i: int| 0 <= i < lines.len() ==> status_named(#[trigger] lines[i]) is None),
        report_of_lowered(output, lines) matches crate::state::MeetingReport::Active { status }
            ==> status.len() > 0,
    decreases lines.len(),
{
    if lines.len() > 0 {
        law_when_an_output_is_not_understood(output, lines.drop_first());
        assert(forall|i: int| 0 <= i < lines.len() - 1 ==> lines.drop_first()[i] == lines[i + 1]);
        if status_named(lines[0]) is None && !text::occurs("no meeting"@, output) {
            assert(report_of_lowered(output, lines) == report_of_lowered(
                output,
                lines.drop_first(),
            ));
            assert forall|i: int|
                0 <= i < lines.len() && (forall|j: int|
                    0 <= j < lines.len() - 1 ==> status_named(
                        #[trigger] lines.drop_first()[j],
                    ) is None) implies status_named(#[trigger] lines[i]) is None by {
                if i > 0 {
                    assert(lines.drop_first()[i - 1] == lines[i]);
                }
            }
        }
    }
}

/// A status line is `meeting status:` and a rest that is not blank; the status that it names is
/// the rest, trimmed. No other line names one.
pub proof fn law_status_lines(rest: Seq<char>, line: Seq<char>)
    ensures
        text::trimmed(rest).len() > 0 ==> status_named("meeting status:"@ + rest) == Some(
            text::trimmed(rest),
        ),
        text::trimmed(rest).len() == 0 ==> status_named("meeting status:"@ + rest) is None,
        status_named(line) is Some ==> exists|tail: Seq<char>|
            line == #[trigger] ("meeting status:"@ + tail) && text::trimmed(tail).len() > 0,
{
    text::law_prefix_and_rest("meeting status:"@, rest, line);
}

/// `No meeting`, in any case and anywhere in an output, reports that there is none, and nothing
/// else does.
pub proof fn law_when_there_is_no_meeting(output: Seq<char>)
    ensures
        meeting_report(output) is NoMeeting <==> text::occurs("no meeting"@, text::lowercase(output)),
        ascii_meeting_report(output) is NoMeeting <==> text::occurs(
            "no meeting"@,
            text::ascii_lowercase(output),
        ),
{
    law_when_an_output_is_not_understood(
        text::lowercase(output),
        all_lowercase(text::lines_of(output)),
    );
    lemma_first_status_is_no_denial(all_lowercase(text::lines_of(output)));
    lemma_first_status_is_no_denial(text::lines_of(text::ascii_lowercase(output)));
}

proof fn lemma_first_status_is_no_denial(lines: Seq<Seq<char>>)
    ensures
        !(first_status(lines) is NoMeeting),
    decreases lines.len(),
{
    if lines.len() > 0 {
        lemma_first_status_is_no_denial(lines.drop_first());
    }
}

/// The status of an output is the one on its first line that names one, in lower case: if the
/// lines in front of line `at` name none, and that line is `meeting status:` and `rest`, `rest` is
/// reported, trimmed.
pub proof fn law_status_of_an_output(output: Seq<char>, at: int, rest: Seq<char>)
    requires
        !text::occurs("no meeting"@, text::lowercase(output)),
        0 <= at < text::lines_of(output).len(),
        text::lowercase(text::lines_of(output)[at]) == "meeting status:"@ + rest,
        text::trimmed(rest).len() > 0,
        forall|i: int|
            0 <= i < at ==> status_named(
                text::lowercase(#[trigger] text::lines_of(output)[i]),
            ) is None,
    ensures
        meeting_report(output) == (crate::state::MeetingReport::Active {
            status: text::trimmed(rest),
        }),
{
    let lines = all_lowercase(text::lines_of(output));
    law_status_lines(rest, lines[at]);
    assert forall|i: int| 0 <= i < at implies status_named(#[trigger] lines[i]) is None by {
        assert(lines[i] == text::lowercase(text::lines_of(output)[i]));
    }
    law_first_named_status_is_reported(
        text::lowercase(output),
        lines,
        at,
        text::trimmed(rest),
    );
}

/// The status of an output of ASCII characters, likewise.
pub proof fn law_status_of_an_ascii_output(output: Seq<char>, at: int, rest: Seq<char>)
    requires
        !text::occurs("no meeting"@, text::ascii_lowercase(output)),
        0 <= at < text::lines_of(text::ascii_lowercase(output)).len(),
        text::lines_of(text::ascii_lowercase(output))[at] == "meeting status:"@ + rest,
        text::trimmed(rest).len() > 0,
        forall|i: int|
            0 <= i < at ==> status_named(
                #[trigger] text::lines_of(text::ascii_lowercase(output))[i],
            ) is None,
    ensures
        ascii_meeting_report(output) == (crate::state::MeetingReport::Active {
            status: text::trimmed(rest),
        }),
{
    let lines = text::lines_of(text::ascii_lowercase(output));
    law_status_lines(rest, lines[at]);
    law_first_named_status_is_reported(
        text::ascii_lowercase(output),
        lines,
        at,
        text::trimmed(rest),
    );
}

/// An output that says neither that there is no meeting nor, on any line, what status one has is
/// not understood.
pub proof fn law_other_outputs_are_unknown(output: Seq<char>)
    requires
        !text::occurs("no meeting"@, text::lowercase(output)),
        forall|i: int|
            0 <= i < text::lines_of(output).len() ==> status_named(
                text::lowercase(#[trigger] text::lines_of(output)[i]),
            ) is None,
    ensures
        meeting_report(output) is Unknown,
{
    let lines = all_lowercase(text::lines_of(output));
    assert forall|i: int| 0 <= i < lines.len() implies status_named(#[trigger] lines[i]) is None by {
        assert(lines[i] == text::lowercase(text::lines_of(output)[i]));
    }
    law_when_an_output_is_not_understood(text::lowercase(output), lines);
}

} // verus!
