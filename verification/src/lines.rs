//! Line-oriented text: joining log lines for archival and the proof that
//! splitting recovers them.

use vstd::prelude::*;
use vstd::string::StringExecFns;

verus! {

/// The views of a sequence of owned strings.
pub open spec fn string_views(lines: Seq<String>) -> Seq<Seq<char>> {
    lines.map(|i: int, s: String| s@)
}

/// The text of `lines` written in order, each line newline-terminated.
pub open spec fn joined_lines(lines: Seq<Seq<char>>) -> Seq<char>
    decreases lines.len(),
{
    if lines.len() == 0 {
        Seq::empty()
    } else {
        lines[0] + seq!['\n'] + joined_lines(lines.skip(1))
    }
}

/// Index of the first newline in `text`, or `text.len()` if there is none.
pub open spec fn first_newline(text: Seq<char>) -> int
    decreases text.len(),
{
    if text.len() == 0 {
        0
    } else if text[0] == '\n' {
        0
    } else {
        1 + first_newline(text.skip(1))
    }
}

/// The lines of `text`: each newline ends a line, and a trailing run
/// without a newline is one final line. Empty text has no lines.
pub open spec fn split_lines(text: Seq<char>) -> Seq<Seq<char>>
    decreases text.len() via split_lines_decreases
{
    if text.len() == 0 {
        Seq::empty()
    } else {
        let k = first_newline(text);
        if k >= text.len() {
            seq![text]
        } else {
            seq![text.take(k)] + split_lines(text.skip(k + 1))
        }
    }
}

#[via_fn]
proof fn split_lines_decreases(text: Seq<char>) {
    lemma_first_newline(text);
}

/// `first_newline` points at the first newline: it is in bounds or just
/// past the end, everything before it is not a newline, and when in bounds
/// it is a newline.
pub proof fn lemma_first_newline(text: Seq<char>)
    ensures
        0 <= first_newline(text) <= text.len(),
        first_newline(text) < text.len() ==> text[first_newline(text)] == '\n',
        forall|j: int| 0 <= j < first_newline(text) ==> text[j] != '\n',
    decreases text.len(),
{
    if text.len() == 0 {
    } else if text[0] == '\n' {
    } else {
        lemma_first_newline(text.skip(1));
        assert forall|j: int| 0 <= j < first_newline(text) implies text[j] != '\n' by {
            if j > 0 {
                assert(text.skip(1)[j - 1] == text[j]);
            }
        }
    }
}

/// Joining one more line appends its text and a newline.
proof fn lemma_joined_push(lines: Seq<Seq<char>>, l: Seq<char>)
    ensures
        joined_lines(lines.push(l)) == joined_lines(lines) + l + seq!['\n'],
    decreases lines.len(),
{
    if lines.len() == 0 {
        assert(lines =~~= Seq::<Seq<char>>::empty());
        assert(lines.push(l).skip(1) =~~= Seq::<Seq<char>>::empty());
        assert(joined_lines(Seq::<Seq<char>>::empty()) =~= Seq::<char>::empty());
        assert(joined_lines(lines.push(l)) == lines.push(l)[0] + seq!['\n'] + joined_lines(
            lines.push(l).skip(1),
        ));
        assert(joined_lines(lines.push(l)) =~= joined_lines(lines) + l + seq!['\n']);
    } else {
        assert(lines.push(l).skip(1) =~~= lines.skip(1).push(l));
        lemma_joined_push(lines.skip(1), l);
        assert(joined_lines(lines.push(l)) == lines.push(l)[0] + seq!['\n'] + joined_lines(
            lines.push(l).skip(1),
        ));
        assert(joined_lines(lines.push(l)) =~= joined_lines(lines) + l + seq!['\n']);
    }
}

/// Line round-trip: splitting the joined text of lines that hold no
/// newline themselves gives back exactly those lines.
pub proof fn lemma_lines_round_trip(lines: Seq<Seq<char>>)
    requires
        forall|i: int| 0 <= i < lines.len() ==> !lines[i].contains('\n'),
    ensures
        split_lines(joined_lines(lines)) == lines,
    decreases lines.len(),
{
    if lines.len() == 0 {
    } else {
        let l0 = lines[0];
        let rest = lines.skip(1);
        let text = joined_lines(lines);
        assert(text =~= l0 + seq!['\n'] + joined_lines(rest));
        assert(text[l0.len() as int] == '\n');
        assert(forall|j: int| 0 <= j < l0.len() ==> text[j] == l0[j] && l0.contains(#[trigger] l0[j]));
        lemma_first_newline(text);
        let k = first_newline(text);
        assert(k <= l0.len()) by {
            if k > l0.len() {
                assert(text[l0.len() as int] != '\n');
            }
        }
        assert(k >= l0.len()) by {
            if k < l0.len() {
                assert(text[k] == l0[k]);
                assert(l0.contains(l0[k]));
            }
        }
        assert(text.take(k) =~= l0);
        assert(text.skip(k + 1) =~= joined_lines(rest));
        assert(forall|i: int| 0 <= i < rest.len() ==> !#[trigger] rest[i].contains('\n'));
        lemma_lines_round_trip(rest);
        assert(split_lines(text) =~~= lines);
    }
}

/// Writes each line of `lines` in order, newline-terminated, into one text.
pub fn concat_lines(lines: &Vec<String>) -> (r: String)
    ensures
        r@ == joined_lines(string_views(lines@)),
{
    let mut out = String::new();
    proof {
        reveal_strlit("\n");
        assert(string_views(lines@).take(0) =~~= Seq::<Seq<char>>::empty());
    }
    for i in 0..lines.len()
        invariant
            out@ == joined_lines(string_views(lines@).take(i as int)),
    {
        out.append(lines[i].as_str());
        out.append("\n");
        proof {
            reveal_strlit("\n");
            assert("\n"@ =~= seq!['\n']);
            lemma_joined_push(string_views(lines@).take(i as int), lines@[i as int]@);
            assert(string_views(lines@).take(i as int).push(lines@[i as int]@) =~~= string_views(
                lines@,
            ).take(i + 1));
        }
    }
    proof {
        assert(string_views(lines@).take(lines@.len() as int) =~~= string_views(lines@));
    }
    out
}

} // verus!
