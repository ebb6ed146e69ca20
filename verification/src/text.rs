//! Plain-text helpers shared by the control plane: splitting text into
//! lines, joining lines back together, and picking the first line of a
//! file's content.
//!
//! A line break is a single `'\n'`. A trailing `'\n'` ends the last line
//! and does not open an empty one, matching what a line-oriented reader
//! of the persisted files sees.

use vstd::prelude::*;

verus! {

/// The lines of `s`, split on `'\n'`. Empty text has no lines; a final
/// `'\n'` closes the last line without opening a new one.
pub open spec fn spec_lines(s: Seq<char>) -> Seq<Seq<char>>
    decreases s.len(),
{
    if s.len() == 0 {
        Seq::empty()
    } else if s[0] == '\n' {
        seq![Seq::<char>::empty()] + spec_lines(s.skip(1))
    } else {
        let rest = spec_lines(s.skip(1));
        if rest.len() == 0 {
            seq![seq![s[0]]]
        } else {
            seq![seq![s[0]] + rest[0]] + rest.skip(1)
        }
    }
}

/// The first line of `s`: everything before the first `'\n'`, or all of
/// `s` when it holds none.
pub open spec fn spec_first_line(s: Seq<char>) -> Seq<char>
    decreases s.len(),
{
    if s.len() == 0 {
        Seq::empty()
    } else if s[0] == '\n' {
        Seq::empty()
    } else {
        seq![s[0]] + spec_first_line(s.skip(1))
    }
}

/// The lines joined with a single `'\n'` between consecutive lines and
/// nothing at either end.
pub open spec fn spec_join_lines(ls: Seq<Seq<char>>) -> Seq<char>
    decreases ls.len(),
{
    if ls.len() == 0 {
        Seq::empty()
    } else if ls.len() == 1 {
        ls[0]
    } else {
        ls[0] + seq!['\n'] + spec_join_lines(ls.skip(1))
    }
}

/// Only empty text has no lines.
pub proof fn lemma_lines_len(s: Seq<char>)
    ensures
        s.len() == 0 <==> spec_lines(s).len() == 0,
    decreases s.len(),
{
    if s.len() != 0 && s[0] != '\n' {
        lemma_lines_len(s.skip(1));
    }
}

/// Text without a line break is a single line.
proof fn lemma_lines_no_newline(s: Seq<char>)
    requires
        s.len() > 0,
        forall|j: int| 0 <= j < s.len() ==> s[j] != '\n',
    ensures
        spec_lines(s) =~= seq![s],
    decreases s.len(),
{
    if s.len() == 1 {
        assert(spec_lines(s.skip(1)).len() == 0) by {
            lemma_lines_len(s.skip(1));
        }
        assert(seq![s[0]] =~= s);
    } else {
        lemma_lines_no_newline(s.skip(1));
        assert(seq![s[0]] + s.skip(1) =~= s);
    }
}

/// Splitting `a + '\n' + r` yields `a` and then the lines of `r`,
/// provided `a` holds no line break of its own.
pub proof fn lemma_lines_concat(a: Seq<char>, r: Seq<char>)
    requires
        forall|j: int| 0 <= j < a.len() ==> a[j] != '\n',
    ensures
        spec_lines(a + seq!['\n'] + r) =~~= seq![a] + spec_lines(r),
    decreases a.len(),
{
    let s = a + seq!['\n'] + r;
    if a.len() == 0 {
        assert(s[0] == '\n');
        assert(s.skip(1) =~= r);
    } else {
        assert(s[0] == a[0]);
        assert(s.skip(1) =~= a.skip(1) + seq!['\n'] + r);
        lemma_lines_concat(a.skip(1), r);
        let rest = spec_lines(s.skip(1));
        assert(rest.len() > 0);
        assert(rest[0] == a.skip(1));
        assert(seq![s[0]] + rest[0] =~= a);
        assert(rest.skip(1) =~= spec_lines(r));
    }
}

/// The first line is the prefix of `s` up to `stop`, when `stop` is the
/// position of the first `'\n'` (or the length when there is none).
proof fn lemma_first_line_take(s: Seq<char>, stop: int)
    requires
        0 <= stop <= s.len(),
        forall|j: int| 0 <= j < stop ==> s[j] != '\n',
        stop < s.len() ==> s[stop] == '\n',
    ensures
        spec_first_line(s) =~= s.take(stop),
    decreases stop,
{
    if s.len() == 0 || s[0] == '\n' {
        assert(stop == 0);
    } else {
        lemma_first_line_take(s.skip(1), stop - 1);
        assert(seq![s[0]] + s.skip(1).take(stop - 1) =~= s.take(stop));
    }
}

/// The character position of the first `'\n'` in `s`, or the character
/// length of `s` when it holds none.
fn find_newline(s: &str) -> (i: usize)
    ensures
        i <= s@.len(),
        forall|j: int| 0 <= j < i ==> s@[j] != '\n',
        i < s@.len() ==> s@[i as int] == '\n',
{
    let n = s.unicode_len();
    let mut i: usize = 0;
    while i < n
        invariant
            n == s@.len(),
            i <= n,
            forall|j: int| 0 <= j < i ==> s@[j] != '\n',
        decreases n - i,
    {
        if s.get_char(i) == '\n' {
            return i;
        }
        i = i + 1;
    }
    i
}

/// The first line of `s`, as a line-oriented reader of a file sees it.
pub fn first_line(s: &str) -> (r: String)
    ensures
        r@ == spec_first_line(s@),
{
    let stop = find_newline(s);
    let prefix = s.substring_char(0, stop);
    proof {
        lemma_first_line_take(s@, stop as int);
        assert(prefix@ =~= s@.take(stop as int));
    }
    prefix.to_owned()
}

/// The lines of `s`, split on `'\n'`.
pub fn split_lines(s: &str) -> (r: Vec<String>)
    ensures
        r.deep_view() =~~= spec_lines(s@),
{
    let n = s.unicode_len();
    let mut done: Vec<String> = Vec::new();
    let mut start: usize = 0;
    let mut i: usize = 0;
    proof {
        assert(done.deep_view() =~= Seq::<Seq<char>>::empty());
        assert(s@.skip(0) =~= s@);
    }
    while i < n
        invariant
            n == s@.len(),
            start <= i <= n,
            forall|j: int| start <= j < i ==> s@[j] != '\n',
            spec_lines(s@) =~~= done.deep_view() + spec_lines(s@.skip(start as int)),
        decreases n - i,
    {
        if s.get_char(i) == '\n' {
            let ghost old_done = done.deep_view();
            let line = s.substring_char(start, i);
            done.push(line.to_owned());
            proof {
                let seg = s@.subrange(start as int, i as int);
                assert(s@.skip(start as int) =~= seg + seq!['\n'] + s@.skip(i + 1));
                lemma_lines_concat(seg, s@.skip(i + 1));
                assert(done.deep_view() =~~= old_done + seq![seg]);
            }
            start = i + 1;
        }
        i = i + 1;
    }
    if start < n {
        let ghost old_done = done.deep_view();
        let line = s.substring_char(start, n);
        done.push(line.to_owned());
        proof {
            let seg = s@.subrange(start as int, n as int);
            assert(s@.skip(start as int) =~= seg);
            lemma_lines_no_newline(seg);
            assert(done.deep_view() =~~= old_done + seq![seg]);
        }
    } else {
        proof {
            assert(s@.skip(start as int) =~= Seq::<char>::empty());
        }
    }
    done
}

/// Joins lines from position `at` on with `'\n'` between consecutive
/// lines.
fn join_lines_from(ls: &Vec<String>, at: usize) -> (r: String)
    requires
        at <= ls@.len(),
    ensures
        r@ == spec_join_lines(ls.deep_view().skip(at as int)),
    decreases ls@.len() - at,
{
    if at == ls.len() {
        proof {
            assert(ls.deep_view().skip(at as int) =~= Seq::<Seq<char>>::empty());
        }
        String::new()
    } else if at + 1 == ls.len() {
        proof {
            assert(ls.deep_view().skip(at as int) =~= seq![ls@[at as int]@]);
        }
        ls[at].clone()
    } else {
        let mut r = ls[at].clone();
        r.append("\n");
        let tail = join_lines_from(ls, at + 1);
        r.append(tail.as_str());
        proof {
            reveal_strlit("\n");
            let suffix = ls.deep_view().skip(at as int);
            assert(suffix.skip(1) =~= ls.deep_view().skip(at + 1));
            assert(suffix[0] == ls@[at as int]@);
            assert(r@ =~= spec_join_lines(suffix));
        }
        r
    }
}

/// The lines joined with a single `'\n'` between consecutive lines.
pub fn join_lines(ls: &Vec<String>) -> (r: String)
    ensures
        r@ == spec_join_lines(ls.deep_view()),
{
    let r = join_lines_from(ls, 0);
    proof {
        assert(ls.deep_view().skip(0) =~= ls.deep_view());
    }
    r
}

/// The line shown for a stored single-line record: its first line, or
/// the empty-file notice when the file holds nothing.
pub fn displayed_first_line(content: &str) -> (r: String)
    ensures
        content@.len() == 0 ==> r@ == "Datei leer."@,
        content@.len() > 0 ==> r@ == spec_first_line(content@),
{
    if content.is_empty() {
        "Datei leer.".to_owned()
    } else {
        first_line(content)
    }
}

/// The lines of `ls` that hold at least one character, in order.
pub open spec fn spec_keep_nonempty(ls: Seq<Seq<char>>) -> Seq<Seq<char>>
    decreases ls.len(),
{
    if ls.len() == 0 {
        Seq::empty()
    } else if ls[0].len() > 0 {
        seq![ls[0]] + spec_keep_nonempty(ls.skip(1))
    } else {
        spec_keep_nonempty(ls.skip(1))
    }
}

/// A command's captured output, formatted for display: the non-empty
/// lines of its standard output joined with line breaks, directly
/// followed by the non-empty lines of its standard error joined the
/// same way.
pub open spec fn spec_command_output(out: Seq<char>, err: Seq<char>) -> Seq<char> {
    spec_join_lines(spec_keep_nonempty(spec_lines(out))) + spec_join_lines(
        spec_keep_nonempty(spec_lines(err)),
    )
}

/// The lines from position `at` on that hold at least one character.
fn keep_nonempty_from(ls: &Vec<String>, at: usize) -> (r: Vec<String>)
    requires
        at <= ls@.len(),
    ensures
        r.deep_view() == spec_keep_nonempty(ls.deep_view().skip(at as int)),
    decreases ls@.len() - at,
{
    if at == ls.len() {
        let empty: Vec<String> = Vec::new();
        proof {
            assert(ls.deep_view().skip(at as int) =~= Seq::<Seq<char>>::empty());
            assert(empty.deep_view() =~= Seq::<Seq<char>>::empty());
        }
        empty
    } else {
        proof {
            assert(ls.deep_view().skip(at as int).skip(1) =~= ls.deep_view().skip(at + 1));
            assert(ls.deep_view().skip(at as int)[0] == ls@[at as int]@);
        }
        let mut rest = keep_nonempty_from(ls, at + 1);
        if ls[at].as_str().is_empty() {
            rest
        } else {
            let ghost tail = rest.deep_view();
            rest.insert(0, ls[at].clone());
            proof {
                assert(rest.deep_view() =~~= seq![ls@[at as int]@] + tail);
            }
            rest
        }
    }
}

/// Formats a command's captured output for display: the non-empty lines
/// of its standard output, then those of its standard error, each block
/// joined with line breaks.
pub fn command_output_formater(stdout: &str, stderr: &str) -> (r: String)
    ensures
        r@ == spec_command_output(stdout@, stderr@),
{
    let out_lines = split_lines(stdout);
    let err_lines = split_lines(stderr);
    let out_kept = keep_nonempty_from(&out_lines, 0);
    let err_kept = keep_nonempty_from(&err_lines, 0);
    proof {
        assert(out_lines.deep_view().skip(0) =~= out_lines.deep_view());
        assert(err_lines.deep_view().skip(0) =~= err_lines.deep_view());
    }
    let mut r = join_lines(&out_kept);
    let err_joined = join_lines(&err_kept);
    r.append(err_joined.as_str());
    r
}

/// Whether two pieces of text hold the same characters.
pub fn str_eq(a: &str, b: &str) -> (r: bool)
    ensures
        r == (a@ == b@),
{
    let a_owned: String = a.to_owned();
    let b_owned: String = b.to_owned();
    a_owned == b_owned
}

} // verus!
