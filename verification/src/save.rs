//! The persisted work state.
//!
//! Background workers accumulate a cursor URL and a set of pending item
//! identifiers. The daemon must be able to flush that state to durable
//! storage before it confirms a stop, and to load it again at the next
//! start. This module fixes the save format — the URL on the first
//! line, one decimal identifier per following line — and proves that
//! loading what was saved gives the state back.

use vstd::prelude::*;

use crate::numbers::{
    dec_digits, lemma_dec_digits, lemma_digits_no_newline, parse_u128, spec_parse_u128,
    u128_to_string,
};
use crate::text::{lemma_lines_concat, lemma_lines_len, spec_lines, split_lines};

verus! {

/// In-memory progress of the background workers: the URL of the next
/// page to fetch and the identifiers of the items not yet archived.
pub struct Speicherstand {
    pub url: String,
    pub post_ids: Vec<u128>,
}

/// The mathematical value of a `Speicherstand`.
pub struct SpeicherstandView {
    pub url: Seq<char>,
    pub post_ids: Seq<u128>,
}

impl View for Speicherstand {
    type V = SpeicherstandView;

    open spec fn view(&self) -> SpeicherstandView {
        SpeicherstandView { url: self.url@, post_ids: self.post_ids@ }
    }
}

impl Speicherstand {
    /// A fresh, empty work state.
    pub fn new() -> (r: Speicherstand)
        ensures
            r@.url.len() == 0,
            r@.post_ids.len() == 0,
    {
        Speicherstand { url: String::new(), post_ids: Vec::new() }
    }
}

/// The identifier lines of the save text: each identifier in decimal,
/// each followed by a line break.
pub open spec fn spec_encode_ids(ids: Seq<u128>) -> Seq<char>
    decreases ids.len(),
{
    if ids.len() == 0 {
        Seq::empty()
    } else {
        dec_digits(ids[0] as nat) + seq!['\n'] + spec_encode_ids(ids.skip(1))
    }
}

/// The save text: the URL line, then one identifier per line.
pub open spec fn spec_encode(v: SpeicherstandView) -> Seq<char> {
    v.url + seq!['\n'] + spec_encode_ids(v.post_ids)
}

/// What parsing the identifier lines yields: every non-empty line must
/// be an unsigned decimal; empty lines are skipped.
pub open spec fn spec_parse_ids(lines: Seq<Seq<char>>) -> Option<Seq<u128>>
    decreases lines.len(),
{
    if lines.len() == 0 {
        Some(Seq::empty())
    } else if lines[0].len() == 0 {
        spec_parse_ids(lines.skip(1))
    } else {
        match spec_parse_u128(lines[0]) {
            Option::None => Option::None,
            Option::Some(v) => match spec_parse_ids(lines.skip(1)) {
                Option::None => Option::None,
                Option::Some(rest) => Option::Some(seq![v] + rest),
            },
        }
    }
}

/// What loading save text yields: the first line as the URL and the
/// remaining lines as identifiers, or nothing when the text is empty or
/// an identifier line does not parse.
pub open spec fn spec_decode(s: Seq<char>) -> Option<SpeicherstandView> {
    let lines = spec_lines(s);
    if lines.len() == 0 {
        Option::None
    } else {
        match spec_parse_ids(lines.skip(1)) {
            Option::None => Option::None,
            Option::Some(ids) => Option::Some(SpeicherstandView { url: lines[0], post_ids: ids }),
        }
    }
}

/// Renders the identifier lines from position `at` on.
fn encode_ids_from(ids: &Vec<u128>, at: usize) -> (r: String)
    requires
        at <= ids@.len(),
    ensures
        r@ == spec_encode_ids(ids@.skip(at as int)),
    decreases ids@.len() - at,
{
    if at == ids.len() {
        proof {
            assert(ids@.skip(at as int) =~= Seq::<u128>::empty());
        }
        String::new()
    } else {
        let mut r = u128_to_string(ids[at]);
        r.append("\n");
        let tail = encode_ids_from(ids, at + 1);
        r.append(tail.as_str());
        proof {
            reveal_strlit("\n");
            let suffix = ids@.skip(at as int);
            assert(suffix.skip(1) =~= ids@.skip(at + 1));
            assert(r@ =~= spec_encode_ids(suffix));
        }
        r
    }
}

/// Renders the work state as save text.
pub fn write_save(state: &Speicherstand) -> (r: String)
    ensures
        r@ == spec_encode(state@),
{
    let mut r = state.url.clone();
    r.append("\n");
    let ids = encode_ids_from(&state.post_ids, 0);
    r.append(ids.as_str());
    proof {
        reveal_strlit("\n");
        assert(state.post_ids@.skip(0) =~= state.post_ids@);
        assert(r@ =~= spec_encode(state@));
    }
    r
}

/// Parses the identifier lines from position `at` on.
fn parse_ids_from(lines: &Vec<String>, at: usize) -> (r: Option<Vec<u128>>)
    requires
        at <= lines@.len(),
    ensures
        (match r {
            Option::Some(ids) => spec_parse_ids(lines.deep_view().skip(at as int)) == Some(ids@),
            Option::None => spec_parse_ids(lines.deep_view().skip(at as int)) is None,
        }),
    decreases lines@.len() - at,
{
    if at == lines.len() {
        proof {
            assert(lines.deep_view().skip(at as int) =~= Seq::<Seq<char>>::empty());
        }
        Some(Vec::new())
    } else {
        proof {
            assert(lines.deep_view().skip(at as int).skip(1) =~= lines.deep_view().skip(at + 1));
            assert(lines.deep_view().skip(at as int)[0] == lines@[at as int]@);
        }
        if lines[at].as_str().unicode_len() == 0 {
            parse_ids_from(lines, at + 1)
        } else {
            match parse_u128(lines[at].as_str()) {
                Option::None => Option::None,
                Option::Some(v) => match parse_ids_from(lines, at + 1) {
                    Option::None => Option::None,
                    Option::Some(mut rest) => {
                        let ghost tail = rest@;
                        rest.insert(0, v);
                        proof {
                            assert(rest@ =~= seq![v] + tail);
                        }
                        Some(rest)
                    },
                },
            }
        }
    }
}

/// Loads save text back into a work state.
pub fn read_save(content: &str) -> (r: Option<Speicherstand>)
    ensures
        (match r {
            Option::Some(state) => spec_decode(content@) == Some(state@),
            Option::None => spec_decode(content@) is None,
        }),
{
    let lines = split_lines(content);
    if lines.len() == 0 {
        return None;
    }
    let url = lines[0].clone();
    proof {
        assert(lines.deep_view()[0] == lines@[0]@);
    }
    match parse_ids_from(&lines, 1) {
        Option::None => Option::None,
        Option::Some(ids) => Some(Speicherstand { url, post_ids: ids }),
    }
}

/// Round trip for the identifier lines: parsing what was rendered gives
/// the identifiers back.
proof fn lemma_ids_round_trip(ids: Seq<u128>)
    ensures
        spec_parse_ids(spec_lines(spec_encode_ids(ids))) == Some(ids),
    decreases ids.len(),
{
    if ids.len() == 0 {
        assert(spec_lines(spec_encode_ids(ids)).len() == 0) by {
            lemma_lines_len(spec_encode_ids(ids));
        }
        assert(ids =~= Seq::<u128>::empty());
    } else {
        let head = dec_digits(ids[0] as nat);
        let rest = spec_encode_ids(ids.skip(1));
        lemma_dec_digits(ids[0] as nat);
        lemma_digits_no_newline(head);
        lemma_lines_concat(head, rest);
        lemma_ids_round_trip(ids.skip(1));
        let lines = spec_lines(spec_encode_ids(ids));
        assert(lines =~~= seq![head] + spec_lines(rest));
        assert(lines.skip(1) =~~= spec_lines(rest));
        assert(spec_parse_u128(head) == Some(ids[0]));
        assert(spec_parse_ids(lines) == Some(seq![ids[0]] + ids.skip(1)));
        assert(seq![ids[0]] + ids.skip(1) =~= ids);
    }
}

/// LAW — save round trip. Loading the rendered save text of any work
/// state whose URL holds no line break yields exactly that state. This
/// is what lets the daemon promise that state confirmed as flushed is
/// the state the next start resumes from.
pub proof fn lemma_save_round_trip(v: SpeicherstandView)
    requires
        forall|j: int| 0 <= j < v.url.len() ==> v.url[j] != '\n',
    ensures
        spec_decode(spec_encode(v)) == Some(v),
{
    lemma_lines_concat(v.url, spec_encode_ids(v.post_ids));
    let lines = spec_lines(spec_encode(v));
    assert(lines =~~= seq![v.url] + spec_lines(spec_encode_ids(v.post_ids)));
    assert(lines.skip(1) =~~= spec_lines(spec_encode_ids(v.post_ids)));
    lemma_ids_round_trip(v.post_ids);
    let decoded = spec_decode(spec_encode(v));
    assert(decoded matches Some(w) && w == v) by {
        assert(lines[0] == v.url);
    }
}

} // verus!
