//! Reading the list of references that a remote repository reports: one
//! reference per line, the commit first, then the reference's name.

use vstd::prelude::*;
use crate::text::{chars_of, joined, opt_chars, same_text, string_of};

verus! {

/// Whether `c` has the Unicode property White_Space, as `char::is_whitespace`
/// of the standard library reports it.
pub uninterp spec fn white_space(c: char) -> bool;

/// Asks `char::is_whitespace` whether `c` is white space. The answer is taken
/// as given: nothing is claimed about which characters those are.
#[verifier::external_body]
fn is_space(c: char) -> (r: bool)
    ensures
        r == white_space(c),
{
    c.is_whitespace()
}

/// A reference of a remote repository, as a mathematical value.
pub struct RefView {
    pub name: Seq<char>,
    pub hash: Seq<char>,
}

/// A reference of a remote repository and the commit it points to.
#[derive(Debug, PartialEq, Eq)]
pub struct RemoteRef {
    pub name: String,
    pub hash: String,
}

impl View for RemoteRef {
    type V = RefView;

    open spec fn view(&self) -> RefView {
        RefView { name: self.name@, hash: self.hash@ }
    }
}

/// The views of a list of references.
pub open spec fn ref_views(refs: Seq<RemoteRef>) -> Seq<RefView> {
    refs.map_values(|r: RemoteRef| r@)
}

/// For each character of `s`, whether it is white space.
pub open spec fn space_map(s: Seq<char>) -> Seq<bool> {
    s.map_values(|c: char| white_space(c))
}

/// Whether `spaces` marks position `i` as white space. A position that it
/// does not reach counts as part of a word.
pub open spec fn space_at(spaces: Seq<bool>, i: int) -> bool {
    0 <= i < spaces.len() && spaces[i]
}

/// The first position in `from..to` that holds no white space, or `to`.
pub open spec fn skip_spaces(spaces: Seq<bool>, from: int, to: int) -> int
    decreases to - from,
{
    if from < to && space_at(spaces, from) {
        skip_spaces(spaces, from + 1, to)
    } else {
        from
    }
}

/// The first position in `from..to` that holds white space, or `to`.
pub open spec fn skip_word(spaces: Seq<bool>, from: int, to: int) -> int
    decreases to - from,
{
    if from < to && !space_at(spaces, from) {
        skip_word(spaces, from + 1, to)
    } else {
        from
    }
}

/// The first position at or after `from` that holds a line feed, or the end
/// of `s`.
pub open spec fn line_end(s: Seq<char>, from: int) -> int
    decreases s.len() - from,
{
    if 0 <= from < s.len() && s[from] != '\n' {
        line_end(s, from + 1)
    } else {
        from
    }
}

/// The reference that the line `s[from..to]` declares: its first word is the
/// commit, its second the name. A line of fewer than two words declares none.
pub open spec fn line_ref(s: Seq<char>, spaces: Seq<bool>, from: int, to: int) -> Option<RefView> {
    let a = skip_spaces(spaces, from, to);
    let b = skip_word(spaces, a, to);
    let c = skip_spaces(spaces, b, to);
    let d = skip_word(spaces, c, to);
    if a < to && c < to {
        Some(RefView { name: s.subrange(c, d), hash: s.subrange(a, b) })
    } else {
        None
    }
}

/// The references declared by the lines of `s` from position `from` on, in
/// the order of the lines, where `spaces` marks the white space of `s`.
pub open spec fn listed_refs(s: Seq<char>, spaces: Seq<bool>, from: int) -> Seq<RefView>
    decreases s.len() + 1 - from,
{
    if 0 <= from < s.len() {
        proof {
            lemma_line_end_bounds(s, from);
        }
        let end = line_end(s, from);
        let rest = listed_refs(s, spaces, end + 1);
        match line_ref(s, spaces, from, end) {
            Some(r) => seq![r] + rest,
            None => rest,
        }
    } else {
        Seq::empty()
    }
}

/// The commit of the last reference called `name`, if there is one: where a
/// name is listed twice, the later line counts.
pub open spec fn head_of(refs: Seq<RefView>, name: Seq<char>) -> Option<Seq<char>>
    decreases refs.len(),
{
    if refs.len() == 0 {
        None
    } else if refs.last().name == name {
        Some(refs.last().hash)
    } else {
        head_of(refs.drop_last(), name)
    }
}

/// The name under which a remote lists the head of `branch`, or its default
/// head where no branch is given.
pub open spec fn ref_name_of(branch: Option<Seq<char>>) -> Seq<char> {
    match branch {
        Some(b) => "refs/heads/"@ + b,
        None => "HEAD"@,
    }
}

/// A line ends at or after the place where it starts, and within the text.
pub proof fn lemma_line_end_bounds(s: Seq<char>, from: int)
    requires
        0 <= from <= s.len(),
    ensures
        from <= line_end(s, from) <= s.len(),
    decreases s.len() - from,
{
    if from < s.len() && s[from] != '\n' {
        lemma_line_end_bounds(s, from + 1);
    }
}

fn scan_spaces(spaces: &Vec<bool>, from: usize, to: usize) -> (at: usize)
    requires
        from <= to,
    ensures
        at == skip_spaces(spaces@, from as int, to as int),
        from <= at <= to,
{
    let mut at: usize = from;
    while at < to && at < spaces.len() && spaces[at]
        invariant
            from <= at <= to,
            skip_spaces(spaces@, from as int, to as int) == skip_spaces(
                spaces@,
                at as int,
                to as int,
            ),
        decreases to - at,
    {
        at = at + 1;
    }
    at
}

fn scan_word(spaces: &Vec<bool>, from: usize, to: usize) -> (at: usize)
    requires
        from <= to,
    ensures
        at == skip_word(spaces@, from as int, to as int),
        from <= at <= to,
{
    let mut at: usize = from;
    while at < to && !(at < spaces.len() && spaces[at])
        invariant
            from <= at <= to,
            skip_word(spaces@, from as int, to as int) == skip_word(spaces@, at as int, to as int),
        decreases to - at,
    {
        at = at + 1;
    }
    at
}

fn scan_line(s: &Vec<char>, from: usize) -> (at: usize)
    requires
        from <= s@.len(),
    ensures
        at == line_end(s@, from as int),
        from <= at <= s@.len(),
{
    let mut at: usize = from;
    while at < s.len() && s[at] != '\n'
        invariant
            from <= at <= s@.len(),
            line_end(s@, from as int) == line_end(s@, at as int),
        decreases s@.len() - at,
    {
        at = at + 1;
    }
    at
}

/// The reference that the line `s[from..to]` declares, if it declares one.
fn read_line(s: &Vec<char>, spaces: &Vec<bool>, from: usize, to: usize) -> (r: Option<RemoteRef>)
    requires
        from <= to <= s@.len(),
    ensures
        r.is_some() == line_ref(s@, spaces@, from as int, to as int).is_some(),
        r matches Some(x) ==> Some(x@) == line_ref(s@, spaces@, from as int, to as int),
{
    let a = scan_spaces(spaces, from, to);
    let b = scan_word(spaces, a, to);
    let c = scan_spaces(spaces, b, to);
    let d = scan_word(spaces, c, to);
    if a < to && c < to {
        Some(RemoteRef { name: string_of(s, c, d), hash: string_of(s, a, b) })
    } else {
        None
    }
}

/// Marks the white space of `s`.
pub fn mark_spaces(s: &Vec<char>) -> (spaces: Vec<bool>)
    ensures
        spaces@ == space_map(s@),
{
    let mut spaces: Vec<bool> = Vec::new();
    let mut i: usize = 0;
    while i < s.len()
        invariant
            i <= s@.len(),
            spaces@.len() == i,
            forall|k: int| 0 <= k < i ==> spaces@[k] == white_space(s@[k]),
        decreases s@.len() - i,
    {
        spaces.push(is_space(s[i]));
        i = i + 1;
    }
    assert(spaces@ =~= space_map(s@));
    spaces
}

/// Reads the references that the text `s` declares, line by line, given the
/// positions of its white space.
pub fn read_refs(s: &Vec<char>, spaces: &Vec<bool>) -> (refs: Vec<RemoteRef>)
    ensures
        ref_views(refs@) == listed_refs(s@, spaces@, 0),
{
    let mut refs: Vec<RemoteRef> = Vec::new();
    let mut from: usize = 0;
    assert(ref_views(refs@) =~= Seq::<RefView>::empty());
    while from < s.len()
        invariant
            from <= s@.len(),
            ref_views(refs@) + listed_refs(s@, spaces@, from as int) == listed_refs(s@, spaces@, 0),
        decreases s@.len() - from,
    {
        let end = scan_line(s, from);
        let ghost before = ref_views(refs@);
        let ghost rest = listed_refs(s@, spaces@, end + 1);
        match read_line(s, spaces, from, end) {
            Some(r) => {
                let ghost rv = r@;
                refs.push(r);
                assert(ref_views(refs@) =~= before.push(rv));
                assert(before.push(rv) + rest =~= before + (seq![rv] + rest));
            },
            None => {},
        }
        if end == s.len() {
            assert(rest =~= Seq::<RefView>::empty());
            from = end;
        } else {
            from = end + 1;
        }
    }
    assert(listed_refs(s@, spaces@, from as int) =~= Seq::<RefView>::empty());
    assert(ref_views(refs@) + Seq::<RefView>::empty() =~= ref_views(refs@));
    refs
}

/// Reads the references that a remote's listing declares, line by line:
/// words are what white space separates.
pub fn parse_refs(listing: &str) -> (refs: Vec<RemoteRef>)
    ensures
        ref_views(refs@) == listed_refs(listing@, space_map(listing@), 0),
{
    let s = chars_of(listing);
    let spaces = mark_spaces(&s);
    read_refs(&s, &spaces)
}

/// The commit that a list of references gives for `name`: that of the last
/// reference so called.
pub fn find_head(refs: &Vec<RemoteRef>, name: &str) -> (r: Option<String>)
    ensures
        opt_chars(r) == head_of(ref_views(refs@), name@),
{
    let mut i: usize = refs.len();
    assert(ref_views(refs@).take(i as int) =~= ref_views(refs@));
    while i > 0
        invariant
            i <= refs@.len(),
            head_of(ref_views(refs@), name@) == head_of(ref_views(refs@).take(i as int), name@),
        decreases i,
    {
        let ghost shown = ref_views(refs@).take(i as int);
        assert(shown.last() == refs@[i - 1]@);
        assert(shown.drop_last() =~= ref_views(refs@).take(i - 1));
        if same_text(refs[i - 1].name.as_str(), name) {
            return Some(refs[i - 1].hash.clone());
        }
        i = i - 1;
    }
    None
}

/// The name under which a remote lists the head of `branch`, or its default
/// head where no branch is given.
pub fn ref_name(branch: &Option<String>) -> (r: String)
    ensures
        r@ == ref_name_of(opt_chars(*branch)),
{
    match branch {
        Some(b) => joined("refs/heads/", b.as_str()),
        None => "HEAD".to_owned(),
    }
}

} // verus!
