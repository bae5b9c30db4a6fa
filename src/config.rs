use vstd::prelude::*;
use vstd::string::{StrSliceExecFns, StringExecFns};

verus! {

/// The characters with Unicode's White_Space property.
pub open spec fn is_white_space(c: char) -> bool {
    ('\u{9}' <= c && c <= '\u{d}') || c == ' ' || c == '\u{85}' || c == '\u{a0}'
        || c == '\u{1680}' || ('\u{2000}' <= c && c <= '\u{200a}') || c == '\u{2028}'
        || c == '\u{2029}' || c == '\u{202f}' || c == '\u{205f}' || c == '\u{3000}'
}

/// `s` without its leading white space.
pub open spec fn trim_start(s: Seq<char>) -> Seq<char>
    decreases s.len(),
{
    if s.len() > 0 && is_white_space(s[0]) {
        trim_start(s.drop_first())
    } else {
        s
    }
}

/// `s` without its trailing white space.
pub open spec fn trim_end(s: Seq<char>) -> Seq<char>
    decreases s.len(),
{
    if s.len() > 0 && is_white_space(s.last()) {
        trim_end(s.drop_last())
    } else {
        s
    }
}

/// `s` without white space at either end.
pub open spec fn trim(s: Seq<char>) -> Seq<char> {
    trim_end(trim_start(s))
}

/// The pieces of `s` between commas, in order; `s` without a comma is one piece.
pub open spec fn split_commas(s: Seq<char>) -> Seq<Seq<char>>
    decreases s.len(),
{
    if s.len() == 0 {
        seq![Seq::empty()]
    } else if s.last() == ',' {
        split_commas(s.drop_last()).push(Seq::empty())
    } else {
        let p = split_commas(s.drop_last());
        p.update(p.len() - 1, p.last().push(s.last()))
    }
}

/// `entries` with `piece` added once it is trimmed, unless it is then empty or
/// already present.
pub open spec fn add_piece(entries: Seq<Seq<char>>, piece: Seq<char>) -> Seq<Seq<char>> {
    if trim(piece).len() == 0 || entries.contains(trim(piece)) {
        entries
    } else {
        entries.push(trim(piece))
    }
}

/// The distinct trimmed pieces, with the empty ones left out, in order of first
/// appearance.
pub open spec fn kept_entries(pieces: Seq<Seq<char>>) -> Seq<Seq<char>>
    decreases pieces.len(),
{
    if pieces.len() == 0 {
        Seq::empty()
    } else {
        add_piece(kept_entries(pieces.drop_last()), pieces.last())
    }
}

/// The namespace names that a comma-separated configuration value lists.
pub open spec fn namespace_list(raw: Seq<char>) -> Seq<Seq<char>> {
    kept_entries(split_commas(raw))
}

/// Relies on str::trim: leading and trailing White_Space characters are removed.
#[verifier::external_body]
fn trim_str(s: &str) -> (r: &str)
    ensures
        r@ == trim(s@),
{
    s.trim()
}

/// The immutable set of namespaces whose workloads are never checked.
pub struct IgnoredNamespaces {
    names: Vec<String>,
}

impl View for IgnoredNamespaces {
    type V = Seq<Seq<char>>;

    closed spec fn view(&self) -> Seq<Seq<char>> {
        self.names@.map_values(|n: String| n@)
    }
}

impl IgnoredNamespaces {
    /// Every entry is non-empty, has no white space at either end, and occurs once.
    pub open spec fn wf(&self) -> bool {
        &&& forall|i: int| 0 <= i < self@.len() ==> clean_entry(#[trigger] self@[i])
        &&& self@.no_duplicates()
    }

    /// The empty set: no namespace is excluded.
    pub fn empty() -> (r: IgnoredNamespaces)
        ensures
            r@ == Seq::<Seq<char>>::empty(),
            r.wf(),
    {
        let r = IgnoredNamespaces { names: Vec::new() };
        assert(r@ =~= Seq::<Seq<char>>::empty());
        r
    }

    /// The number of entries.
    pub fn len(&self) -> (r: usize)
        ensures
            r == self@.len(),
    {
        self.names.len()
    }

    /// Whether no namespace is excluded.
    pub fn is_empty(&self) -> (r: bool)
        ensures
            r == (self@.len() == 0),
    {
        self.names.len() == 0
    }

    /// The entries, in the order in which the configuration listed them.
    pub fn names(&self) -> (r: Vec<String>)
        ensures
            r@.map_values(|n: String| n@) == self@,
    {
        self.names.clone()
    }
}

/// An entry as the configuration keeps it: non-empty, without white space at either end.
pub open spec fn clean_entry(s: Seq<char>) -> bool {
    s.len() > 0 && !is_white_space(s[0]) && !is_white_space(s.last())
}

proof fn lemma_trim_start(s: Seq<char>)
    ensures
        trim_start(s).len() > 0 ==> !is_white_space(trim_start(s)[0]),
    decreases s.len(),
{
    if s.len() > 0 && is_white_space(s[0]) {
        lemma_trim_start(s.drop_first());
    }
}

proof fn lemma_trim_end(s: Seq<char>)
    ensures
        trim_end(s).len() <= s.len(),
        trim_end(s) == s.subrange(0, trim_end(s).len() as int),
        trim_end(s).len() > 0 ==> !is_white_space(trim_end(s).last()),
    decreases s.len(),
{
    if s.len() > 0 && is_white_space(s.last()) {
        lemma_trim_end(s.drop_last());
        assert(s.drop_last().subrange(0, trim_end(s).len() as int) =~= s.subrange(
            0,
            trim_end(s).len() as int,
        ));
    } else {
        assert(s.subrange(0, s.len() as int) =~= s);
    }
}

/// What `trim` leaves is either empty or a clean entry.
proof fn lemma_trim_clean(s: Seq<char>)
    ensures
        trim(s).len() > 0 ==> clean_entry(trim(s)),
{
    lemma_trim_start(s);
    lemma_trim_end(trim_start(s));
    if trim(s).len() > 0 {
        assert(trim(s)[0] == trim_start(s)[0]);
    }
}

proof fn lemma_kept_entries_clean(pieces: Seq<Seq<char>>)
    ensures
        forall|i: int| 0 <= i < kept_entries(pieces).len() ==> clean_entry(#[trigger] kept_entries(pieces)[i]),
        kept_entries(pieces).no_duplicates(),
    decreases pieces.len(),
{
    if pieces.len() > 0 {
        lemma_kept_entries_clean(pieces.drop_last());
        lemma_trim_clean(pieces.last());
        let rest = kept_entries(pieces.drop_last());
        assert forall|i: int| 0 <= i < kept_entries(pieces).len() implies clean_entry(
            #[trigger] kept_entries(pieces)[i],
        ) by {
            if i < rest.len() {
                assert(kept_entries(pieces)[i] == rest[i]);
            }
        }
        let t = trim(pieces.last());
        if t.len() > 0 && !rest.contains(t) {
            assert forall|i: int, j: int|
                0 <= i < rest.len() + 1 && 0 <= j < rest.len() + 1 && i != j implies
                #[trigger] rest.push(t)[i] != #[trigger] rest.push(t)[j] by {
                if i == rest.len() {
                    assert(rest[j] != t);
                } else if j == rest.len() {
                    assert(rest[i] != t);
                }
            }
        }
    }
}

/// Whether `names` holds `s`.
fn holds_name(names: &Vec<String>, s: &str) -> (r: bool)
    ensures
        r == names@.map_values(|n: String| n@).contains(s@),
{
    let target = String::from_str(s);
    let ghost views = names@.map_values(|n: String| n@);
    let mut i: usize = 0;
    while i < names.len()
        invariant
            i <= names@.len(),
            target@ == s@,
            views == names@.map_values(|n: String| n@),
            forall|j: int| 0 <= j < i ==> views[j] != s@,
        decreases names@.len() - i,
    {
        if names[i] == target {
            assert(views[i as int] == s@);
            return true;
        }
        i = i + 1;
    }
    false
}

/// Adds the trimmed piece `t` to `names` unless it is empty or already there.
fn add_entry(names: &mut Vec<String>, t: &str)
    ensures
        final(names)@.map_values(|n: String| n@) == (if t@.len() == 0 || old(names)@.map_values(
            |n: String| n@,
        ).contains(t@) {
            old(names)@.map_values(|n: String| n@)
        } else {
            old(names)@.map_values(|n: String| n@).push(t@)
        }),
{
    if t.unicode_len() > 0 && !holds_name(names, t) {
        let ghost before = names@;
        names.push(String::from_str(t));
        assert(names@.map_values(|n: String| n@) =~= before.map_values(|n: String| n@).push(t@));
    }
}

/// Reads a comma-separated list of namespace names: each piece is trimmed, and
/// empty pieces and repeated names are discarded.
pub fn parse_ignored_namespaces(raw: &str) -> (r: IgnoredNamespaces)
    ensures
        r@ == namespace_list(raw@),
        r.wf(),
{
    let n = raw.unicode_len();
    let mut names: Vec<String> = Vec::new();
    let mut start: usize = 0;
    let mut i: usize = 0;
    assert(raw@.subrange(0, 0) =~= Seq::<char>::empty());
    while i < n
        invariant
            n == raw@.len(),
            start <= i <= n,
            split_commas(raw@.subrange(0, i as int)).len() >= 1,
            split_commas(raw@.subrange(0, i as int)).last() == raw@.subrange(start as int, i as int),
            names@.map_values(|s: String| s@) == kept_entries(
                split_commas(raw@.subrange(0, i as int)).drop_last(),
            ),
        decreases n - i,
    {
        let ghost before = split_commas(raw@.subrange(0, i as int));
        let c = raw.get_char(i);
        assert(raw@.subrange(0, i + 1).drop_last() =~= raw@.subrange(0, i as int));
        if c == ',' {
            let piece = raw.substring_char(start, i);
            let t = trim_str(piece);
            assert(before.push(Seq::empty()).drop_last() =~= before);
            add_entry(&mut names, t);
            start = i + 1;
            i = i + 1;
            assert(raw@.subrange(start as int, i as int) =~= Seq::<char>::empty());
        } else {
            i = i + 1;
            let ghost after = split_commas(raw@.subrange(0, i as int));
            assert(after.drop_last() =~= before.drop_last());
            assert(raw@.subrange(start as int, i as int) =~= before.last().push(c));
        }
    }
    let piece = raw.substring_char(start, n);
    let t = trim_str(piece);
    let ghost pieces = split_commas(raw@.subrange(0, n as int));
    assert(raw@.subrange(0, n as int) =~= raw@);
    assert(pieces =~= pieces.drop_last().push(pieces.last()));
    add_entry(&mut names, t);
    let r = IgnoredNamespaces { names };
    proof {
        lemma_kept_entries_clean(pieces);
    }
    r
}

/// Whether `namespace` is one of the excluded names: an exact comparison, with no
/// normalisation and no pattern matching.
pub fn should_ignore_namespace(namespace: &str, ignored: &IgnoredNamespaces) -> (r: bool)
    ensures
        r == ignored@.contains(namespace@),
{
    holds_name(&ignored.names, namespace)
}

} // verus!
