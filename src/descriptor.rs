use vstd::prelude::*;
use crate::line::chars_of;

verus! {

/// The pieces of `s` between occurrences of `sep`; there is always at least one.
pub open spec fn split_on(s: Seq<char>, sep: char) -> Seq<Seq<char>>
    decreases s.len(),
{
    if s.len() == 0 {
        seq![Seq::empty()]
    } else {
        let parts = split_on(s.drop_last(), sep);
        if s.last() == sep {
            parts.push(Seq::empty())
        } else {
            parts.update(parts.len() - 1, parts.last().push(s.last()))
        }
    }
}

pub proof fn lemma_split_nonempty(s: Seq<char>, sep: char)
    ensures
        split_on(s, sep).len() >= 1,
    decreases s.len(),
{
    if s.len() > 0 {
        lemma_split_nonempty(s.drop_last(), sep);
    }
}

pub open spec fn git_suffix() -> Seq<char> {
    seq!['.', 'g', 'i', 't']
}

/// `s` without its `.git` suffix, if it has one.
pub open spec fn trim_git(s: Seq<char>) -> Seq<char> {
    if s.len() >= 4 && s.subrange(s.len() - 4, s.len() as int) == git_suffix() {
        s.subrange(0, s.len() - 4)
    } else {
        s
    }
}

/// The directory name of a repository: the last `/`-separated segment of
/// its URL, without a `.git` suffix.
pub open spec fn repo_name_spec(url: Seq<char>) -> Seq<char> {
    trim_git(split_on(url, '/').last())
}

pub open spec fn wildcard_text() -> Seq<char> {
    seq!['*']
}

/// The pieces of `s` between occurrences of `sep`.
pub fn split_segments(s: &str, sep: char) -> (r: Vec<String>)
    ensures
        r@.map_values(|x: String| x@) == split_on(s@, sep),
{
    let n = s.unicode_len();
    let mut r: Vec<String> = Vec::new();
    let mut start: usize = 0;
    let mut i: usize = 0;
    proof {
        assert(s@.take(0) == Seq::<char>::empty());
        assert(r@.map_values(|x: String| x@) == Seq::<Seq<char>>::empty());
        assert(s@.subrange(0, 0) == Seq::<char>::empty());
    }
    while i < n
        invariant
            n == s@.len(),
            start <= i <= n,
            split_on(s@.take(i as int), sep) == r@.map_values(|x: String| x@).push(
                s@.subrange(start as int, i as int),
            ),
        decreases n - i,
    {
        let c = s.get_char(i);
        let ghost parts = split_on(s@.take(i as int), sep);
        proof {
            assert(s@.take(i + 1).drop_last() == s@.take(i as int));
            assert(s@.take(i + 1).last() == c);
        }
        if c == sep {
            let seg = String::from_str(s.substring_char(start, i));
            r.push(seg);
            start = i + 1;
            proof {
                assert(r@.map_values(|x: String| x@) == parts);
                assert(s@.subrange(start as int, i + 1) == Seq::<char>::empty());
            }
        } else {
            proof {
                assert(s@.subrange(start as int, i + 1) == s@.subrange(start as int, i as int).push(
                    c,
                ));
                assert(split_on(s@.take(i + 1), sep) == parts.update(
                    parts.len() - 1,
                    parts.last().push(c),
                ));
            }
        }
        i = i + 1;
    }
    let seg = String::from_str(s.substring_char(start, n));
    r.push(seg);
    proof {
        assert(s@.take(n as int) == s@);
        assert(r@.map_values(|x: String| x@) == split_on(s@.take(n as int), sep));
    }
    r
}

/// The directory name a repository is fetched into.
pub fn repo_name(url: &str) -> (r: String)
    ensures
        r@ == repo_name_spec(url@),
{
    let segments = split_segments(url, '/');
    proof {
        lemma_split_nonempty(url@, '/');
        assert(segments@.map_values(|x: String| x@).last() == segments@.last()@);
    }
    let last = segments[segments.len() - 1].as_str();
    let cs = chars_of(last);
    let n = cs.len();
    let end = if n >= 4 && cs[n - 4] == '.' && cs[n - 3] == 'g' && cs[n - 2] == 'i' && cs[n - 1]
        == 't' {
        assert(cs@.subrange(n - 4, n as int) == git_suffix());
        n - 4
    } else {
        proof {
            if n >= 4 {
                assert(cs@.subrange(n - 4, n as int) != git_suffix()) by {
                    if cs@.subrange(n - 4, n as int) == git_suffix() {
                        assert(cs@.subrange(n - 4, n as int)[0] == '.');
                        assert(cs@.subrange(n - 4, n as int)[1] == 'g');
                        assert(cs@.subrange(n - 4, n as int)[2] == 'i');
                        assert(cs@.subrange(n - 4, n as int)[3] == 't');
                    }
                }
            }
            assert(cs@.subrange(0, n as int) == cs@);
        }
        n
    };
    String::from_str(last.substring_char(0, end))
}

/// One segment of a subpath selection: a directory name, or `*` for every
/// immediate subdirectory at that point.
#[derive(Clone, Debug)]
pub enum PathToken {
    Literal(String),
    Wildcard,
}

pub enum TokenView {
    Literal(Seq<char>),
    Wildcard,
}

impl View for PathToken {
    type V = TokenView;

    open spec fn view(&self) -> TokenView {
        match self {
            PathToken::Literal(s) => TokenView::Literal(s@),
            PathToken::Wildcard => TokenView::Wildcard,
        }
    }
}

pub open spec fn strings_view(v: Seq<String>) -> Seq<Seq<char>> {
    v.map_values(|x: String| x@)
}

pub open spec fn tokens_view(v: Seq<PathToken>) -> Seq<TokenView> {
    v.map_values(|t: PathToken| t@)
}

pub open spec fn token_of(seg: Seq<char>) -> TokenView {
    if seg == wildcard_text() {
        TokenView::Wildcard
    } else {
        TokenView::Literal(seg)
    }
}

/// The tokens of a `/`-separated subpath selection.
pub open spec fn parse_subpath_spec(s: Seq<char>) -> Seq<TokenView> {
    split_on(s, '/').map_values(|g: Seq<char>| token_of(g))
}

/// The directory names before the first wildcard.
pub open spec fn literal_prefix(t: Seq<TokenView>) -> Seq<Seq<char>>
    decreases t.len(),
{
    if t.len() == 0 {
        Seq::empty()
    } else {
        match t[0] {
            TokenView::Wildcard => Seq::empty(),
            TokenView::Literal(l) => seq![l] + literal_prefix(t.drop_first()),
        }
    }
}

pub open spec fn has_wildcard(t: Seq<TokenView>) -> bool {
    exists|i: int| 0 <= i < t.len() && t[i] is Wildcard
}

/// The directories, relative to a repository's directory, in which pages are
/// looked up: the literal prefix of the selection, or, where a wildcard
/// follows it, each immediate subdirectory `children` of that prefix.
pub open spec fn lookup_spec(t: Seq<TokenView>, children: Seq<Seq<char>>) -> Seq<Seq<Seq<char>>> {
    if has_wildcard(t) {
        Seq::new(children.len(), |k: int| literal_prefix(t).push(children[k]))
    } else {
        seq![literal_prefix(t)]
    }
}

fn is_wildcard_text(s: &str) -> (r: bool)
    ensures
        r == (s@ == wildcard_text()),
{
    if s.unicode_len() == 1 && s.get_char(0) == '*' {
        assert(s@ == wildcard_text());
        true
    } else {
        false
    }
}

/// Reads a `/`-separated subpath selection.
pub fn parse_subpath(s: &str) -> (r: Vec<PathToken>)
    ensures
        tokens_view(r@) == parse_subpath_spec(s@),
{
    let segments = split_segments(s, '/');
    let mut r: Vec<PathToken> = Vec::new();
    let mut i: usize = 0;
    while i < segments.len()
        invariant
            i <= segments.len(),
            strings_view(segments@) == split_on(s@, '/'),
            r.len() == i,
            forall|k: int| 0 <= k < i ==> #[trigger] r@[k]@ == token_of(segments@[k]@),
        decreases segments.len() - i,
    {
        if is_wildcard_text(segments[i].as_str()) {
            r.push(PathToken::Wildcard);
        } else {
            r.push(PathToken::Literal(segments[i].clone()));
        }
        i = i + 1;
    }
    assert(tokens_view(r@) == parse_subpath_spec(s@));
    r
}

fn copy_strings(v: &Vec<String>) -> (r: Vec<String>)
    ensures
        r@ == v@,
{
    let mut r: Vec<String> = Vec::new();
    let mut i: usize = 0;
    while i < v.len()
        invariant
            i <= v.len(),
            r@ == v@.take(i as int),
        decreases v.len() - i,
    {
        r.push(v[i].clone());
        proof {
            assert(v@.take(i + 1) == v@.take(i as int).push(v@[i as int]));
        }
        i = i + 1;
    }
    assert(v@.take(v.len() as int) == v@);
    r
}

/// The directory names before the first wildcard, and whether a wildcard follows them.
pub fn literal_prefix_of(tokens: &Vec<PathToken>) -> (r: (Vec<String>, bool))
    ensures
        strings_view(r.0@) == literal_prefix(tokens_view(tokens@)),
        r.1 == has_wildcard(tokens_view(tokens@)),
{
    let ghost t = tokens_view(tokens@);
    let mut r: Vec<String> = Vec::new();
    let mut i: usize = 0;
    assert(t.skip(0) == t);
    while i < tokens.len()
        invariant
            t == tokens_view(tokens@),
            i <= tokens.len(),
            literal_prefix(t) == strings_view(r@) + literal_prefix(t.skip(i as int)),
            forall|k: int| 0 <= k < i ==> (#[trigger] t[k]) is Literal,
        decreases tokens.len() - i,
    {
        proof {
            assert(t.skip(i as int)[0] == t[i as int]);
            assert(t.skip(i as int).drop_first() == t.skip(i + 1));
        }
        match &tokens[i] {
            PathToken::Wildcard => {
                assert(t[i as int] is Wildcard);
                assert(strings_view(r@) + Seq::<Seq<char>>::empty() == strings_view(r@));
                return (r, true);
            },
            PathToken::Literal(l) => {
                let ghost before = strings_view(r@);
                r.push(l.clone());
                proof {
                    assert(strings_view(r@) == before.push(l@));
                    assert(before + (seq![l@] + literal_prefix(t.skip(i + 1))) == before.push(l@)
                        + literal_prefix(t.skip(i + 1)));
                }
            },
        }
        i = i + 1;
    }
    proof {
        assert(t.skip(i as int).len() == 0);
        assert(strings_view(r@) + Seq::<Seq<char>>::empty() == strings_view(r@));
        assert(!has_wildcard(t)) by {
            if has_wildcard(t) {
                let k = choose|k: int| 0 <= k < t.len() && t[k] is Wildcard;
                assert(t[k] is Literal);
            }
        }
    }
    (r, false)
}

/// The directories to look pages up in, relative to a repository's
/// directory, given the names of the immediate subdirectories of the
/// selection's literal prefix.
pub fn lookup_paths(tokens: &Vec<PathToken>, children: &Vec<String>) -> (r: Vec<Vec<String>>)
    ensures
        r@.map_values(|p: Vec<String>| strings_view(p@)) == lookup_spec(
            tokens_view(tokens@),
            strings_view(children@),
        ),
{
    let (prefix, wild) = literal_prefix_of(tokens);
    let ghost lp = literal_prefix(tokens_view(tokens@));
    let mut r: Vec<Vec<String>> = Vec::new();
    if !wild {
        r.push(prefix);
        assert(r@.map_values(|p: Vec<String>| strings_view(p@)) == seq![lp]);
        return r;
    }
    let mut k: usize = 0;
    while k < children.len()
        invariant
            strings_view(prefix@) == lp,
            k <= children.len(),
            r.len() == k,
            forall|j: int| 0 <= j < k ==> strings_view((#[trigger] r@[j])@) == lp.push(children@[j]@),
        decreases children.len() - k,
    {
        let mut p = copy_strings(&prefix);
        p.push(children[k].clone());
        assert(strings_view(p@) == lp.push(children@[k as int]@));
        r.push(p);
        k = k + 1;
    }
    assert(r@.map_values(|p: Vec<String>| strings_view(p@)) == lookup_spec(
        tokens_view(tokens@),
        strings_view(children@),
    ));
    r
}

proof fn lemma_prefix_from_literals(t: Seq<TokenView>)
    ensures
        literal_prefix(t).len() <= t.len(),
        forall|j: int|
            0 <= j < literal_prefix(t).len() ==> t[j] == TokenView::Literal(
                #[trigger] literal_prefix(t)[j],
            ),
    decreases t.len(),
{
    if t.len() > 0 {
        lemma_prefix_from_literals(t.drop_first());
        if let TokenView::Literal(l) = t[0] {
            let lp = literal_prefix(t);
            assert forall|j: int| 0 <= j < lp.len() implies t[j] == TokenView::Literal(
                #[trigger] lp[j],
            ) by {
                if j > 0 {
                    assert(lp[j] == literal_prefix(t.drop_first())[j - 1]);
                    assert(t[j] == t.drop_first()[j - 1]);
                }
            }
        }
    }
}

/// A subpath selection with a wildcard, in a repository whose directory at
/// that point holds the subdirectories `children`, gives one lookup
/// directory per subdirectory, each ending in that subdirectory, and no
/// lookup directory holds the wildcard as a segment.
pub proof fn lemma_wildcard_lookup(subpath: Seq<char>, children: Seq<Seq<char>>)
    requires
        has_wildcard(parse_subpath_spec(subpath)),
        forall|k: int| 0 <= k < children.len() ==> children[k] != wildcard_text(),
    ensures
        ({
            let paths = lookup_spec(parse_subpath_spec(subpath), children);
            &&& paths.len() == children.len()
            &&& forall|k: int| 0 <= k < paths.len() ==> (#[trigger] paths[k]).last() == children[k]
            &&& forall|k: int, j: int|
                0 <= k < paths.len() && 0 <= j < paths[k].len() ==> (#[trigger] paths[k][j])
                    != wildcard_text()
        }),
{
    let t = parse_subpath_spec(subpath);
    let lp = literal_prefix(t);
    let paths = lookup_spec(t, children);
    lemma_prefix_from_literals(t);
    assert forall|k: int, j: int| 0 <= k < paths.len() && 0 <= j < paths[k].len() implies (
    #[trigger] paths[k][j]) != wildcard_text() by {
        assert(paths[k] == lp.push(children[k]));
        if j < lp.len() {
            assert(t[j] == TokenView::Literal(lp[j]));
            assert(t[j] == token_of(split_on(subpath, '/')[j]));
        }
    }
}

/// A configured repository: its URL and, optionally, the subpath inside it
/// where its pages live.
#[derive(Clone, Debug)]
pub struct RepositoryDescriptor {
    pub url: String,
    pub subpath: Option<Vec<PathToken>>,
}

pub open spec fn entries_view(v: Seq<Vec<String>>) -> Seq<Seq<Seq<char>>> {
    v.map_values(|e: Vec<String>| strings_view(e@))
}

impl RepositoryDescriptor {
    /// Reads a configuration entry: a URL, optionally followed by a subpath
    /// selection. An entry without a URL describes no repository.
    pub fn from_entry(entry: &Vec<String>) -> (r: Option<RepositoryDescriptor>)
        ensures
            r is None <==> entry.len() == 0,
            r matches Some(d) ==> {
                &&& d.url@ == entry@[0]@
                &&& (d.subpath is Some <==> entry.len() == 2)
                &&& (d.subpath matches Some(t) ==> tokens_view(t@) == parse_subpath_spec(
                    entry@[1]@,
                ))
            },
    {
        if entry.len() == 0 {
            return None;
        }
        let subpath = if entry.len() == 2 {
            Some(parse_subpath(entry[1].as_str()))
        } else {
            None
        };
        Some(RepositoryDescriptor { url: entry[0].clone(), subpath })
    }

    /// The directory name this repository is fetched into.
    pub fn name(&self) -> (r: String)
        ensures
            r@ == repo_name_spec(self.url@),
    {
        repo_name(self.url.as_str())
    }
}

/// The subpath selection of each repository directory name, from the
/// entries that carry one; a later entry replaces an earlier one of the same name.
pub open spec fn online_map(entries: Seq<Seq<Seq<char>>>) -> Map<Seq<char>, Seq<char>>
    decreases entries.len(),
{
    if entries.len() == 0 {
        Map::empty()
    } else {
        let m = online_map(entries.drop_last());
        let e = entries.last();
        if e.len() == 2 {
            m.insert(repo_name_spec(e[0]), e[1])
        } else {
            m
        }
    }
}

/// The pairs of `r` hold exactly the map `m`, each name once.
pub open spec fn pairs_hold(r: Seq<(String, String)>, m: Map<Seq<char>, Seq<char>>) -> bool {
    &&& forall|i: int, j: int| 0 <= i < j < r.len() ==> r[i].0@ != r[j].0@
    &&& forall|i: int|
        0 <= i < r.len() ==> m.contains_key(#[trigger] r[i].0@) && m[r[i].0@] == r[i].1@
    &&& forall|k: Seq<char>| m.contains_key(k) ==> exists|i: int| 0 <= i < r.len() && #[trigger] r[i].0@ == k
}

/// The subpath selection configured for each repository directory name.
pub fn get_online_hashmap(git_repos: &Vec<Vec<String>>) -> (r: Vec<(String, String)>)
    ensures
        pairs_hold(r@, online_map(entries_view(git_repos@))),
{
    let ghost ev = entries_view(git_repos@);
    let mut r: Vec<(String, String)> = Vec::new();
    let mut i: usize = 0;
    while i < git_repos.len()
        invariant
            ev == entries_view(git_repos@),
            i <= git_repos.len(),
            pairs_hold(r@, online_map(ev.take(i as int))),
        decreases git_repos.len() - i,
    {
        proof {
            assert(ev.take(i + 1).drop_last() == ev.take(i as int));
            assert(ev.take(i + 1).last() == ev[i as int]);
        }
        let entry = &git_repos[i];
        assert(ev[i as int] == strings_view(entry@));
        assert(ev[i as int].len() == entry.len());
        if entry.len() == 2 {
            assert(ev[i as int][0] == entry@[0]@);
            assert(ev[i as int][1] == entry@[1]@);
            let name = repo_name(entry[0].as_str());
            let sub = entry[1].clone();
            let ghost m = online_map(ev.take(i + 1));
            let mut j: usize = 0;
            let mut found = false;
            while j < r.len() && !found
                invariant
                    j <= r.len(),
                    found ==> j < r.len() && r@[j as int].0@ == name@,
                    forall|k: int| 0 <= k < j ==> (#[trigger] r@[k]).0@ != name@,
                decreases r.len() - j + (if found { 0int } else { 1int }),
            {
                if r[j].0 == name {
                    found = true;
                } else {
                    j = j + 1;
                }
            }
            let ghost old_r = r@;
            if found {
                r[j] = (name, sub);
                proof {
                    assert forall|k: Seq<char>| m.contains_key(k) implies exists|x: int|
                        0 <= x < r@.len() && #[trigger] r@[x].0@ == k by {
                        if k != name@ {
                            let x = choose|x: int| 0 <= x < old_r.len() && #[trigger] old_r[x].0@ == k;
                            assert(r@[x].0@ == k);
                        } else {
                            assert(r@[j as int].0@ == k);
                        }
                    }
                    assert(forall|a: int, b: int| 0 <= a < b < r@.len() ==> r@[a].0@ != r@[b].0@);
                    assert(forall|a: int|
                        0 <= a < r@.len() ==> m.contains_key(#[trigger] r@[a].0@) && m[r@[a].0@] == r@[a].1@);
                }
            } else {
                r.push((name, sub));
                proof {
                    assert forall|k: Seq<char>| m.contains_key(k) implies exists|x: int|
                        0 <= x < r@.len() && #[trigger] r@[x].0@ == k by {
                        if k != name@ {
                            let x = choose|x: int| 0 <= x < old_r.len() && #[trigger] old_r[x].0@ == k;
                            assert(r@[x].0@ == k);
                        } else {
                            assert(r@[old_r.len() as int].0@ == k);
                        }
                    }
                    assert(j == old_r.len());
                    assert forall|a: int, b: int| 0 <= a < b < r@.len() implies r@[a].0@ != r@[b].0@ by {
                        if b == old_r.len() {
                            assert(old_r[a].0@ != name@);
                        } else {
                            assert(old_r[a].0@ != old_r[b].0@);
                        }
                    }
                    assert forall|a: int| 0 <= a < r@.len() implies m.contains_key(
                        #[trigger] r@[a].0@,
                    ) && m[r@[a].0@] == r@[a].1@ by {
                        if a < old_r.len() {
                            assert(r@[a] == old_r[a]);
                            assert(old_r[a].0@ != name@);
                        }
                    }
                }
            }
        }
        i = i + 1;
    }
    assert(ev.take(git_repos.len() as int) == ev);
    r
}

} // verus!
