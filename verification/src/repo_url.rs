//! Parsing of repository references into `{workspace, repository}`
//! coordinates.
//!
//! A reference may be an SSH form (`git@host:ws/repo.git`), a URL with a
//! scheme (`https://host/ws/repo.git`), or a bare `ws/repo` path.  The
//! reference is trimmed of surrounding whitespace and trailing `/` characters,
//! the path part is split on `/` with blank segments dropped, and the last
//! two segments become the coordinates, with any trailing `.git` stripped
//! from the repository name.

use vstd::prelude::*;
use vstd::string::*;

use crate::text::{trim, trim_spec};

verus! {

/// Why a repository reference was rejected.
#[derive(Debug, Clone, Copy, PartialEq, Eq, Structural)]
pub enum ParseError {
    /// Nothing is left once whitespace and trailing slashes go.
    EmptyInput,
    /// A `git@` reference without a `:` separator.
    InvalidSshUrl,
    /// A scheme reference (`://`) without any path after the host.
    MissingPath,
    /// Fewer than two path segments remain after blanks are dropped.
    MissingWorkspaceOrRepository,
    /// The repository segment is empty once `.git` is stripped.
    EmptyRepositoryName,
}

impl ParseError {
    /// The message of the error.  A reference without a path and one with
    /// too few segments are reported in the same words.
    pub open spec fn message_spec(&self) -> Seq<char> {
        match self {
            ParseError::EmptyInput => "repository_url cannot be empty"@,
            ParseError::InvalidSshUrl => "invalid SSH repository URL"@,
            ParseError::MissingPath => "repository URL must include workspace and repository"@,
            ParseError::MissingWorkspaceOrRepository =>
                "repository URL must include workspace and repository"@,
            ParseError::EmptyRepositoryName => "repository name cannot be empty"@,
        }
    }

    /// Renders the error for the caller.
    pub fn message(&self) -> (r: String)
        ensures
            r@ == self.message_spec(),
    {
        match self {
            ParseError::EmptyInput => "repository_url cannot be empty".to_owned(),
            ParseError::InvalidSshUrl => "invalid SSH repository URL".to_owned(),
            ParseError::MissingPath => "repository URL must include workspace and repository"
                .to_owned(),
            ParseError::MissingWorkspaceOrRepository =>
                "repository URL must include workspace and repository".to_owned(),
            ParseError::EmptyRepositoryName => "repository name cannot be empty".to_owned(),
        }
    }
}

/// Coordinates of a repository inside the working tree: the workspace
/// (organisation) directory and the repository directory under it.
#[derive(Debug, Clone, PartialEq, Eq)]
pub struct RepoCoordinates {
    pub workspace: String,
    pub repository: String,
}

/// Mathematical value of `RepoCoordinates`.
pub struct CoordinatesView {
    pub workspace: Seq<char>,
    pub repository: Seq<char>,
}

impl View for RepoCoordinates {
    type V = CoordinatesView;

    open spec fn view(&self) -> CoordinatesView {
        CoordinatesView { workspace: self.workspace@, repository: self.repository@ }
    }
}

/// Index of the first occurrence of `c` in `s`, or `s.len()` if absent.
pub open spec fn index_of_char(s: Seq<char>, c: char) -> int
    decreases s.len(),
{
    if s.len() == 0 {
        0
    } else if s[0] == c {
        0
    } else {
        1 + index_of_char(s.drop_first(), c)
    }
}

proof fn lemma_index_of_char_at(s: Seq<char>, c: char, j: int)
    requires
        0 <= j <= s.len(),
        forall|k: int| 0 <= k < j ==> s[k] != c,
        j < s.len() ==> s[j] == c,
    ensures
        index_of_char(s, c) == j,
    decreases j,
{
    if j == 0 {
    } else {
        let t = s.drop_first();
        assert forall|k: int| 0 <= k < j - 1 implies t[k] != c by {
            assert(t[k] == s[k + 1]);
        }
        assert(j - 1 < t.len() ==> t[j - 1] == s[j]);
        lemma_index_of_char_at(t, c, j - 1);
    }
}

/// Index of the first occurrence of `c` in `s`, or `s.len()` if `c` does not
/// occur.
pub fn find_char(s: &str, c: char) -> (i: usize)
    ensures
        i as int == index_of_char(s@, c),
        i <= s@.len(),
{
    let n = s.unicode_len();
    let mut i: usize = 0;
    while i < n
        invariant
            n == s@.len(),
            0 <= i <= n,
            forall|k: int| 0 <= k < i ==> s@[k] != c,
        decreases n - i,
    {
        if s.get_char(i) == c {
            proof {
                lemma_index_of_char_at(s@, c, i as int);
            }
            return i;
        }
        i = i + 1;
    }
    proof {
        lemma_index_of_char_at(s@, c, n as int);
    }
    n
}

/// Number of `/` characters at the back of `s`.
pub open spec fn trailing_slashes(s: Seq<char>) -> int
    decreases s.len(),
{
    if s.len() > 0 && s.last() == '/' {
        1 + trailing_slashes(s.drop_last())
    } else {
        0
    }
}

/// `s` without its trailing `/` characters, as `str::trim_end_matches('/')`
/// returns it.
pub open spec fn strip_trailing_slashes(s: Seq<char>) -> Seq<char> {
    s.take(s.len() - trailing_slashes(s))
}

proof fn lemma_trailing_slashes_at(s: Seq<char>, j: int)
    requires
        0 <= j <= s.len(),
        forall|k: int| j <= k < s.len() ==> s[k] == '/',
        j > 0 ==> s[j - 1] != '/',
    ensures
        trailing_slashes(s) == s.len() - j,
    decreases s.len() - j,
{
    if j == s.len() {
    } else {
        let t = s.drop_last();
        assert forall|k: int| j <= k < t.len() implies t[k] == '/' by {
            assert(t[k] == s[k]);
        }
        assert(j > 0 ==> t[j - 1] == s[j - 1]);
        lemma_trailing_slashes_at(t, j);
    }
}

/// Strips trailing `/` characters.
fn strip_slashes(s: &str) -> (r: &str)
    ensures
        r@ == strip_trailing_slashes(s@),
{
    let n = s.unicode_len();
    let mut end: usize = n;
    while end > 0 && s.get_char(end - 1) == '/'
        invariant
            n == s@.len(),
            0 <= end <= n,
            forall|k: int| end <= k < n ==> s@[k] == '/',
        decreases end,
    {
        end = end - 1;
    }
    proof {
        lemma_trailing_slashes_at(s@, end as int);
    }
    let r = s.substring_char(0, end);
    proof {
        assert(r@ =~= strip_trailing_slashes(s@));
    }
    r
}

/// The segments of `s` between `/` separators, in order.  Splitting the
/// empty sequence yields one empty segment, as `str::split('/')` does.
pub open spec fn split_slash(s: Seq<char>) -> Seq<Seq<char>>
    decreases s.len(),
{
    let i = index_of_char(s, '/');
    if 0 <= i < s.len() {
        seq![s.take(i)] + split_slash(s.skip(i + 1))
    } else {
        seq![s]
    }
}

/// Splits `s` on `/`.
fn split_slash_str<'a>(s: &'a str) -> (r: Vec<&'a str>)
    ensures
        r@.map_values(|x: &str| x@) == split_slash(s@),
{
    let n = s.unicode_len();
    let mut r: Vec<&'a str> = Vec::new();
    let mut start: usize = 0;
    let mut i: usize = 0;
    proof {
        assert(s@.skip(0) =~= s@);
        assert(r@.map_values(|x: &str| x@) + split_slash(s@) =~= split_slash(s@));
    }
    while i < n
        invariant
            n == s@.len(),
            0 <= start <= i <= n,
            forall|k: int| start <= k < i ==> s@[k] != '/',
            split_slash(s@) == r@.map_values(|x: &str| x@) + split_slash(
                s@.skip(start as int),
            ),
        decreases n - i,
    {
        if s.get_char(i) == '/' {
            let seg = s.substring_char(start, i);
            proof {
                let t = s@.skip(start as int);
                assert forall|k: int| 0 <= k < i - start implies t[k] != '/' by {
                    assert(t[k] == s@[k + start]);
                }
                assert(t[i - start] == s@[i as int]);
                lemma_index_of_char_at(t, '/', i - start);
                assert(t.take(i - start) =~= seg@);
                assert(t.skip(i - start + 1) =~= s@.skip(i + 1));
                assert(split_slash(t) == seq![seg@] + split_slash(s@.skip(i + 1)));
                assert((r@ + seq![seg]).map_values(|x: &str| x@) =~= r@.map_values(
                    |x: &str| x@,
                ) + seq![seg@]);
                assert(r@.push(seg) =~= r@ + seq![seg]);
            }
            r.push(seg);
            start = i + 1;
        }
        i = i + 1;
    }
    let seg = s.substring_char(start, n);
    proof {
        let t = s@.skip(start as int);
        assert forall|k: int| 0 <= k < t.len() implies t[k] != '/' by {
            assert(t[k] == s@[k + start]);
        }
        lemma_index_of_char_at(t, '/', t.len() as int);
        assert(seg@ =~= t);
        assert(split_slash(t) == seq![t]);
        assert((r@.push(seg)).map_values(|x: &str| x@) =~= r@.map_values(|x: &str| x@)
            + seq![seg@]);
    }
    r.push(seg);
    r
}

/// A segment is blank when nothing remains of it after trimming whitespace;
/// blank segments are dropped before the coordinates are read.
pub open spec fn is_blank(seg: Seq<char>) -> bool {
    trim_spec(seg).len() == 0
}

/// The segments of `segs` that are not blank, in order.
pub open spec fn kept_segments(segs: Seq<Seq<char>>) -> Seq<Seq<char>>
    decreases segs.len(),
{
    if segs.len() == 0 {
        Seq::empty()
    } else {
        let rest = kept_segments(segs.drop_first());
        if !is_blank(segs[0]) {
            seq![segs[0]] + rest
        } else {
            rest
        }
    }
}

/// Keeps the non-blank segments.
fn keep_segments<'a>(segs: Vec<&'a str>) -> (r: Vec<&'a str>)
    ensures
        r@.map_values(|x: &str| x@) == kept_segments(segs@.map_values(|x: &str| x@)),
{
    let ghost all = segs@.map_values(|x: &str| x@);
    let n = segs.len();
    let mut r: Vec<&'a str> = Vec::new();
    let mut i: usize = 0;
    proof {
        assert(all.skip(0) =~= all);
        assert(r@.map_values(|x: &str| x@) + kept_segments(all) =~= kept_segments(all));
    }
    while i < n
        invariant
            n == segs@.len(),
            all == segs@.map_values(|x: &str| x@),
            0 <= i <= n,
            kept_segments(all) == r@.map_values(|x: &str| x@) + kept_segments(
                all.skip(i as int),
            ),
        decreases n - i,
    {
        let seg = segs[i];
        let t = trim(seg);
        proof {
            let rest = all.skip(i as int);
            assert(rest[0] == all[i as int]);
            assert(rest.drop_first() =~= all.skip(i + 1));
        }
        if t.unicode_len() != 0 {
            proof {
                assert((r@.push(seg)).map_values(|x: &str| x@) =~= r@.map_values(
                    |x: &str| x@,
                ) + seq![seg@]);
            }
            r.push(seg);
        }
        i = i + 1;
    }
    proof {
        assert(all.skip(n as int) =~= Seq::<Seq<char>>::empty());
        assert(r@.map_values(|x: &str| x@) + kept_segments(all.skip(n as int)) =~= r@.map_values(
            |x: &str| x@,
        ));
    }
    r
}

/// Whether `s` ends in the four characters `.git`.
pub open spec fn ends_git(s: Seq<char>) -> bool {
    s.len() >= 4 && s[s.len() - 4] == '.' && s[s.len() - 3] == 'g' && s[s.len() - 2] == 'i'
        && s[s.len() - 1] == 't'
}

/// `s` with every trailing `.git` removed, as
/// `str::trim_end_matches(".git")` returns it.
pub open spec fn strip_git(s: Seq<char>) -> Seq<char>
    decreases s.len(),
{
    if ends_git(s) {
        strip_git(s.take(s.len() - 4))
    } else {
        s
    }
}

fn has_git_suffix(s: &str) -> (b: bool)
    ensures
        b == ends_git(s@),
{
    let n = s.unicode_len();
    n >= 4 && s.get_char(n - 4) == '.' && s.get_char(n - 3) == 'g' && s.get_char(n - 2) == 'i'
        && s.get_char(n - 1) == 't'
}

/// Strips every trailing `.git`.
fn strip_git_suffix<'a>(s: &'a str) -> (r: &'a str)
    ensures
        r@ == strip_git(s@),
{
    let mut cur: &'a str = s;
    while has_git_suffix(cur)
        invariant
            strip_git(cur@) == strip_git(s@),
        decreases cur@.len(),
    {
        let n = cur.unicode_len();
        let shorter = cur.substring_char(0, n - 4);
        proof {
            assert(shorter@ =~= cur@.take(cur@.len() - 4));
        }
        cur = shorter;
    }
    cur
}

/// What the coordinates of a path are: the last two non-blank `/` segments,
/// the repository one with `.git` stripped.
pub open spec fn coordinates_spec(path: Seq<char>) -> Result<CoordinatesView, ParseError> {
    let segs = kept_segments(split_slash(path));
    if segs.len() < 2 {
        Err(ParseError::MissingWorkspaceOrRepository)
    } else {
        let repository = strip_git(segs.last());
        if repository.len() == 0 {
            Err(ParseError::EmptyRepositoryName)
        } else {
            Ok(
                CoordinatesView {
                    workspace: segs[segs.len() - 2],
                    repository,
                },
            )
        }
    }
}

/// Mathematical value of a parse result.
pub open spec fn parse_result_view(r: Result<RepoCoordinates, ParseError>) -> Result<
    CoordinatesView,
    ParseError,
> {
    match r {
        Ok(c) => Ok(c@),
        Err(e) => Err(e),
    }
}

/// Reads `{workspace, repository}` coordinates out of a `/`-separated path.
pub fn coordinates_from_path(path: &str) -> (r: Result<RepoCoordinates, ParseError>)
    ensures
        parse_result_view(r) == coordinates_spec(path@),
{
    let all = split_slash_str(path);
    let segs = keep_segments(all);
    if segs.len() < 2 {
        return Err(ParseError::MissingWorkspaceOrRepository);
    }
    let workspace_seg = segs[segs.len() - 2];
    let repo_seg = segs[segs.len() - 1];
    proof {
        let view = segs@.map_values(|x: &str| x@);
        assert(view[view.len() - 1] == view.last());
    }
    let repository = strip_git_suffix(repo_seg);
    if repository.unicode_len() == 0 {
        return Err(ParseError::EmptyRepositoryName);
    }
    Ok(
        RepoCoordinates {
            workspace: workspace_seg.to_owned(),
            repository: repository.to_owned(),
        },
    )
}

/// Whether the reference names the SSH form `git@host:path`.
pub open spec fn starts_git_at(s: Seq<char>) -> bool {
    s.len() >= 4 && s[0] == 'g' && s[1] == 'i' && s[2] == 't' && s[3] == '@'
}

/// Whether positions `i..i + 3` of `s` hold the scheme separator `://`.
pub open spec fn scheme_at(s: Seq<char>, i: int) -> bool {
    0 <= i && i + 3 <= s.len() && s[i] == ':' && s[i + 1] == '/' && s[i + 2] == '/'
}

/// Index of the first scheme separator `://`, or `s.len()` if there is none.
pub open spec fn find_scheme(s: Seq<char>) -> int
    decreases s.len(),
{
    if scheme_at(s, 0) {
        0
    } else if s.len() == 0 {
        0
    } else {
        1 + find_scheme(s.drop_first())
    }
}

/// Whether `s` holds a scheme separator at all.
pub open spec fn has_scheme(s: Seq<char>) -> bool {
    find_scheme(s) + 3 <= s.len()
}

proof fn lemma_scheme_at_shift(s: Seq<char>, k: int)
    requires
        s.len() > 0,
        0 <= k,
    ensures
        scheme_at(s.drop_first(), k) == scheme_at(s, k + 1),
{
    let t = s.drop_first();
    if k + 3 <= t.len() {
        assert(t[k] == s[k + 1] && t[k + 1] == s[k + 2] && t[k + 2] == s[k + 3]);
    }
}

proof fn lemma_find_scheme_found(s: Seq<char>, j: int)
    requires
        scheme_at(s, j),
        forall|k: int| 0 <= k < j ==> !scheme_at(s, k),
    ensures
        find_scheme(s) == j,
        has_scheme(s),
    decreases j,
{
    if j == 0 {
    } else {
        assert(!scheme_at(s, 0));
        let t = s.drop_first();
        lemma_scheme_at_shift(s, j - 1);
        assert forall|k: int| 0 <= k < j - 1 implies !scheme_at(t, k) by {
            lemma_scheme_at_shift(s, k);
        }
        lemma_find_scheme_found(t, j - 1);
    }
}

proof fn lemma_find_scheme_absent(s: Seq<char>)
    requires
        forall|k: int| 0 <= k ==> !scheme_at(s, k),
    ensures
        find_scheme(s) == s.len(),
        !has_scheme(s),
    decreases s.len(),
{
    if s.len() > 0 {
        let t = s.drop_first();
        assert forall|k: int| 0 <= k implies !scheme_at(t, k) by {
            lemma_scheme_at_shift(s, k);
        }
        lemma_find_scheme_absent(t);
    }
}

/// Index just past the first `://`, or `s.len()` if there is none.
fn find_scheme_str(s: &str) -> (i: usize)
    ensures
        has_scheme(s@) ==> i as int == find_scheme(s@) && i + 3 <= s@.len(),
        !has_scheme(s@) ==> i == s@.len(),
{
    let n = s.unicode_len();
    if n < 3 {
        proof {
            lemma_find_scheme_absent(s@);
        }
        return n;
    }
    let mut i: usize = 0;
    while i <= n - 3
        invariant
            n == s@.len(),
            n >= 3,
            0 <= i,
            i + 3 <= n + 1,
            forall|k: int| 0 <= k < i ==> !scheme_at(s@, k),
        decreases n - i,
    {
        if s.get_char(i) == ':' && s.get_char(i + 1) == '/' && s.get_char(i + 2) == '/' {
            proof {
                lemma_find_scheme_found(s@, i as int);
            }
            return i;
        }
        i = i + 1;
    }
    proof {
        assert forall|k: int| 0 <= k implies !scheme_at(s@, k) by {
            if k + 3 <= s@.len() {
                assert(k < i);
            }
        }
        lemma_find_scheme_absent(s@);
    }
    n
}

/// What parsing a repository reference yields, for every input:
/// either its coordinates or the reason it is rejected.
pub open spec fn parse_spec(raw: Seq<char>) -> Result<CoordinatesView, ParseError> {
    let t = strip_trailing_slashes(trim_spec(raw));
    if t.len() == 0 {
        Err(ParseError::EmptyInput)
    } else if starts_git_at(t) {
        if index_of_char(t, ':') == t.len() {
            Err(ParseError::InvalidSshUrl)
        } else {
            coordinates_spec(t.skip(index_of_char(t, ':') + 1))
        }
    } else if has_scheme(t) {
        let after = t.skip(find_scheme(t) + 3);
        if index_of_char(after, '/') == after.len() {
            Err(ParseError::MissingPath)
        } else {
            coordinates_spec(after.skip(index_of_char(after, '/') + 1))
        }
    } else {
        coordinates_spec(t)
    }
}

/// Parses a repository reference (SSH, scheme URL, or bare path) into
/// `{workspace, repository}` coordinates.
pub fn parse_repository_url(raw: &str) -> (r: Result<RepoCoordinates, ParseError>)
    ensures
        parse_result_view(r) == parse_spec(raw@),
{
    let t = strip_slashes(trim(raw));
    let n = t.unicode_len();
    if n == 0 {
        return Err(ParseError::EmptyInput);
    }
    if n >= 4 && t.get_char(0) == 'g' && t.get_char(1) == 'i' && t.get_char(2) == 't'
        && t.get_char(3) == '@' {
        let colon = find_char(t, ':');
        if colon == n {
            return Err(ParseError::InvalidSshUrl);
        }
        let path = t.substring_char(colon + 1, n);
        proof {
            assert(path@ =~= t@.skip(index_of_char(t@, ':') + 1));
        }
        return coordinates_from_path(path);
    }
    let scheme = find_scheme_str(t);
    if scheme < n {
        let after = t.substring_char(scheme + 3, n);
        proof {
            assert(after@ =~= t@.skip(find_scheme(t@) + 3));
        }
        let slash = find_char(after, '/');
        if slash == after.unicode_len() {
            return Err(ParseError::MissingPath);
        }
        let path = after.substring_char(slash + 1, after.unicode_len());
        proof {
            assert(path@ =~= after@.skip(index_of_char(after@, '/') + 1));
        }
        return coordinates_from_path(path);
    }
    proof {
        assert(!has_scheme(t@));
    }
    coordinates_from_path(t)
}

} // verus!
