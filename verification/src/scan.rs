//! Building the workspace → repository → worktree session tree out of
//! directory listings.
//!
//! The listings are plain values read from disk by the caller: the entries of
//! the working root, of each workspace directory under it, and of each
//! repository's worktree directory under the worktrees root.  Out of them the
//! scan builds the tree that the service presents: one workspace per
//! directory under the working root, one repository per directory under a
//! workspace, one worktree per directory under
//! `<worktrees_root>/<workspace>/<repository>`; non-directory entries are
//! skipped, and siblings at every level are sorted by name.

use vstd::prelude::*;

use crate::order::{
    insert_sorted, lemma_insert_pos_at, lemma_insert_sorted_is_insert, lemma_sort_by_key_elems,
    lemma_sort_by_key_sorted, sort_by_key, sorted_by_key,
};
use crate::text::{lex_le, str_le};

verus! {

/// A workspace of the session tree and the repositories under it.
#[derive(Debug, PartialEq, Eq)]
pub struct SessionWorkspace {
    pub name: String,
    pub repositories: Vec<SessionRepository>,
}

/// A repository of the session tree, with its plans (none are wired in
/// here) and its worktrees.
#[derive(Debug, PartialEq, Eq)]
pub struct SessionRepository {
    pub name: String,
    pub plans: Vec<SessionPlan>,
    pub worktrees: Vec<SessionWorktree>,
}

/// A plan attached to a repository.
#[derive(Debug, PartialEq, Eq)]
pub struct SessionPlan {
    pub name: String,
    pub session_id: String,
    pub related_issue: Option<u32>,
}

/// A worktree of a repository, with its terminals (none are wired in here).
#[derive(Debug, PartialEq, Eq)]
pub struct SessionWorktree {
    pub name: String,
    pub terminals: Vec<SessionTerminal>,
}

/// A terminal attached to a worktree.
#[derive(Debug, PartialEq, Eq)]
pub struct SessionTerminal {
    pub name: String,
    pub kind: String,
    pub dangerous: Option<bool>,
    pub session_id: String,
}

/// Mathematical value of `SessionTerminal`.
#[verifier::ext_equal]
pub struct TerminalView {
    pub name: Seq<char>,
    pub kind: Seq<char>,
    pub dangerous: Option<bool>,
    pub session_id: Seq<char>,
}

/// Mathematical value of `SessionWorktree`.
#[verifier::ext_equal]
pub struct WorktreeView {
    pub name: Seq<char>,
    pub terminals: Seq<TerminalView>,
}

/// Mathematical value of `SessionPlan`.
#[verifier::ext_equal]
pub struct PlanView {
    pub name: Seq<char>,
    pub session_id: Seq<char>,
    pub related_issue: Option<u32>,
}

/// Mathematical value of `SessionRepository`.
#[verifier::ext_equal]
pub struct RepositoryView {
    pub name: Seq<char>,
    pub plans: Seq<PlanView>,
    pub worktrees: Seq<WorktreeView>,
}

/// Mathematical value of `SessionWorkspace`.
#[verifier::ext_equal]
pub struct WorkspaceView {
    pub name: Seq<char>,
    pub repositories: Seq<RepositoryView>,
}

impl View for SessionTerminal {
    type V = TerminalView;

    open spec fn view(&self) -> TerminalView {
        TerminalView {
            name: self.name@,
            kind: self.kind@,
            dangerous: self.dangerous,
            session_id: self.session_id@,
        }
    }
}

impl View for SessionWorktree {
    type V = WorktreeView;

    open spec fn view(&self) -> WorktreeView {
        WorktreeView {
            name: self.name@,
            terminals: self.terminals@.map_values(|t: SessionTerminal| t@),
        }
    }
}

impl View for SessionPlan {
    type V = PlanView;

    open spec fn view(&self) -> PlanView {
        PlanView {
            name: self.name@,
            session_id: self.session_id@,
            related_issue: self.related_issue,
        }
    }
}

impl View for SessionRepository {
    type V = RepositoryView;

    open spec fn view(&self) -> RepositoryView {
        RepositoryView {
            name: self.name@,
            plans: self.plans@.map_values(|p: SessionPlan| p@),
            worktrees: self.worktrees@.map_values(|t: SessionWorktree| t@),
        }
    }
}

impl View for SessionWorkspace {
    type V = WorkspaceView;

    open spec fn view(&self) -> WorkspaceView {
        WorkspaceView {
            name: self.name@,
            repositories: self.repositories@.map_values(|r: SessionRepository| r@),
        }
    }
}

/// One entry read from a directory: its name and whether it is itself a
/// directory.
#[derive(Debug, PartialEq, Eq)]
pub struct DirEntryInfo {
    pub name: String,
    pub is_dir: bool,
}

/// Mathematical value of `DirEntryInfo`.
#[verifier::ext_equal]
pub struct EntryView {
    pub name: Seq<char>,
    pub is_dir: bool,
}

impl View for DirEntryInfo {
    type V = EntryView;

    open spec fn view(&self) -> EntryView {
        EntryView { name: self.name@, is_dir: self.is_dir }
    }
}

/// An entry of a workspace directory, together with the listing of the
/// matching worktree directory `<worktrees_root>/<workspace>/<name>`, or
/// `None` when that path does not exist.  For an entry that is not itself a
/// directory the listing is never consulted.
#[derive(Debug, PartialEq, Eq)]
pub struct RepoListing {
    pub name: String,
    pub is_dir: bool,
    pub worktree_entries: Option<Vec<DirEntryInfo>>,
}

/// Mathematical value of `RepoListing`.
#[verifier::ext_equal]
pub struct RepoListingView {
    pub name: Seq<char>,
    pub is_dir: bool,
    pub worktree_entries: Option<Seq<EntryView>>,
}

/// Mathematical value of an optional directory listing.
pub open spec fn entries_option_view(o: Option<Vec<DirEntryInfo>>) -> Option<Seq<EntryView>> {
    match o {
        Option::Some(v) => Option::Some(v@.map_values(|e: DirEntryInfo| e@)),
        Option::None => Option::None,
    }
}

impl View for RepoListing {
    type V = RepoListingView;

    open spec fn view(&self) -> RepoListingView {
        RepoListingView {
            name: self.name@,
            is_dir: self.is_dir,
            worktree_entries: entries_option_view(self.worktree_entries),
        }
    }
}

/// An entry of the working root, with the entries of the directory it
/// names.  For an entry that is not itself a directory the inner entries are
/// never consulted.
#[derive(Debug, PartialEq, Eq)]
pub struct WorkspaceListing {
    pub name: String,
    pub is_dir: bool,
    pub repo_entries: Vec<RepoListing>,
}

/// Mathematical value of `WorkspaceListing`.
#[verifier::ext_equal]
pub struct WorkspaceListingView {
    pub name: Seq<char>,
    pub is_dir: bool,
    pub repo_entries: Seq<RepoListingView>,
}

impl View for WorkspaceListing {
    type V = WorkspaceListingView;

    open spec fn view(&self) -> WorkspaceListingView {
        WorkspaceListingView {
            name: self.name@,
            is_dir: self.is_dir,
            repo_entries: self.repo_entries@.map_values(|r: RepoListing| r@),
        }
    }
}

/// Everything a scan reads from disk: the entries of the working root,
/// each with its own listings, or `None` when the working root itself does
/// not exist.
#[derive(Debug, PartialEq, Eq)]
pub struct ScanInput {
    pub root_entries: Option<Vec<WorkspaceListing>>,
}

/// Mathematical value of `ScanInput`.
#[verifier::ext_equal]
pub struct ScanInputView {
    pub root_entries: Option<Seq<WorkspaceListingView>>,
}

impl View for ScanInput {
    type V = ScanInputView;

    open spec fn view(&self) -> ScanInputView {
        ScanInputView {
            root_entries: match self.root_entries {
                Option::Some(ref v) => Option::Some(
                    v@.map_values(|w: WorkspaceListing| w@),
                ),
                Option::None => Option::None,
            },
        }
    }
}

/// The sort key of a worktree: its name.
pub open spec fn worktree_key() -> spec_fn(WorktreeView) -> Seq<char> {
    |t: WorktreeView| t.name
}

/// The sort key of a repository: its name.
pub open spec fn repository_key() -> spec_fn(RepositoryView) -> Seq<char> {
    |r: RepositoryView| r.name
}

/// The sort key of a workspace: its name.
pub open spec fn workspace_key() -> spec_fn(WorkspaceView) -> Seq<char> {
    |w: WorkspaceView| w.name
}

/// The worktree a directory entry stands for.
pub open spec fn worktree_of_entry(e: EntryView) -> WorktreeView {
    WorktreeView { name: e.name, terminals: Seq::empty() }
}

/// The worktrees of the directory entries, in listing order: one per
/// entry that is a directory.
pub open spec fn built_worktrees(entries: Seq<EntryView>) -> Seq<WorktreeView>
    decreases entries.len(),
{
    if entries.len() == 0 {
        Seq::empty()
    } else {
        let rest = built_worktrees(entries.drop_first());
        if entries[0].is_dir {
            seq![worktree_of_entry(entries[0])] + rest
        } else {
            rest
        }
    }
}

/// What the worktrees of a repository are: none when the repository's
/// worktree directory does not exist, else one per directory under it,
/// sorted by name.
pub open spec fn worktrees_spec(listing: Option<Seq<EntryView>>) -> Seq<WorktreeView> {
    match listing {
        Option::None => Seq::empty(),
        Option::Some(es) => sort_by_key(worktree_key(), built_worktrees(es)),
    }
}

/// The repository a workspace-directory entry stands for.
pub open spec fn repository_of_listing(r: RepoListingView) -> RepositoryView {
    RepositoryView {
        name: r.name,
        plans: Seq::empty(),
        worktrees: worktrees_spec(r.worktree_entries),
    }
}

/// The repositories of the workspace-directory entries, in listing order:
/// one per entry that is a directory.
pub open spec fn built_repositories(rs: Seq<RepoListingView>) -> Seq<RepositoryView>
    decreases rs.len(),
{
    if rs.len() == 0 {
        Seq::empty()
    } else {
        let rest = built_repositories(rs.drop_first());
        if rs[0].is_dir {
            seq![repository_of_listing(rs[0])] + rest
        } else {
            rest
        }
    }
}

/// What the repositories of a workspace are: one per directory under the
/// workspace directory, sorted by name.
pub open spec fn repositories_spec(rs: Seq<RepoListingView>) -> Seq<RepositoryView> {
    sort_by_key(repository_key(), built_repositories(rs))
}

/// The workspace a working-root entry stands for.
pub open spec fn workspace_of_listing(l: WorkspaceListingView) -> WorkspaceView {
    WorkspaceView { name: l.name, repositories: repositories_spec(l.repo_entries) }
}

/// The workspaces of the working-root entries, in listing order: one per
/// entry that is a directory.
pub open spec fn built_workspaces(ls: Seq<WorkspaceListingView>) -> Seq<WorkspaceView>
    decreases ls.len(),
{
    if ls.len() == 0 {
        Seq::empty()
    } else {
        let rest = built_workspaces(ls.drop_first());
        if ls[0].is_dir {
            seq![workspace_of_listing(ls[0])] + rest
        } else {
            rest
        }
    }
}

/// What a scan of the working root yields: nothing when the root does not
/// exist, else one workspace per directory under it, sorted by name, each
/// carrying its sorted repositories and their sorted worktrees.
pub open spec fn scan_spec(input: ScanInputView) -> Seq<WorkspaceView> {
    match input.root_entries {
        Option::None => Seq::empty(),
        Option::Some(ls) => sort_by_key(workspace_key(), built_workspaces(ls)),
    }
}

/// Inserts a worktree into a name-sorted vector at its `insert_sorted`
/// position.
fn insert_worktree(x: SessionWorktree, v: Vec<SessionWorktree>) -> (r: Vec<SessionWorktree>)
    ensures
        r@.map_values(|t: SessionWorktree| t@) == insert_sorted(
            worktree_key(),
            x@,
            v@.map_values(|t: SessionWorktree| t@),
        ),
{
    let ghost key = worktree_key();
    let ghost orig = v@.map_values(|t: SessionWorktree| t@);
    let mut v = v;
    let n = v.len();
    let mut j: usize = 0;
    while j < n && !str_le(x.name.as_str(), v[j].name.as_str())
        invariant
            n == v@.len(),
            orig == v@.map_values(|t: SessionWorktree| t@),
            0 <= j <= n,
            forall|k: int| 0 <= k < j ==> !lex_le(x@.name, #[trigger] orig[k].name),
        decreases n - j,
    {
        j = j + 1;
    }
    proof {
        lemma_insert_pos_at(key, x@, orig, j as int);
        lemma_insert_sorted_is_insert(key, x@, orig);
    }
    v.insert(j, x);
    proof {
        assert(v@.map_values(|t: SessionWorktree| t@) =~= orig.insert(j as int, x@));
    }
    v
}

/// Sorts worktrees by name.
fn sort_worktrees(v: Vec<SessionWorktree>) -> (r: Vec<SessionWorktree>)
    ensures
        r@.map_values(|t: SessionWorktree| t@) == sort_by_key(
            worktree_key(),
            v@.map_values(|t: SessionWorktree| t@),
        ),
{
    let ghost key = worktree_key();
    let ghost orig = v@.map_values(|t: SessionWorktree| t@);
    let mut v = v;
    let mut out: Vec<SessionWorktree> = Vec::new();
    proof {
        assert(v@.map_values(|t: SessionWorktree| t@) =~= orig.take(orig.len() as int));
        assert(orig.skip(orig.len() as int) =~= Seq::<WorktreeView>::empty());
        assert(out@.map_values(|t: SessionWorktree| t@) =~= sort_by_key(
            key,
            orig.skip(orig.len() as int),
        ));
    }
    while v.len() > 0
        invariant
            key == worktree_key(),
            v@.len() <= orig.len(),
            v@.map_values(|t: SessionWorktree| t@) == orig.take(v@.len() as int),
            out@.map_values(|t: SessionWorktree| t@) == sort_by_key(
                key,
                orig.skip(v@.len() as int),
            ),
        decreases v@.len(),
    {
        let ghost m = v@.len() as int;
        let x = v.pop().unwrap();
        proof {
            assert(x@ == orig.take(m)[m - 1]);
            assert(v@.map_values(|t: SessionWorktree| t@) =~= orig.take(m - 1));
            let tail = orig.skip(m - 1);
            assert(tail[0] == orig[m - 1]);
            assert(tail.drop_first() =~= orig.skip(m));
            assert(sort_by_key(key, tail) == insert_sorted(
                key,
                orig[m - 1],
                sort_by_key(key, orig.skip(m)),
            ));
        }
        out = insert_worktree(x, out);
    }
    proof {
        assert(orig.skip(0) =~= orig);
    }
    out
}

/// Inserts a repository into a name-sorted vector at its `insert_sorted`
/// position.
fn insert_repository(x: SessionRepository, v: Vec<SessionRepository>) -> (r: Vec<
    SessionRepository,
>)
    ensures
        r@.map_values(|t: SessionRepository| t@) == insert_sorted(
            repository_key(),
            x@,
            v@.map_values(|t: SessionRepository| t@),
        ),
{
    let ghost key = repository_key();
    let ghost orig = v@.map_values(|t: SessionRepository| t@);
    let mut v = v;
    let n = v.len();
    let mut j: usize = 0;
    while j < n && !str_le(x.name.as_str(), v[j].name.as_str())
        invariant
            n == v@.len(),
            orig == v@.map_values(|t: SessionRepository| t@),
            0 <= j <= n,
            forall|k: int| 0 <= k < j ==> !lex_le(x@.name, #[trigger] orig[k].name),
        decreases n - j,
    {
        j = j + 1;
    }
    proof {
        lemma_insert_pos_at(key, x@, orig, j as int);
        lemma_insert_sorted_is_insert(key, x@, orig);
    }
    v.insert(j, x);
    proof {
        assert(v@.map_values(|t: SessionRepository| t@) =~= orig.insert(j as int, x@));
    }
    v
}

/// Sorts repositories by name.
fn sort_repositories(v: Vec<SessionRepository>) -> (r: Vec<SessionRepository>)
    ensures
        r@.map_values(|t: SessionRepository| t@) == sort_by_key(
            repository_key(),
            v@.map_values(|t: SessionRepository| t@),
        ),
{
    let ghost key = repository_key();
    let ghost orig = v@.map_values(|t: SessionRepository| t@);
    let mut v = v;
    let mut out: Vec<SessionRepository> = Vec::new();
    proof {
        assert(v@.map_values(|t: SessionRepository| t@) =~= orig.take(orig.len() as int));
        assert(orig.skip(orig.len() as int) =~= Seq::<RepositoryView>::empty());
        assert(out@.map_values(|t: SessionRepository| t@) =~= sort_by_key(
            key,
            orig.skip(orig.len() as int),
        ));
    }
    while v.len() > 0
        invariant
            key == repository_key(),
            v@.len() <= orig.len(),
            v@.map_values(|t: SessionRepository| t@) == orig.take(v@.len() as int),
            out@.map_values(|t: SessionRepository| t@) == sort_by_key(
                key,
                orig.skip(v@.len() as int),
            ),
        decreases v@.len(),
    {
        let ghost m = v@.len() as int;
        let x = v.pop().unwrap();
        proof {
            assert(x@ == orig.take(m)[m - 1]);
            assert(v@.map_values(|t: SessionRepository| t@) =~= orig.take(m - 1));
            let tail = orig.skip(m - 1);
            assert(tail[0] == orig[m - 1]);
            assert(tail.drop_first() =~= orig.skip(m));
            assert(sort_by_key(key, tail) == insert_sorted(
                key,
                orig[m - 1],
                sort_by_key(key, orig.skip(m)),
            ));
        }
        out = insert_repository(x, out);
    }
    proof {
        assert(orig.skip(0) =~= orig);
    }
    out
}

/// Inserts a workspace into a name-sorted vector at its `insert_sorted`
/// position.
fn insert_workspace(x: SessionWorkspace, v: Vec<SessionWorkspace>) -> (r: Vec<SessionWorkspace>)
    ensures
        r@.map_values(|t: SessionWorkspace| t@) == insert_sorted(
            workspace_key(),
            x@,
            v@.map_values(|t: SessionWorkspace| t@),
        ),
{
    let ghost key = workspace_key();
    let ghost orig = v@.map_values(|t: SessionWorkspace| t@);
    let mut v = v;
    let n = v.len();
    let mut j: usize = 0;
    while j < n && !str_le(x.name.as_str(), v[j].name.as_str())
        invariant
            n == v@.len(),
            orig == v@.map_values(|t: SessionWorkspace| t@),
            0 <= j <= n,
            forall|k: int| 0 <= k < j ==> !lex_le(x@.name, #[trigger] orig[k].name),
        decreases n - j,
    {
        j = j + 1;
    }
    proof {
        lemma_insert_pos_at(key, x@, orig, j as int);
        lemma_insert_sorted_is_insert(key, x@, orig);
    }
    v.insert(j, x);
    proof {
        assert(v@.map_values(|t: SessionWorkspace| t@) =~= orig.insert(j as int, x@));
    }
    v
}

/// Sorts workspaces by name.
fn sort_workspaces(v: Vec<SessionWorkspace>) -> (r: Vec<SessionWorkspace>)
    ensures
        r@.map_values(|t: SessionWorkspace| t@) == sort_by_key(
            workspace_key(),
            v@.map_values(|t: SessionWorkspace| t@),
        ),
{
    let ghost key = workspace_key();
    let ghost orig = v@.map_values(|t: SessionWorkspace| t@);
    let mut v = v;
    let mut out: Vec<SessionWorkspace> = Vec::new();
    proof {
        assert(v@.map_values(|t: SessionWorkspace| t@) =~= orig.take(orig.len() as int));
        assert(orig.skip(orig.len() as int) =~= Seq::<WorkspaceView>::empty());
        assert(out@.map_values(|t: SessionWorkspace| t@) =~= sort_by_key(
            key,
            orig.skip(orig.len() as int),
        ));
    }
    while v.len() > 0
        invariant
            key == workspace_key(),
            v@.len() <= orig.len(),
            v@.map_values(|t: SessionWorkspace| t@) == orig.take(v@.len() as int),
            out@.map_values(|t: SessionWorkspace| t@) == sort_by_key(
                key,
                orig.skip(v@.len() as int),
            ),
        decreases v@.len(),
    {
        let ghost m = v@.len() as int;
        let x = v.pop().unwrap();
        proof {
            assert(x@ == orig.take(m)[m - 1]);
            assert(v@.map_values(|t: SessionWorkspace| t@) =~= orig.take(m - 1));
            let tail = orig.skip(m - 1);
            assert(tail[0] == orig[m - 1]);
            assert(tail.drop_first() =~= orig.skip(m));
            assert(sort_by_key(key, tail) == insert_sorted(
                key,
                orig[m - 1],
                sort_by_key(key, orig.skip(m)),
            ));
        }
        out = insert_workspace(x, out);
    }
    proof {
        assert(orig.skip(0) =~= orig);
    }
    out
}

/// Builds the worktrees of the entries that are directories, in listing
/// order.
fn build_worktrees(entries: &Vec<DirEntryInfo>) -> (r: Vec<SessionWorktree>)
    ensures
        r@.map_values(|t: SessionWorktree| t@) == built_worktrees(
            entries@.map_values(|e: DirEntryInfo| e@),
        ),
{
    let ghost all = entries@.map_values(|e: DirEntryInfo| e@);
    let n = entries.len();
    let mut r: Vec<SessionWorktree> = Vec::new();
    let mut i: usize = 0;
    proof {
        assert(all.skip(0) =~= all);
        assert(r@.map_values(|t: SessionWorktree| t@) + built_worktrees(all) =~= built_worktrees(
            all,
        ));
    }
    while i < n
        invariant
            n == entries@.len(),
            all == entries@.map_values(|e: DirEntryInfo| e@),
            0 <= i <= n,
            built_worktrees(all) == r@.map_values(|t: SessionWorktree| t@) + built_worktrees(
                all.skip(i as int),
            ),
        decreases n - i,
    {
        proof {
            let rest = all.skip(i as int);
            assert(rest[0] == all[i as int]);
            assert(rest.drop_first() =~= all.skip(i + 1));
        }
        if entries[i].is_dir {
            let w = SessionWorktree { name: entries[i].name.clone(), terminals: Vec::new() };
            proof {
                assert(w@ =~= worktree_of_entry(all[i as int]));
                assert(r@.push(w).map_values(|t: SessionWorktree| t@) =~= r@.map_values(
                    |t: SessionWorktree| t@,
                ) + seq![w@]);
            }
            r.push(w);
        }
        i = i + 1;
    }
    proof {
        assert(all.skip(n as int) =~= Seq::<EntryView>::empty());
        assert(r@.map_values(|t: SessionWorktree| t@) + built_worktrees(all.skip(n as int))
            =~= r@.map_values(|t: SessionWorktree| t@));
    }
    r
}

/// The worktrees of one repository: none when its worktree directory is
/// missing, else one per directory under it, sorted by name.
pub fn worktrees_for_repo(listing: &Option<Vec<DirEntryInfo>>) -> (r: Vec<SessionWorktree>)
    ensures
        r@.map_values(|t: SessionWorktree| t@) == worktrees_spec(entries_option_view(*listing)),
{
    match listing {
        Option::None => {
            let r: Vec<SessionWorktree> = Vec::new();
            proof {
                assert(r@.map_values(|t: SessionWorktree| t@) =~= Seq::<WorktreeView>::empty());
            }
            r
        },
        Option::Some(entries) => sort_worktrees(build_worktrees(entries)),
    }
}

/// Builds the repositories of the workspace-directory entries that are
/// directories, in listing order, each with its worktrees.
fn build_repositories(rs: &Vec<RepoListing>) -> (r: Vec<SessionRepository>)
    ensures
        r@.map_values(|t: SessionRepository| t@) == built_repositories(
            rs@.map_values(|x: RepoListing| x@),
        ),
{
    let ghost all = rs@.map_values(|x: RepoListing| x@);
    let n = rs.len();
    let mut r: Vec<SessionRepository> = Vec::new();
    let mut i: usize = 0;
    proof {
        assert(all.skip(0) =~= all);
        assert(r@.map_values(|t: SessionRepository| t@) + built_repositories(all)
            =~= built_repositories(all));
    }
    while i < n
        invariant
            n == rs@.len(),
            all == rs@.map_values(|x: RepoListing| x@),
            0 <= i <= n,
            built_repositories(all) == r@.map_values(|t: SessionRepository| t@)
                + built_repositories(all.skip(i as int)),
        decreases n - i,
    {
        proof {
            let rest = all.skip(i as int);
            assert(rest[0] == all[i as int]);
            assert(rest.drop_first() =~= all.skip(i + 1));
        }
        if rs[i].is_dir {
            let worktrees = worktrees_for_repo(&rs[i].worktree_entries);
            let repo = SessionRepository {
                name: rs[i].name.clone(),
                plans: Vec::new(),
                worktrees,
            };
            proof {
                assert(repo@ =~= repository_of_listing(all[i as int]));
                assert(r@.push(repo).map_values(|t: SessionRepository| t@) =~= r@.map_values(
                    |t: SessionRepository| t@,
                ) + seq![repo@]);
            }
            r.push(repo);
        }
        i = i + 1;
    }
    proof {
        assert(all.skip(n as int) =~= Seq::<RepoListingView>::empty());
        assert(r@.map_values(|t: SessionRepository| t@) + built_repositories(all.skip(n as int))
            =~= r@.map_values(|t: SessionRepository| t@));
    }
    r
}

/// The repositories of one workspace: one per directory among the
/// workspace-directory entries, sorted by name, each with its worktrees.
pub fn repositories_from_dir(rs: &Vec<RepoListing>) -> (r: Vec<SessionRepository>)
    ensures
        r@.map_values(|t: SessionRepository| t@) == repositories_spec(
            rs@.map_values(|x: RepoListing| x@),
        ),
{
    sort_repositories(build_repositories(rs))
}

/// Builds the workspaces of the working-root entries that are directories,
/// in listing order, each with its repositories.
fn build_workspaces(ls: &Vec<WorkspaceListing>) -> (r: Vec<SessionWorkspace>)
    ensures
        r@.map_values(|t: SessionWorkspace| t@) == built_workspaces(
            ls@.map_values(|x: WorkspaceListing| x@),
        ),
{
    let ghost all = ls@.map_values(|x: WorkspaceListing| x@);
    let n = ls.len();
    let mut r: Vec<SessionWorkspace> = Vec::new();
    let mut i: usize = 0;
    proof {
        assert(all.skip(0) =~= all);
        assert(r@.map_values(|t: SessionWorkspace| t@) + built_workspaces(all)
            =~= built_workspaces(all));
    }
    while i < n
        invariant
            n == ls@.len(),
            all == ls@.map_values(|x: WorkspaceListing| x@),
            0 <= i <= n,
            built_workspaces(all) == r@.map_values(|t: SessionWorkspace| t@) + built_workspaces(
                all.skip(i as int),
            ),
        decreases n - i,
    {
        proof {
            let rest = all.skip(i as int);
            assert(rest[0] == all[i as int]);
            assert(rest.drop_first() =~= all.skip(i + 1));
        }
        if ls[i].is_dir {
            let repositories = repositories_from_dir(&ls[i].repo_entries);
            let w = SessionWorkspace { name: ls[i].name.clone(), repositories };
            proof {
                assert(w@ =~= workspace_of_listing(all[i as int]));
                assert(r@.push(w).map_values(|t: SessionWorkspace| t@) =~= r@.map_values(
                    |t: SessionWorkspace| t@,
                ) + seq![w@]);
            }
            r.push(w);
        }
        i = i + 1;
    }
    proof {
        assert(all.skip(n as int) =~= Seq::<WorkspaceListingView>::empty());
        assert(r@.map_values(|t: SessionWorkspace| t@) + built_workspaces(all.skip(n as int))
            =~= r@.map_values(|t: SessionWorkspace| t@));
    }
    r
}

/// The session tree of a working root: nothing when the root does not
/// exist, else one workspace per directory under it, sorted by name, each
/// carrying its sorted repositories and their sorted worktrees.
pub fn workspaces_from_dir(input: &ScanInput) -> (r: Vec<SessionWorkspace>)
    ensures
        r@.map_values(|t: SessionWorkspace| t@) == scan_spec(input@),
{
    match &input.root_entries {
        Option::None => {
            let r: Vec<SessionWorkspace> = Vec::new();
            proof {
                assert(r@.map_values(|t: SessionWorkspace| t@) =~= Seq::<WorkspaceView>::empty());
            }
            r
        },
        Option::Some(ls) => sort_workspaces(build_workspaces(ls)),
    }
}

/// Siblings at every level of a session tree are in ascending name order.
pub open spec fn tree_sorted(ws: Seq<WorkspaceView>) -> bool {
    &&& sorted_by_key(workspace_key(), ws)
    &&& forall|i: int|
        0 <= i < ws.len() ==> sorted_by_key(repository_key(), #[trigger] ws[i].repositories)
    &&& forall|i: int, j: int|
        0 <= i < ws.len() && 0 <= j < ws[i].repositories.len() ==> sorted_by_key(
            worktree_key(),
            #[trigger] ws[i].repositories[j].worktrees,
        )
}

proof fn lemma_built_workspaces_elem(ls: Seq<WorkspaceListingView>, i: int)
    requires
        0 <= i < built_workspaces(ls).len(),
    ensures
        exists|k: int|
            0 <= k < ls.len() && built_workspaces(ls)[i] == #[trigger] workspace_of_listing(ls[k]),
    decreases ls.len(),
{
    if ls.len() == 0 {
    } else {
        let t = ls.drop_first();
        if ls[0].is_dir && i == 0 {
            assert(built_workspaces(ls)[0] == workspace_of_listing(ls[0]));
        } else {
            let ii = if ls[0].is_dir {
                i - 1
            } else {
                i
            };
            assert(built_workspaces(ls)[i] == built_workspaces(t)[ii]);
            lemma_built_workspaces_elem(t, ii);
            let k = choose|k: int|
                0 <= k < t.len() && built_workspaces(t)[ii] == #[trigger] workspace_of_listing(t[k]);
            assert(t[k] == ls[k + 1]);
            assert(built_workspaces(ls)[i] == workspace_of_listing(ls[k + 1]));
        }
    }
}

proof fn lemma_built_repositories_elem(rs: Seq<RepoListingView>, i: int)
    requires
        0 <= i < built_repositories(rs).len(),
    ensures
        exists|k: int|
            0 <= k < rs.len() && built_repositories(rs)[i] == #[trigger] repository_of_listing(rs[k]),
    decreases rs.len(),
{
    if rs.len() == 0 {
    } else {
        let t = rs.drop_first();
        if rs[0].is_dir && i == 0 {
            assert(built_repositories(rs)[0] == repository_of_listing(rs[0]));
        } else {
            let ii = if rs[0].is_dir {
                i - 1
            } else {
                i
            };
            assert(built_repositories(rs)[i] == built_repositories(t)[ii]);
            lemma_built_repositories_elem(t, ii);
            let k = choose|k: int|
                0 <= k < t.len() && built_repositories(t)[ii] == #[trigger] repository_of_listing(t[k]);
            assert(t[k] == rs[k + 1]);
            assert(built_repositories(rs)[i] == repository_of_listing(rs[k + 1]));
        }
    }
}

/// For every input, the scanned tree is sorted at every level: workspaces
/// by name, the repositories of each workspace by name, and the worktrees
/// of each repository by name.
pub proof fn lemma_scan_sorted(input: ScanInputView)
    ensures
        tree_sorted(scan_spec(input)),
{
    match input.root_entries {
        Option::None => {
        },
        Option::Some(ls) => {
            let built = built_workspaces(ls);
            let out = scan_spec(input);
            lemma_sort_by_key_sorted(workspace_key(), built);
            lemma_sort_by_key_elems(workspace_key(), built);
            assert forall|i: int| 0 <= i < out.len() implies sorted_by_key(
                repository_key(),
                #[trigger] out[i].repositories,
            ) by {
                let j = choose|j: int| 0 <= j < built.len() && out[i] == built[j];
                lemma_built_workspaces_elem(ls, j);
                let k = choose|k: int|
                    0 <= k < ls.len() && built[j] == #[trigger] workspace_of_listing(ls[k]);
                lemma_sort_by_key_sorted(
                    repository_key(),
                    built_repositories(ls[k].repo_entries),
                );
            }
            assert forall|i: int, j: int|
                0 <= i < out.len() && 0 <= j < out[i].repositories.len() implies sorted_by_key(
                worktree_key(),
                #[trigger] out[i].repositories[j].worktrees,
            ) by {
                let a = choose|a: int| 0 <= a < built.len() && out[i] == built[a];
                lemma_built_workspaces_elem(ls, a);
                let k = choose|k: int|
                    0 <= k < ls.len() && built[a] == #[trigger] workspace_of_listing(ls[k]);
                let rs = ls[k].repo_entries;
                let built_rs = built_repositories(rs);
                lemma_sort_by_key_elems(repository_key(), built_rs);
                assert(out[i].repositories == sort_by_key(repository_key(), built_rs));
                let b = choose|b: int|
                    0 <= b < built_rs.len() && out[i].repositories[j] == built_rs[b];
                lemma_built_repositories_elem(rs, b);
                let m = choose|m: int|
                    0 <= m < rs.len() && built_rs[b] == #[trigger] repository_of_listing(rs[m]);
                match rs[m].worktree_entries {
                    Option::None => {
                    },
                    Option::Some(es) => {
                        lemma_sort_by_key_sorted(worktree_key(), built_worktrees(es));
                    },
                }
            }
        },
    }
}

/// A scan of a working root that does not exist yields no workspaces.
pub proof fn lemma_scan_of_missing_root(input: ScanInputView)
    requires
        input.root_entries is None,
    ensures
        scan_spec(input) == Seq::<WorkspaceView>::empty(),
{
}

/// A repository whose directory under the worktrees root does not exist
/// has no worktrees.
pub proof fn lemma_worktrees_of_missing_dir(listing: Option<Seq<EntryView>>)
    requires
        listing is None,
    ensures
        worktrees_spec(listing) == Seq::<WorktreeView>::empty(),
{
}

} // verus!
