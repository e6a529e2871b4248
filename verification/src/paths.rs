//! Textual path arithmetic.  The library addresses every directory as a
//! plain string and joins components with `/`; no component it joins ever
//! holds a separator of its own.

use vstd::prelude::*;
use vstd::string::*;

verus! {

/// `base` and `child` joined with a `/` separator.
pub open spec fn join_spec(base: Seq<char>, child: Seq<char>) -> Seq<char> {
    base + seq!['/'] + child
}

/// Joins one path component onto a base path.
pub fn join(base: &str, child: &str) -> (r: String)
    ensures
        r@ == join_spec(base@, child@),
{
    let mut r = base.to_owned();
    r.append("/");
    r.append(child);
    proof {
        reveal_strlit("/");
        assert(r@ =~= join_spec(base@, child@));
    }
    r
}

/// Where worktrees live for a given home directory:
/// `<home>/.agentrix/worktrees`.
pub fn default_worktrees_root_for_home(home: &str) -> (r: String)
    ensures
        r@ == home@ + "/.agentrix/worktrees"@,
{
    let mut r = home.to_owned();
    r.append("/.agentrix/worktrees");
    r
}

} // verus!
