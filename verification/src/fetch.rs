//! Remote fetching of a pinned revision with minimal transfer: the plan is a
//! fixed sequence of version-control invocations that initializes an empty
//! repository, fetches only the pinned commit at depth one, resets to it, and
//! brings in submodules at depth one with a small bounded job count.

use vstd::prelude::*;

verus! {

/// One external process invocation the unverified shell must perform, in the
/// given working directory, creating that directory first if it is absent.
/// A non-zero exit of any planned call is immediately fatal.
#[derive(Debug)]
pub struct ProcessCall {
    pub program: String,
    pub cwd: String,
    pub args: Vec<String>,
}

/// The argument lists of the five version-control calls that materialize
/// `revision` from `repository_url`, in order.
pub open spec fn spec_clone_plan_args(repository_url: Seq<char>, revision: Seq<char>) -> Seq<
    Seq<Seq<char>>,
> {
    seq![
        seq!["init"@],
        seq!["remote"@, "add"@, "origin"@, repository_url],
        seq!["fetch"@, "origin"@, revision, "--depth=1"@],
        seq!["reset"@, "--hard"@, "FETCH_HEAD"@],
        seq!["submodule"@, "update"@, "--init"@, "--recursive"@, "--depth=1"@, "--jobs=8"@],
    ]
}

fn string_vec(parts: &Vec<&str>) -> (r: Vec<String>)
    ensures
        r.deep_view() =~= parts.deep_view(),
{
    let mut out: Vec<String> = Vec::new();
    let mut i: usize = 0;
    while i < parts.len()
        invariant
            i <= parts@.len(),
            out@.len() == i,
            forall|j: int| 0 <= j < i ==> (#[trigger] out@[j])@ == parts@[j]@,
        decreases parts@.len() - i,
    {
        let ghost prev = out@;
        let s = parts[i].to_owned();
        out.push(s);
        proof {
            assert(forall|j: int| 0 <= j < i ==> out@[j] == prev[j]);
        }
        i = i + 1;
    }
    proof {
        assert forall|j: int| 0 <= j < out@.len() implies out.deep_view()[j]
            == parts.deep_view()[j] by {
            assert(out.deep_view()[j] == out@[j]@);
            assert(parts.deep_view()[j] == parts@[j]@);
        }
        assert(out.deep_view() =~= parts.deep_view());
    }
    out
}

fn git_call(dir: &str, parts: Vec<&str>) -> (r: ProcessCall)
    ensures
        r.program@ == "git"@,
        r.cwd@ == dir@,
        r.args.deep_view() =~= parts.deep_view(),
{
    let args = string_vec(&parts);
    ProcessCall { program: "git".to_owned(), cwd: dir.to_owned(), args }
}

/// Plans the clone of the pinned `revision` of `repository_url` into `dir`:
/// five version-control calls that initialize a blank repository there, add
/// the remote, fetch only the pinned revision at depth one, hard-reset to the
/// fetched head, and update submodules recursively at depth one with eight
/// parallel jobs. Every call runs in `dir` and transfers no project history
/// beyond the pinned commit.
pub fn clone_plan(dir: &str, repository_url: &str, revision: &str) -> (r: Vec<ProcessCall>)
    ensures
        r@.len() == 5,
        forall|i: int|
            0 <= i < 5 ==> (#[trigger] r@[i]).program@ == "git"@ && r@[i].cwd@ == dir@,
        r@[0].args.deep_view() =~= spec_clone_plan_args(repository_url@, revision@)[0],
        r@[1].args.deep_view() =~= spec_clone_plan_args(repository_url@, revision@)[1],
        r@[2].args.deep_view() =~= spec_clone_plan_args(repository_url@, revision@)[2],
        r@[3].args.deep_view() =~= spec_clone_plan_args(repository_url@, revision@)[3],
        r@[4].args.deep_view() =~= spec_clone_plan_args(repository_url@, revision@)[4],
{
    let mut out: Vec<ProcessCall> = Vec::new();
    let mut a: Vec<&str> = Vec::new();
    a.push("init");
    out.push(git_call(dir, a));

    let mut b: Vec<&str> = Vec::new();
    b.push("remote");
    b.push("add");
    b.push("origin");
    b.push(repository_url);
    out.push(git_call(dir, b));

    let mut c: Vec<&str> = Vec::new();
    c.push("fetch");
    c.push("origin");
    c.push(revision);
    c.push("--depth=1");
    out.push(git_call(dir, c));

    let mut d: Vec<&str> = Vec::new();
    d.push("reset");
    d.push("--hard");
    d.push("FETCH_HEAD");
    out.push(git_call(dir, d));

    let mut e: Vec<&str> = Vec::new();
    e.push("submodule");
    e.push("update");
    e.push("--init");
    e.push("--recursive");
    e.push("--depth=1");
    e.push("--jobs=8");
    out.push(git_call(dir, e));

    out
}

} // verus!
