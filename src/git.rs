use crate::repo::{texts, Repo};
use vstd::prelude::*;

verus! {

/// The character of a decimal digit.
pub open spec fn digit(d: nat) -> char {
    seq!['0', '1', '2', '3', '4', '5', '6', '7', '8', '9'][d as int]
}

/// The decimal numeral of `n`: no sign, no leading zero.
pub open spec fn decimal(n: nat) -> Seq<char>
    decreases n,
{
    if n < 10 {
        seq![digit(n)]
    } else {
        decimal(n / 10) + seq![digit(n % 10)]
    }
}

/// Relies on the `Display` of `u64`, through `ToString`: it writes the
/// decimal numeral of the number.
#[verifier::external_body]
pub(crate) fn decimal_text(n: u64) -> (r: String)
    ensures
        r@ == decimal(n as nat),
{
    n.to_string()
}

/// The remote-tracking branch that the history queries read.
pub open spec fn remote_ref(branch: Seq<char>) -> Seq<char> {
    "origin/"@ + branch
}

fn remote_ref_text(repo: &Repo) -> (r: String)
    ensures
        r@ == remote_ref(repo@.branch),
{
    let mut r = String::from_str("origin/");
    r.append(repo.branch());
    r
}

/// The arguments of git for a shallow, tree-less, single-branch clone of the
/// repository's branch into `path`, without checkout or tags, `depth` commits
/// deep.
pub fn clone_command(repo: &Repo, path: &str, depth: u64) -> (r: Vec<String>)
    ensures
        texts(r@) == seq![
            "clone"@,
            "--depth="@ + decimal(depth as nat),
            "--filter=tree:0"@,
            "--no-checkout"@,
            "--single-branch"@,
            "--no-tags"@,
            "--branch"@,
            repo@.branch,
            repo@.url,
            path@,
        ],
{
    let mut depth_flag = String::from_str("--depth=");
    let digits = decimal_text(depth);
    depth_flag.append(digits.as_str());
    let mut r: Vec<String> = Vec::new();
    r.push(String::from_str("clone"));
    r.push(depth_flag);
    r.push(String::from_str("--filter=tree:0"));
    r.push(String::from_str("--no-checkout"));
    r.push(String::from_str("--single-branch"));
    r.push(String::from_str("--no-tags"));
    r.push(String::from_str("--branch"));
    r.push(String::from_str(repo.branch()));
    r.push(String::from_str(repo.url()));
    r.push(String::from_str(path));
    proof {
        assert(texts(r@) =~= seq![
            "clone"@,
            "--depth="@ + decimal(depth as nat),
            "--filter=tree:0"@,
            "--no-checkout"@,
            "--single-branch"@,
            "--no-tags"@,
            "--branch"@,
            repo@.branch,
            repo@.url,
            path@,
        ]);
    }
    r
}

/// The arguments of git that update a shallow mirror: no deepening, shallow
/// boundary updated, no tags, no submodules.
pub fn fetch_command() -> (r: Vec<String>)
    ensures
        texts(r@) == seq![
            "fetch"@,
            "--filter=tree:0"@,
            "--no-tags"@,
            "--no-deepen"@,
            "--update-shallow"@,
            "--no-recurse-submodules"@,
        ],
{
    let mut r: Vec<String> = Vec::new();
    r.push(String::from_str("fetch"));
    r.push(String::from_str("--filter=tree:0"));
    r.push(String::from_str("--no-tags"));
    r.push(String::from_str("--no-deepen"));
    r.push(String::from_str("--update-shallow"));
    r.push(String::from_str("--no-recurse-submodules"));
    proof {
        assert(texts(r@) =~= seq![
            "fetch"@,
            "--filter=tree:0"@,
            "--no-tags"@,
            "--no-deepen"@,
            "--update-shallow"@,
            "--no-recurse-submodules"@,
        ]);
    }
    r
}

fn log_command(repo: &Repo, format: &str) -> (r: Vec<String>)
    ensures
        texts(r@) == seq!["log"@, format@, remote_ref(repo@.branch)],
{
    let mut r: Vec<String> = Vec::new();
    r.push(String::from_str("log"));
    r.push(String::from_str(format));
    r.push(remote_ref_text(repo));
    proof {
        assert(texts(r@) =~= seq!["log"@, format@, remote_ref(repo@.branch)]);
    }
    r
}

/// The arguments of git that list the branch's commit hashes, newest first,
/// one per line.
pub fn hashes_query(repo: &Repo) -> (r: Vec<String>)
    ensures
        texts(r@) == seq!["log"@, "--pretty=format:%H"@, remote_ref(repo@.branch)],
{
    log_command(repo, "--pretty=format:%H")
}

/// The arguments of git that list the branch's commit subjects, newest
/// first, one per line.
pub fn subjects_query(repo: &Repo) -> (r: Vec<String>)
    ensures
        texts(r@) == seq!["log"@, "--pretty=format:%s"@, remote_ref(repo@.branch)],
{
    log_command(repo, "--pretty=format:%s")
}

} // verus!
