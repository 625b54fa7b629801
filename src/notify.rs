use crate::repo::Repo;
use vstd::prelude::*;

verus! {

/// The permalink of a commit: the repository's url, its commit subpath, and
/// the hash.
pub open spec fn permalink(url: Seq<char>, commit_subpath: Seq<char>, hash: Seq<char>) -> Seq<char> {
    url + commit_subpath + hash
}

/// The body of a notification: the subject and a link to the commit.
pub open spec fn body_text(subject: Seq<char>, link: Seq<char>) -> Seq<char> {
    subject + " <a href=\""@ + link + "\">commit link</a>"@
}

pub fn commit_url(repo: &Repo, hash: &str) -> (r: String)
    ensures
        r@ == permalink(repo@.url, repo@.commit_subpath, hash@),
{
    let mut r = String::from_str(repo.url());
    r.append(repo.commit_subpath());
    r.append(hash);
    r
}

pub fn notification_body(subject: &str, link: &str) -> (r: String)
    ensures
        r@ == body_text(subject@, link@),
{
    let mut r = String::from_str(subject);
    r.append(" <a href=\"");
    r.append(link);
    r.append("\">commit link</a>");
    r
}

} // verus!
