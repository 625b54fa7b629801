use vstd::prelude::*;

verus! {

/// What can go wrong while tracking a repository.
#[derive(Debug, PartialEq, Eq, Structural)]
pub enum NotifierError {
    /// The clone did not succeed.
    CloneError,
    /// Updating the local mirror did not succeed.
    FetchError,
    /// An update was asked of a repository that was never cloned.
    NotClonedError,
    /// The history query listed no commit at all.
    EmptyHistoryError,
    /// A repository descriptor could not be read.
    MalformedConfigError,
}

/// One commit: its hash and its subject line.
pub struct Commit {
    pub hash: String,
    pub subject: String,
}

impl View for Commit {
    type V = (Seq<char>, Seq<char>);

    open spec fn view(&self) -> (Seq<char>, Seq<char>) {
        (self.hash@, self.subject@)
    }
}

/// The text of each string of a list.
pub open spec fn texts(v: Seq<String>) -> Seq<Seq<char>> {
    v.map_values(|s: String| s@)
}

/// The (hash, subject) pair of each commit of a list.
pub open spec fn commit_views(v: Seq<Commit>) -> Seq<(Seq<char>, Seq<char>)> {
    v.map_values(|c: Commit| c@)
}

/// How many hashes, from the newest, come before the first one equal to
/// `mark`; all of them when none is, or when there is no mark.
pub open spec fn unseen_count(hashes: Seq<Seq<char>>, mark: Option<Seq<char>>) -> nat
    decreases hashes.len(),
{
    if hashes.len() == 0 {
        0
    } else if mark == Some(hashes[0]) {
        0
    } else {
        1 + unseen_count(hashes.drop_first(), mark)
    }
}

/// The number of commits that a query lists: hashes and subjects pair up by
/// position, as far as both go.
pub open spec fn listed_count(hashes: Seq<Seq<char>>, subjects: Seq<Seq<char>>) -> nat {
    if hashes.len() <= subjects.len() {
        hashes.len()
    } else {
        subjects.len()
    }
}

/// The commits of a newest-first listing that are newer than `mark`,
/// oldest first.
pub open spec fn new_commits(
    hashes: Seq<Seq<char>>,
    subjects: Seq<Seq<char>>,
    mark: Option<Seq<char>>,
) -> Seq<(Seq<char>, Seq<char>)> {
    let k = unseen_count(hashes.take(listed_count(hashes, subjects) as int), mark) as int;
    Seq::new(k as nat, |i: int| (hashes[k - 1 - i], subjects[k - 1 - i]))
}

/// The commits of a newest-first listing, newest first, paired by position.
pub open spec fn listing(hashes: Seq<Seq<char>>, subjects: Seq<Seq<char>>) -> Seq<(Seq<char>, Seq<char>)> {
    Seq::new(listed_count(hashes, subjects), |i: int| (hashes[i], subjects[i]))
}

/// No hash before the unseen count equals the mark, and the count is at
/// most the length of the listing.
proof fn lemma_unseen_prefix(hashes: Seq<Seq<char>>, mark: Option<Seq<char>>)
    ensures
        unseen_count(hashes, mark) <= hashes.len(),
        forall|j: int| 0 <= j < unseen_count(hashes, mark) ==> mark != Some(#[trigger] hashes[j]),
    decreases hashes.len(),
{
    if hashes.len() > 0 && mark != Some(hashes[0]) {
        let rest = hashes.drop_first();
        lemma_unseen_prefix(rest, mark);
        assert forall|j: int| 0 <= j < unseen_count(hashes, mark) implies mark != Some(
            #[trigger] hashes[j],
        ) by {
            if j > 0 {
                assert(hashes[j] == rest[j - 1]);
            }
        }
    }
}

/// Without a mark every hash is unseen.
proof fn lemma_unseen_without_mark(hashes: Seq<Seq<char>>)
    ensures
        unseen_count(hashes, None) == hashes.len(),
    decreases hashes.len(),
{
    if hashes.len() > 0 {
        lemma_unseen_without_mark(hashes.drop_first());
    }
}

/// A poll never reports the previous mark as a new commit: every hash of the
/// batch differs from it.
pub proof fn lemma_mark_not_reported(hashes: Seq<Seq<char>>, subjects: Seq<Seq<char>>, mark: Seq<char>)
    ensures
        forall|i: int|
            0 <= i < new_commits(hashes, subjects, Some(mark)).len() ==> (#[trigger] new_commits(
                hashes,
                subjects,
                Some(mark),
            )[i]).0 != mark,
{
    let listed = hashes.take(listed_count(hashes, subjects) as int);
    lemma_unseen_prefix(listed, Some(mark));
    let k = unseen_count(listed, Some(mark)) as int;
    assert forall|i: int| 0 <= i < k implies (#[trigger] new_commits(
        hashes,
        subjects,
        Some(mark),
    )[i]).0 != mark by {
        assert(listed[k - 1 - i] == hashes[k - 1 - i]);
    }
}

/// A batch is oldest first: reversed, it is the start of the newest-first
/// listing, in the listing's own order.
pub proof fn lemma_batch_reverses_listing(
    hashes: Seq<Seq<char>>,
    subjects: Seq<Seq<char>>,
    mark: Option<Seq<char>>,
)
    ensures
        new_commits(hashes, subjects, mark).len() <= listed_count(hashes, subjects),
        new_commits(hashes, subjects, mark).reverse() == listing(hashes, subjects).take(
            new_commits(hashes, subjects, mark).len() as int,
        ),
{
    let listed = hashes.take(listed_count(hashes, subjects) as int);
    lemma_unseen_prefix(listed, mark);
    assert(new_commits(hashes, subjects, mark).reverse() =~= listing(hashes, subjects).take(
        new_commits(hashes, subjects, mark).len() as int,
    ));
}

/// Without a mark, as on the first poll, every listed commit is new: the
/// batch is the whole listing, oldest first.
pub proof fn lemma_first_poll_reports_all(hashes: Seq<Seq<char>>, subjects: Seq<Seq<char>>)
    ensures
        new_commits(hashes, subjects, None).len() == listed_count(hashes, subjects),
        new_commits(hashes, subjects, None) == listing(hashes, subjects).reverse(),
{
    let listed = hashes.take(listed_count(hashes, subjects) as int);
    lemma_unseen_without_mark(listed);
    assert(new_commits(hashes, subjects, None) =~= listing(hashes, subjects).reverse());
}

/// The abstract state of a tracked repository.
pub struct RepoView {
    pub url: Seq<char>,
    pub commit_subpath: Seq<char>,
    pub branch: Seq<char>,
    /// Where the local mirror lies, once a clone has succeeded.
    pub local_path: Option<Seq<char>>,
    /// The newest hash seen by the last successful poll.
    pub high_water_mark: Option<Seq<char>>,
}

/// One tracked repository: where it comes from, where its mirror lies, and
/// the newest commit seen so far.
pub struct Repo {
    url: String,
    commit_subpath: String,
    branch: String,
    path: Option<String>,
    previous_hash: Option<String>,
}

impl View for Repo {
    type V = RepoView;

    closed spec fn view(&self) -> RepoView {
        RepoView {
            url: self.url@,
            commit_subpath: self.commit_subpath@,
            branch: self.branch@,
            local_path: match self.path {
                Some(p) => Some(p@),
                None => None,
            },
            high_water_mark: match self.previous_hash {
                Some(h) => Some(h@),
                None => None,
            },
        }
    }
}

/// With no hash among the first `k` equal to `mark`, and either nothing or a
/// match just after them, exactly `k` hashes are unseen.
proof fn lemma_unseen_count(hashes: Seq<Seq<char>>, mark: Option<Seq<char>>, k: int)
    requires
        0 <= k <= hashes.len(),
        forall|j: int| 0 <= j < k ==> mark != Some(#[trigger] hashes[j]),
        k == hashes.len() || mark == Some(hashes[k]),
    ensures
        unseen_count(hashes, mark) == k,
    decreases k,
{
    if k > 0 {
        let rest = hashes.drop_first();
        assert forall|j: int| 0 <= j < k - 1 implies mark != Some(#[trigger] rest[j]) by {
            assert(rest[j] == hashes[j + 1]);
        }
        if k < hashes.len() {
            assert(rest[k - 1] == hashes[k]);
        }
        lemma_unseen_count(rest, mark, k - 1);
    }
}

impl Repo {
    /// A repository that is not cloned yet and has no mark.
    pub fn new(url: String, commit_subpath: String, branch: String) -> (r: Self)
        ensures
            r@.url == url@,
            r@.commit_subpath == commit_subpath@,
            r@.branch == branch@,
            r@.local_path is None,
            r@.high_water_mark is None,
    {
        Repo { url, commit_subpath, branch, path: None, previous_hash: None }
    }

    pub fn url(&self) -> (r: &str)
        ensures
            r@ == self@.url,
    {
        self.url.as_str()
    }

    pub fn commit_subpath(&self) -> (r: &str)
        ensures
            r@ == self@.commit_subpath,
    {
        self.commit_subpath.as_str()
    }

    pub fn branch(&self) -> (r: &str)
        ensures
            r@ == self@.branch,
    {
        self.branch.as_str()
    }

    pub fn high_water_mark(&self) -> (r: Option<&str>)
        ensures
            match r {
                Some(h) => self@.high_water_mark == Some(h@),
                None => self@.high_water_mark is None,
            },
    {
        match &self.previous_hash {
            Some(h) => Some(h.as_str()),
            None => None,
        }
    }

    pub fn is_cloned(&self) -> (r: bool)
        ensures
            r == self@.local_path is Some,
    {
        self.path.is_some()
    }

    /// Records the outcome of the one clone of this repository into `path`:
    /// on success the repository is cloned there, on failure nothing changes.
    pub fn record_clone(&mut self, path: String, succeeded: bool) -> (r: Result<(), NotifierError>)
        requires
            old(self)@.local_path is None,
        ensures
            succeeded ==> r is Ok && final(self)@ == (RepoView { local_path: Some(path@), ..old(self)@ }),
            !succeeded ==> r == Err::<(), NotifierError>(NotifierError::CloneError) && final(self)@ == old(self)@,
    {
        if succeeded {
            self.path = Some(path);
            Ok(())
        } else {
            Err(NotifierError::CloneError)
        }
    }

    /// Where an update of the local mirror runs: the clone's path, or
    /// `NotClonedError` before any clone succeeded.
    pub fn fetch_dir(&self) -> (r: Result<String, NotifierError>)
        ensures
            match self@.local_path {
                Some(p) => r is Ok && r->Ok_0@ == p,
                None => r == Err::<String, NotifierError>(NotifierError::NotClonedError),
            },
    {
        match &self.path {
            Some(p) => Ok(p.clone()),
            None => Err(NotifierError::NotClonedError),
        }
    }

    /// Whether `hash` is the mark.
    fn is_mark(&self, hash: &String) -> (r: bool)
        ensures
            r == (self@.high_water_mark == Some(hash@)),
    {
        match &self.previous_hash {
            Some(m) => *m == *hash,
            None => false,
        }
    }

    /// Takes a newest-first listing of the branch's hashes and the subjects
    /// that go with them, and returns the commits newer than the mark, oldest
    /// first. The mark moves to the newest listed hash, whether or not any
    /// commit is new. An empty listing is `EmptyHistoryError` and changes
    /// nothing.
    pub fn get_recent_messages(&mut self, hashes: Vec<String>, subjects: Vec<String>) -> (r: Result<
        Vec<Commit>,
        NotifierError,
    >)
        ensures
            hashes@.len() == 0 ==> r == Err::<Vec<Commit>, NotifierError>(
                NotifierError::EmptyHistoryError,
            ) && final(self)@ == old(self)@,
            hashes@.len() > 0 ==> r is Ok && commit_views(r->Ok_0@) == new_commits(
                texts(hashes@),
                texts(subjects@),
                old(self)@.high_water_mark,
            ) && final(self)@ == (RepoView {
                high_water_mark: Some(hashes@[0]@),
                ..old(self)@
            }),
    {
        if hashes.len() == 0 {
            return Err(NotifierError::EmptyHistoryError);
        }
        let ghost hs = texts(hashes@);
        let ghost ss = texts(subjects@);
        let ghost mark = self@.high_water_mark;
        let n: usize = if hashes.len() <= subjects.len() {
            hashes.len()
        } else {
            subjects.len()
        };
        let mut k: usize = 0;
        while k < n && !self.is_mark(&hashes[k])
            invariant
                n == listed_count(hs, ss),
                n <= hashes@.len(),
                n <= subjects@.len(),
                hs == texts(hashes@),
                mark == self@.high_water_mark,
                k <= n,
                forall|j: int| 0 <= j < k ==> mark != Some(#[trigger] hs[j]),
            decreases n - k,
        {
            k = k + 1;
        }
        proof {
            let listed = hs.take(n as int);
            assert forall|j: int| 0 <= j < k implies mark != Some(#[trigger] listed[j]) by {
                assert(listed[j] == hs[j]);
            }
            if k < n {
                assert(listed[k as int] == hs[k as int]);
            }
            lemma_unseen_count(listed, mark, k as int);
        }
        let mut batch: Vec<Commit> = Vec::new();
        let mut i: usize = 0;
        while i < k
            invariant
                k <= n,
                n <= hashes@.len(),
                n <= subjects@.len(),
                hs == texts(hashes@),
                ss == texts(subjects@),
                i <= k,
                batch@.len() == i,
                forall|j: int|
                    0 <= j < i ==> (#[trigger] batch@[j])@ == (hs[k - 1 - j], ss[k - 1 - j]),
            decreases k - i,
        {
            let c = Commit { hash: hashes[k - 1 - i].clone(), subject: subjects[k - 1 - i].clone() };
            batch.push(c);
            i = i + 1;
        }
        let tip = hashes[0].clone();
        self.previous_hash = Some(tip);
        proof {
            assert(commit_views(batch@) =~= new_commits(hs, ss, mark));
        }
        Ok(batch)
    }
}

} // verus!
