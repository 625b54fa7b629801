use git_notifier::repo::{Commit, NotifierError, Repo};

fn strings(v: &[&str]) -> Vec<String> {
    v.iter().map(|s| s.to_string()).collect()
}

fn pairs(batch: &[Commit]) -> Vec<(String, String)> {
    batch.iter().map(|c| (c.hash.clone(), c.subject.clone())).collect()
}

fn cloned_repo() -> Repo {
    let mut repo = Repo::new(
        "https://example.org/project".to_string(),
        "/commit/".to_string(),
        "main".to_string(),
    );
    repo.record_clone("/tmp/clone".to_string(), true).unwrap();
    repo
}

#[test]
fn poll_reports_commits_after_mark_oldest_first() {
    let mut repo = cloned_repo();
    repo.get_recent_messages(strings(&["h1"]), strings(&["s1"])).unwrap();
    assert_eq!(repo.high_water_mark(), Some("h1"));
    let batch = repo
        .get_recent_messages(strings(&["h3", "h2", "h1"]), strings(&["s3", "s2", "s1"]))
        .unwrap();
    assert_eq!(
        pairs(&batch),
        vec![("h2".to_string(), "s2".to_string()), ("h3".to_string(), "s3".to_string())]
    );
    assert_eq!(repo.high_water_mark(), Some("h3"));
}

#[test]
fn first_poll_reports_every_visible_commit() {
    let mut repo = cloned_repo();
    assert_eq!(repo.high_water_mark(), None);
    let batch = repo
        .get_recent_messages(strings(&["c", "b", "a"]), strings(&["sc", "sb", "sa"]))
        .unwrap();
    assert_eq!(batch.len(), 3);
    assert_eq!(
        pairs(&batch),
        vec![
            ("a".to_string(), "sa".to_string()),
            ("b".to_string(), "sb".to_string()),
            ("c".to_string(), "sc".to_string()),
        ]
    );
    assert_eq!(repo.high_water_mark(), Some("c"));
}

#[test]
fn poll_without_new_commits_keeps_mark_at_tip() {
    let mut repo = cloned_repo();
    repo.get_recent_messages(strings(&["b", "a"]), strings(&["sb", "sa"])).unwrap();
    let batch = repo.get_recent_messages(strings(&["b", "a"]), strings(&["sb", "sa"])).unwrap();
    assert!(batch.is_empty());
    assert_eq!(repo.high_water_mark(), Some("b"));
}

#[test]
fn mark_follows_tip_of_each_poll() {
    let mut repo = cloned_repo();
    let tips = ["t1", "t2", "t3"];
    let mut hashes: Vec<&str> = Vec::new();
    for tip in tips.iter() {
        hashes.insert(0, tip);
        repo.get_recent_messages(strings(&hashes), strings(&hashes)).unwrap();
        assert_eq!(repo.high_water_mark(), Some(*tip));
    }
}

#[test]
fn previous_mark_is_never_reported() {
    let mut repo = cloned_repo();
    repo.get_recent_messages(strings(&["m", "x"]), strings(&["sm", "sx"])).unwrap();
    let batch = repo
        .get_recent_messages(strings(&["n2", "n1", "m", "x"]), strings(&["a", "b", "c", "d"]))
        .unwrap();
    assert!(batch.iter().all(|c| c.hash != "m"));
    assert_eq!(pairs(&batch), vec![("n1".to_string(), "b".to_string()), ("n2".to_string(), "a".to_string())]);
}

#[test]
fn reversed_batch_matches_query_order() {
    let mut repo = cloned_repo();
    repo.get_recent_messages(strings(&["p"]), strings(&["sp"])).unwrap();
    let hashes = strings(&["e", "d", "c", "p"]);
    let subjects = strings(&["se", "sd", "sc", "sp"]);
    let batch = repo.get_recent_messages(hashes.clone(), subjects.clone()).unwrap();
    let mut reversed = pairs(&batch);
    reversed.reverse();
    let listed: Vec<(String, String)> =
        hashes.into_iter().zip(subjects.into_iter()).take(reversed.len()).collect();
    assert_eq!(reversed, listed);
    assert_eq!(reversed.len(), 3);
}

#[test]
fn mark_out_of_window_reports_whole_window() {
    let mut repo = cloned_repo();
    repo.get_recent_messages(strings(&["old"]), strings(&["s"])).unwrap();
    let batch = repo.get_recent_messages(strings(&["y", "x"]), strings(&["sy", "sx"])).unwrap();
    assert_eq!(pairs(&batch), vec![("x".to_string(), "sx".to_string()), ("y".to_string(), "sy".to_string())]);
    assert_eq!(repo.high_water_mark(), Some("y"));
}

#[test]
fn empty_history_is_an_error_and_keeps_mark() {
    let mut repo = cloned_repo();
    repo.get_recent_messages(strings(&["a"]), strings(&["sa"])).unwrap();
    let r = repo.get_recent_messages(Vec::new(), Vec::new());
    assert!(matches!(r, Err(NotifierError::EmptyHistoryError)));
    assert_eq!(repo.high_water_mark(), Some("a"));
}

#[test]
fn shorter_subject_list_bounds_the_batch() {
    let mut repo = cloned_repo();
    let batch = repo.get_recent_messages(strings(&["c", "b", "a"]), strings(&["sc", "sb"])).unwrap();
    assert_eq!(pairs(&batch), vec![("b".to_string(), "sb".to_string()), ("c".to_string(), "sc".to_string())]);
    assert_eq!(repo.high_water_mark(), Some("c"));
}

#[test]
fn clone_outcome_sets_cloned_state() {
    let mut repo = Repo::new("u".to_string(), "/c/".to_string(), "dev".to_string());
    assert!(!repo.is_cloned());
    assert!(matches!(repo.fetch_dir(), Err(NotifierError::NotClonedError)));
    assert!(matches!(repo.record_clone("/p".to_string(), false), Err(NotifierError::CloneError)));
    assert!(!repo.is_cloned());
    assert!(repo.record_clone("/p".to_string(), true).is_ok());
    assert!(repo.is_cloned());
    assert_eq!(repo.fetch_dir().unwrap(), "/p");
    assert_eq!(repo.url(), "u");
    assert_eq!(repo.commit_subpath(), "/c/");
    assert_eq!(repo.branch(), "dev");
}
