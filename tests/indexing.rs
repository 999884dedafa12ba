use termirust::indexing::{start_indexing, IndexBoard, IndexingError, JobState};
use termirust::path::DirPath;

#[test]
fn two_jobs_last_publish_wins() {
    let docs = DirPath::parse("/home/user/docs");
    let mut first = start_indexing::<Vec<String>>(&docs);
    let mut second = start_indexing::<Vec<String>>(&docs);
    assert!(first.is_pending() && second.is_pending());
    assert!(first.finish(Ok(vec!["a".to_string()])));
    assert!(second.finish(Ok(vec!["a".to_string(), "b".to_string()])));
    let mut board = IndexBoard::new();
    assert!(board.publish(first));
    assert!(board.publish(second));
    assert_eq!(board.current(), Some(&vec!["a".to_string(), "b".to_string()]));
    assert_eq!(board.indexed_path().unwrap().render(), "/home/user/docs");
}

#[test]
fn second_job_finishing_first_is_replaced_by_the_later_publish() {
    let mut board: IndexBoard<u32> = IndexBoard::new();
    let mut a = start_indexing(&DirPath::parse("/a"));
    let mut b = start_indexing(&DirPath::parse("/b"));
    b.finish(Ok(2));
    a.finish(Ok(1));
    board.publish(b);
    board.publish(a);
    assert_eq!(board.current(), Some(&1));
    assert_eq!(board.indexed_path().unwrap().render(), "/a");
}

#[test]
fn only_first_outcome_is_kept() {
    let mut job = start_indexing::<u32>(&DirPath::parse("/data"));
    assert!(job.finish(Ok(5)));
    assert!(!job.finish(Ok(6)));
    assert!(!job.finish(Err(IndexingError::IoFailure)));
    assert!(matches!(job.state(), JobState::Done(5)));
}

#[test]
fn failed_job_publishes_nothing() {
    let path = DirPath::parse("/data");
    let mut board: IndexBoard<u32> = IndexBoard::new();
    let mut job = start_indexing(&path);
    assert!(job.finish(Err(IndexingError::IoFailure)));
    assert!(matches!(job.state(), JobState::Failed(IndexingError::IoFailure)));
    assert!(!board.publish(job));
    assert_eq!(board.current(), None);
    assert_eq!(board.lookup(&path), None);
}

#[test]
fn failed_job_keeps_earlier_index() {
    let mut board: IndexBoard<u32> = IndexBoard::new();
    let mut ok = start_indexing(&DirPath::parse("/a"));
    ok.finish(Ok(1));
    board.publish(ok);
    let mut bad = start_indexing(&DirPath::parse("/b"));
    bad.finish(Err(IndexingError::IoFailure));
    board.publish(bad);
    assert_eq!(board.current(), Some(&1));
    assert_eq!(board.lookup(&DirPath::parse("/b")), None);
    assert_eq!(board.lookup(&DirPath::parse("/a")), Some(&1));
}

#[test]
fn pending_job_publishes_nothing() {
    let mut board: IndexBoard<u32> = IndexBoard::new();
    let job = start_indexing(&DirPath::parse("/a"));
    assert!(!board.publish(job));
    assert_eq!(board.current(), None);
}

#[test]
fn job_keeps_the_path_it_started_with() {
    let mut path = DirPath::parse("/home/user/docs");
    let job = start_indexing::<u32>(&path);
    path = path.parent();
    assert_eq!(path.render(), "/home/user");
    assert_eq!(job.target_path().render(), "/home/user/docs");
}
