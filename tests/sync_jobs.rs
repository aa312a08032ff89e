use pager::config::{validate_config, Config};
use pager::job::{JobEvent, SyncJob};
use pager::phase::CloneState;
use pager::sync::{collect_results, plan_sync, PlanError};

fn strings(v: &[&str]) -> Vec<String> {
    v.iter().map(|s| s.to_string()).collect()
}

fn repos() -> Vec<Vec<String>> {
    vec![
        strings(&["https://h/a/tldr.git", "pages/*"]),
        strings(&["https://h/b/notes"]),
        strings(&["https://h/c/cheats.git"]),
    ]
}

#[test]
fn one_pending_job_per_repository() {
    let jobs = plan_sync(&repos()).ok().unwrap();
    assert_eq!(jobs.len(), 3);
    let names: Vec<&str> = jobs.iter().map(|j| j.name.as_str()).collect();
    assert_eq!(names, vec!["tldr", "notes", "cheats"]);
    assert_eq!(jobs[1].url, "https://h/b/notes");
    assert!(jobs.iter().all(|j| !j.is_done() && !j.is_running()));
    assert!(plan_sync(&Vec::new()).ok().unwrap().is_empty());
}

#[test]
fn empty_entry_is_refused() {
    let mut r = repos();
    r.insert(1, Vec::new());
    r.push(Vec::new());
    match plan_sync(&r) {
        Err(e @ PlanError::EmptyEntry(1)) => assert_eq!(e.message(), "A repository entry has no URL"),
        _ => panic!("expected the empty entry at position 1"),
    }
}

#[test]
fn duplicate_names_are_refused() {
    let mut r = repos();
    r.push(strings(&["https://elsewhere/notes.git"]));
    r.push(strings(&["https://elsewhere/tldr"]));
    match plan_sync(&r) {
        Err(e @ PlanError::DuplicateName(_)) => {
            assert_eq!(e.message(), "Two repositories share the directory name notes");
        }
        _ => panic!("expected a duplicate name"),
    }
}

fn run_ok(job: &mut SyncJob, output: &[u8]) {
    job.handle(JobEvent::Prepared(Ok(())));
    assert!(job.is_running());
    job.handle(JobEvent::Output(output.to_vec()));
    job.handle(JobEvent::Exited(Ok(())));
}

#[test]
fn failing_job_leaves_siblings_successful() {
    let mut jobs = plan_sync(&repos()).ok().unwrap();
    run_ok(&mut jobs[0], b"Receiving objects: 100% (3/3)\n");
    jobs[1].handle(JobEvent::Prepared(Ok(())));
    jobs[1].handle(JobEvent::Exited(Err(String::from("exit status: 128"))));
    run_ok(&mut jobs[2], b"");
    let results = collect_results(&jobs);
    assert_eq!(results.len(), 3);
    assert!(results[0].success);
    assert_eq!(results[0].message, "Finished cloning");
    assert_eq!(results[0].name, "tldr");
    assert!(!results[1].success);
    assert_eq!(results[1].message, "exit status: 128");
    assert!(results[2].success);
}

#[test]
fn preparation_failure_skips_the_fetch() {
    let mut job = SyncJob::new(String::from("u/x"), String::from("x"));
    job.handle(JobEvent::Prepared(Err(String::from("permission denied"))));
    assert!(job.is_done());
    assert!(job.handle(JobEvent::Output(b"Receiving objects: (1/1)\n".to_vec())).is_empty());
    job.handle(JobEvent::Exited(Ok(())));
    let r = job.result().unwrap();
    assert!(!r.success);
    assert_eq!(r.message, "permission denied");
}

#[test]
fn output_and_transfer_events_drive_progress() {
    let mut job = SyncJob::new(String::from("u/x"), String::from("x"));
    assert!(job.handle(JobEvent::Output(b"Receiving objects: (1/1)\n".to_vec())).is_empty());
    job.handle(JobEvent::Prepared(Ok(())));
    let seen = job.handle(JobEvent::Output(b"Receiving objects: 100% (2/2)\r".to_vec()));
    assert_eq!(seen.len(), 1);
    assert_eq!(job.progress().phase, CloneState::ResolvingDeltas);
    assert_eq!(job.handle(JobEvent::Transfer(1, 2)).len(), 1);
    assert_eq!((job.progress().received, job.progress().total), (1, 2));
    assert!(job.result().is_none());
}

#[test]
fn unfinished_job_is_reported_as_failed() {
    let jobs = vec![SyncJob::new(String::from("u/x"), String::from("x"))];
    let r = collect_results(&jobs);
    assert_eq!(r.len(), 1);
    assert!(!r[0].success);
    assert_eq!(r[0].message, "Fetch did not complete");
}

#[test]
fn configuration_validation() {
    let mut c = Config::default();
    assert_eq!(c.page_db.git_download_dir, "./online_pages");
    assert!(c.page_db.git_repos.is_empty() && c.page_db.local_dirs.is_empty());
    assert!(validate_config(&c).is_empty());
    c.page_db.git_repos = repos();
    assert!(validate_config(&c).is_empty());
    c.page_db.git_repos.push(strings(&["https://other/cheats"]));
    assert_eq!(validate_config(&c), vec![String::from("Two repositories share the directory name cheats")]);
    c.page_db.git_repos.push(Vec::new());
    assert_eq!(validate_config(&c), vec![String::from("A repository entry has no URL")]);
}

#[test]
fn unusable_directory_names_are_refused() {
    for url in ["https://h/dir/", "https://h/dir/.", "https://h/dir/..", "https://h/.git"] {
        let mut r = repos();
        r.push(strings(&[url]));
        match plan_sync(&r) {
            Err(e @ PlanError::UnusableName(_)) => {
                assert_eq!(e.message(), format!("No directory name can be derived from the URL {url}"));
            }
            _ => panic!("expected an unusable name for {url}"),
        }
    }
    let mut c = Config::default();
    c.page_db.git_repos = vec![strings(&["https://h/a/b..git"]), strings(&["https://h/a/..git"]), strings(&["https://h/x/"])];
    assert_eq!(
        validate_config(&c),
        vec![String::from("No directory name can be derived from the URL https://h/a/..git")]
    );
}
