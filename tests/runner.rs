use std::collections::BTreeSet;

use mkv_encode_runner::cycle::{after_encode, after_scan, after_sleep, Command};
use mkv_encode_runner::encode::{Action, Config, Encoder, Event, JobError};
use mkv_encode_runner::scan::{scan_root, FileEntry, Job};

/// Files of an in-memory tree, by full path.
struct Disk {
    files: BTreeSet<String>,
}

impl Disk {
    fn listing(&self, dir: &str) -> Vec<FileEntry> {
        let prefix = format!("{}/", dir);
        self.files
            .iter()
            .filter(|p| p.starts_with(&prefix) && !p[prefix.len()..].contains('/'))
            .map(|p| FileEntry {
                path: p.clone(),
                name: p[prefix.len()..].to_string(),
                is_file: true,
            })
            .collect()
    }
}

/// Runs one job against the in-memory tree with a transcoder that exits 0
/// after writing `writes` (when given).
fn run_job(disk: &mut Disk, job: &Job, config: &Config, writes: bool) -> Result<(), JobError> {
    let mut e = Encoder::new(job, config);
    loop {
        match e.action() {
            Action::ProbeOutput(p) => e.step(Event::OutputProbed(disk.files.contains(&p))),
            Action::Run(inv) => {
                if writes {
                    disk.files.insert(inv.args[5].clone());
                }
                e.step(Event::Exited { success: true, code: Some(0) });
            }
            Action::DeleteInput(p) => {
                let removed = disk.files.remove(&p);
                e.step(Event::Deleted(removed));
            }
            Action::Finish(r) => return r,
        }
    }
}

fn sample_disk() -> Disk {
    let mut files = BTreeSet::new();
    files.insert("/jobs/a/movie.mkv".to_string());
    files.insert("/jobs/a/preset.json".to_string());
    Disk { files }
}

#[test]
fn one_iteration_encodes_and_removes_input() {
    let mut disk = sample_disk();
    let config = Config::new("/jobs".to_string(), "/out".to_string());
    let dirs = vec![disk.listing("/jobs/a")];
    let job = match after_scan(&config, Ok(scan_root(&dirs))) {
        Command::Encode(job) => job,
        other => panic!("expected a job, got {:?}", other),
    };
    let outcome = run_job(&mut disk, &job, &config, true);
    assert!(matches!(after_encode(outcome), Command::Scan));
    assert!(disk.files.contains("/out/movie.mkv"));
    assert!(!disk.files.contains("/jobs/a/movie.mkv"));
    assert!(disk.files.contains("/jobs/a/preset.json"));

    // The drained directory now holds only its preset: the next pass waits.
    let dirs = vec![disk.listing("/jobs/a")];
    assert!(matches!(after_scan(&config, Ok(scan_root(&dirs))), Command::Sleep(300)));
}

#[test]
fn silent_transcoder_stops_the_runner() {
    let mut disk = sample_disk();
    let config = Config::new("/jobs".to_string(), "/out".to_string());
    let job = scan_root(&vec![disk.listing("/jobs/a")]).unwrap();
    let outcome = run_job(&mut disk, &job, &config, false);
    match after_encode(outcome) {
        Command::Stop(JobError::OutputMissing { path }) => assert_eq!(path, "/out/movie.mkv"),
        other => panic!("unexpected {:?}", other),
    }
    assert!(disk.files.contains("/jobs/a/movie.mkv"));
}

#[test]
fn existing_output_stops_the_runner() {
    let mut disk = sample_disk();
    disk.files.insert("/out/movie.mkv".to_string());
    let config = Config::new("/jobs".to_string(), "/out".to_string());
    let job = scan_root(&vec![disk.listing("/jobs/a")]).unwrap();
    let outcome = run_job(&mut disk, &job, &config, true);
    assert!(matches!(after_encode(outcome), Command::Stop(JobError::DestinationExists { .. })));
    assert!(disk.files.contains("/jobs/a/movie.mkv"));
}

#[test]
fn scan_error_stops_the_runner() {
    let config = Config::new("/jobs".to_string(), "/out".to_string());
    let failed = Err(JobError::ScanIo { path: "/jobs".to_string() });
    match after_scan(&config, failed) {
        Command::Stop(JobError::ScanIo { path }) => assert_eq!(path, "/jobs"),
        other => panic!("unexpected {:?}", other),
    }
}

#[test]
fn idle_pass_sleeps_poll_interval_then_scans() {
    let mut config = Config::new("/jobs".to_string(), "/out".to_string());
    config.poll_seconds = 5;
    assert!(matches!(after_scan(&config, Ok(None)), Command::Sleep(5)));
    assert!(matches!(after_sleep(), Command::Scan));
}
