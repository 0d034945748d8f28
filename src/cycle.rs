use vstd::prelude::*;

use crate::encode::{Config, JobError};
use crate::scan::Job;

verus! {

/// What the runner does next.
#[derive(Debug)]
pub enum Command {
    /// Look for a job.
    Scan,
    /// Run this job.
    Encode(Job),
    /// Wait this many seconds, then look again.
    Sleep(u64),
    /// Stop the runner with this error.
    Stop(JobError),
}

/// After a scan: run the job found at once; when there is none, wait the
/// poll interval; when the scan failed, stop.
pub fn after_scan(config: &Config, scanned: Result<Option<Job>, JobError>) -> (r: Command)
    ensures
        r == match scanned {
            Ok(Some(j)) => Command::Encode(j),
            Ok(None) => Command::Sleep(config.poll_seconds),
            Err(e) => Command::Stop(e),
        },
{
    match scanned {
        Ok(Some(j)) => Command::Encode(j),
        Ok(None) => Command::Sleep(config.poll_seconds),
        Err(e) => Command::Stop(e),
    }
}

/// After a job: scan again at once when it succeeded, so that a backlog
/// drains without waiting; stop on any failure, since no job is retried or
/// skipped.
pub fn after_encode(outcome: Result<(), JobError>) -> (r: Command)
    ensures
        r == match outcome {
            Ok(()) => Command::Scan,
            Err(e) => Command::Stop(e),
        },
{
    match outcome {
        Ok(()) => Command::Scan,
        Err(e) => Command::Stop(e),
    }
}

/// After a wait: scan again.
pub fn after_sleep() -> (r: Command)
    ensures
        r is Scan,
{
    Command::Scan
}

} // verus!
