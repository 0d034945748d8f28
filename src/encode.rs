use vstd::prelude::*;

use crate::scan::Job;

verus! {

/// Settings fixed at start-up for the whole process.
#[derive(Clone, Debug)]
pub struct Config {
    /// Directory whose subdirectories are scanned for jobs.
    pub input_root: String,
    /// Directory that receives the encoded files.
    pub output_dir: String,
    /// The transcoder to run for each job.
    pub transcoder: String,
    /// How long to wait after a pass that found no job.
    pub poll_seconds: u64,
}

pub const DEFAULT_POLL_SECONDS: u64 = 300;

impl Config {
    /// Settings with the default transcoder and poll interval.
    pub fn new(input_root: String, output_dir: String) -> (r: Config)
        ensures
            r.input_root == input_root,
            r.output_dir == output_dir,
            r.transcoder@ == seq!['H', 'a', 'n', 'd', 'B', 'r', 'a', 'k', 'e', 'C', 'L', 'I'],
            r.poll_seconds == 300,
    {
        let transcoder = String::from_str("HandBrakeCLI");
        proof {
            reveal_strlit("HandBrakeCLI");
            assert(transcoder@ =~= seq!['H', 'a', 'n', 'd', 'B', 'r', 'a', 'k', 'e', 'C', 'L', 'I']);
        }
        Config { input_root, output_dir, transcoder, poll_seconds: DEFAULT_POLL_SECONDS }
    }
}

/// Why a job, or the whole run, stopped.
#[derive(Clone, Debug)]
pub enum JobError {
    /// A directory could not be listed, or a name read, while scanning.
    ScanIo { path: String },
    /// The output path was already a file before the encode.
    DestinationExists { path: String },
    /// The transcoder could not be started.
    SpawnFailed { program: String },
    /// The transcoder exited with a failure code.
    NonZeroExit { code: i32 },
    /// The transcoder failed without an exit code (killed by a signal).
    TerminatedNoCode,
    /// The transcoder reported success but wrote no output file.
    OutputMissing { path: String },
    /// The encoded input could not be deleted.
    DeleteFailed { path: String },
}

pub enum ErrorModel {
    ScanIo(Seq<char>),
    DestinationExists(Seq<char>),
    SpawnFailed(Seq<char>),
    NonZeroExit(i32),
    TerminatedNoCode,
    OutputMissing(Seq<char>),
    DeleteFailed(Seq<char>),
}

impl View for JobError {
    type V = ErrorModel;

    open spec fn view(&self) -> ErrorModel {
        match self {
            JobError::ScanIo { path } => ErrorModel::ScanIo(path@),
            JobError::DestinationExists { path } => ErrorModel::DestinationExists(path@),
            JobError::SpawnFailed { program } => ErrorModel::SpawnFailed(program@),
            JobError::NonZeroExit { code } => ErrorModel::NonZeroExit(*code),
            JobError::TerminatedNoCode => ErrorModel::TerminatedNoCode,
            JobError::OutputMissing { path } => ErrorModel::OutputMissing(path@),
            JobError::DeleteFailed { path } => ErrorModel::DeleteFailed(path@),
        }
    }
}

/// Where a file named `name` lands in directory `dir`: the name itself when
/// it is absolute, else the directory, a separator unless it ends in one,
/// and the name.
pub open spec fn join_path(dir: Seq<char>, name: Seq<char>) -> Seq<char> {
    if name.len() > 0 && name[0] == '/' {
        name
    } else if dir.len() == 0 || dir.last() == '/' {
        dir + name
    } else {
        dir + seq!['/'] + name
    }
}

/// The output path for an input file named `input_name`.
pub fn output_path(output_dir: &String, input_name: &String) -> (r: String)
    ensures
        r@ == join_path(output_dir@, input_name@),
{
    let name = input_name.as_str();
    if name.unicode_len() > 0 && name.get_char(0) == '/' {
        return input_name.clone();
    }
    let dir = output_dir.as_str();
    let n = dir.unicode_len();
    let mut r = output_dir.clone();
    if n > 0 && dir.get_char(n - 1) != '/' {
        r.append("/");
        proof {
            reveal_strlit("/");
        }
    }
    r.append(name);
    proof {
        if n > 0 {
            assert(output_dir@.last() == output_dir@[n - 1]);
        }
    }
    r
}


/// A transcoder run: the program and its arguments.
#[derive(Clone, Debug)]
pub struct Invocation {
    pub program: String,
    pub args: Vec<String>,
}

pub open spec fn strings_view(v: Seq<String>) -> Seq<Seq<char>> {
    v.map_values(|a: String| a@)
}

/// The transcoder's arguments: import the preset, read the input, write the
/// output.
pub open spec fn transcoder_args(preset: Seq<char>, input: Seq<char>, output: Seq<char>) -> Seq<
    Seq<char>,
> {
    seq![
        seq!['-', '-', 'p', 'r', 'e', 's', 'e', 't', '-', 'i', 'm', 'p', 'o', 'r', 't', '-', 'f', 'i', 'l', 'e'],
        preset,
        seq!['-', 'i'],
        input,
        seq!['-', 'o'],
        output,
    ]
}

/// Builds the transcoder run for one job.
pub fn invocation(program: &String, preset: &String, input: &String, output: &String) -> (r:
    Invocation)
    ensures
        r.program@ == program@,
        strings_view(r.args@) == transcoder_args(preset@, input@, output@),
{
    let ghost want = transcoder_args(preset@, input@, output@);
    let flag_preset = String::from_str("--preset-import-file");
    let flag_input = String::from_str("-i");
    let flag_output = String::from_str("-o");
    proof {
        reveal_strlit("--preset-import-file");
        reveal_strlit("-i");
        reveal_strlit("-o");
        assert(flag_preset@ =~= want[0]);
        assert(flag_input@ =~= want[2]);
        assert(flag_output@ =~= want[4]);
    }
    let mut args: Vec<String> = Vec::new();
    args.push(flag_preset);
    args.push(preset.clone());
    args.push(flag_input);
    args.push(input.clone());
    args.push(flag_output);
    args.push(output.clone());
    assert(strings_view(args@) =~= want);
    Invocation { program: program.clone(), args }
}

/// Where one job stands: waiting for the destination check, running the
/// transcoder, checking its output, deleting the input, or done.
#[derive(Clone, Debug)]
pub enum Phase {
    Pending,
    Encoding,
    Verifying,
    Deleting,
    Succeeded,
    Failed(JobError),
}

pub enum PhaseModel {
    Pending,
    Encoding,
    Verifying,
    Deleting,
    Succeeded,
    Failed(ErrorModel),
}

impl View for Phase {
    type V = PhaseModel;

    open spec fn view(&self) -> PhaseModel {
        match self {
            Phase::Pending => PhaseModel::Pending,
            Phase::Encoding => PhaseModel::Encoding,
            Phase::Verifying => PhaseModel::Verifying,
            Phase::Deleting => PhaseModel::Deleting,
            Phase::Succeeded => PhaseModel::Succeeded,
            Phase::Failed(e) => PhaseModel::Failed(e@),
        }
    }
}

/// What the outside world reports back after an action.
#[derive(PartialEq, Eq, Structural, Clone, Copy, Debug)]
pub enum Event {
    /// Whether the output path is a file.
    OutputProbed(bool),
    /// The transcoder could not be started.
    SpawnFailed,
    /// The transcoder exited; `code` is absent when a signal ended it.
    Exited { success: bool, code: Option<i32> },
    /// Whether the input file was deleted.
    Deleted(bool),
}

/// What the outside world is asked to do next.
#[derive(Debug)]
pub enum Action {
    /// Report whether this path is a file.
    ProbeOutput(String),
    /// Run the transcoder and wait for it.
    Run(Invocation),
    /// Delete this file.
    DeleteInput(String),
    /// The job is over, with this outcome.
    Finish(Result<(), JobError>),
}

pub enum ActionModel {
    ProbeOutput(Seq<char>),
    Run(Seq<char>, Seq<Seq<char>>),
    DeleteInput(Seq<char>),
    Finish(Option<ErrorModel>),
}

impl View for Action {
    type V = ActionModel;

    open spec fn view(&self) -> ActionModel {
        match self {
            Action::ProbeOutput(p) => ActionModel::ProbeOutput(p@),
            Action::Run(inv) => ActionModel::Run(inv.program@, strings_view(inv.args@)),
            Action::DeleteInput(p) => ActionModel::DeleteInput(p@),
            Action::Finish(Ok(())) => ActionModel::Finish(None),
            Action::Finish(Err(e)) => ActionModel::Finish(Some(e@)),
        }
    }
}

/// One job's run, from the destination check to the deletion of its input.
#[derive(Debug)]
pub struct Encoder {
    input: String,
    preset: String,
    output: String,
    program: String,
    phase: Phase,
}

pub struct EncoderModel {
    pub input: Seq<char>,
    pub preset: Seq<char>,
    pub output: Seq<char>,
    pub program: Seq<char>,
    pub phase: PhaseModel,
}

impl View for Encoder {
    type V = EncoderModel;

    closed spec fn view(&self) -> EncoderModel {
        EncoderModel {
            input: self.input@,
            preset: self.preset@,
            output: self.output@,
            program: self.program@,
            phase: self.phase@,
        }
    }
}

/// The phase that follows `m`'s phase on event `ev`. An event that does not fit the
/// phase changes nothing; a finished job stays finished.
pub open spec fn next_phase(m: EncoderModel, ev: Event) -> PhaseModel {
    match (m.phase, ev) {
        (PhaseModel::Pending, Event::OutputProbed(true)) => PhaseModel::Failed(
            ErrorModel::DestinationExists(m.output),
        ),
        (PhaseModel::Pending, Event::OutputProbed(false)) => PhaseModel::Encoding,
        (PhaseModel::Encoding, Event::SpawnFailed) => PhaseModel::Failed(
            ErrorModel::SpawnFailed(m.program),
        ),
        (PhaseModel::Encoding, Event::Exited { success, code }) => {
            if success {
                PhaseModel::Verifying
            } else {
                match code {
                    Some(c) => PhaseModel::Failed(ErrorModel::NonZeroExit(c)),
                    None => PhaseModel::Failed(ErrorModel::TerminatedNoCode),
                }
            }
        },
        (PhaseModel::Verifying, Event::OutputProbed(true)) => PhaseModel::Deleting,
        (PhaseModel::Verifying, Event::OutputProbed(false)) => PhaseModel::Failed(
            ErrorModel::OutputMissing(m.output),
        ),
        (PhaseModel::Deleting, Event::Deleted(true)) => PhaseModel::Succeeded,
        (PhaseModel::Deleting, Event::Deleted(false)) => PhaseModel::Failed(
            ErrorModel::DeleteFailed(m.input),
        ),
        (p, _) => p,
    }
}

pub open spec fn step_model(m: EncoderModel, ev: Event) -> EncoderModel {
    EncoderModel { phase: next_phase(m, ev), ..m }
}

/// What a job in this state asks for.
pub open spec fn action_of(m: EncoderModel) -> ActionModel {
    match m.phase {
        PhaseModel::Pending => ActionModel::ProbeOutput(m.output),
        PhaseModel::Encoding => ActionModel::Run(
            m.program,
            transcoder_args(m.preset, m.input, m.output),
        ),
        PhaseModel::Verifying => ActionModel::ProbeOutput(m.output),
        PhaseModel::Deleting => ActionModel::DeleteInput(m.input),
        PhaseModel::Succeeded => ActionModel::Finish(None),
        PhaseModel::Failed(e) => ActionModel::Finish(Some(e)),
    }
}

impl Encoder {
    /// A job about to start: its output goes to the configured directory,
    /// under the input file's name.
    pub fn new(job: &Job, config: &Config) -> (r: Encoder)
        ensures
            r@.input == job.input@,
            r@.preset == job.preset@,
            r@.output == join_path(config.output_dir@, job.input_name@),
            r@.program == config.transcoder@,
            r@.phase == PhaseModel::Pending,
    {
        Encoder {
            input: job.input.clone(),
            preset: job.preset.clone(),
            output: output_path(&config.output_dir, &job.input_name),
            program: config.transcoder.clone(),
            phase: Phase::Pending,
        }
    }

    pub fn output(&self) -> (r: &String)
        ensures
            r@ == self@.output,
    {
        &self.output
    }

    pub fn is_finished(&self) -> (r: bool)
        ensures
            r == (self@.phase is Succeeded || self@.phase is Failed),
    {
        match self.phase {
            Phase::Succeeded | Phase::Failed(_) => true,
            _ => false,
        }
    }

    /// What this job asks the outside world to do next.
    pub fn action(&self) -> (r: Action)
        ensures
            r@ == action_of(self@),
    {
        match &self.phase {
            Phase::Pending => Action::ProbeOutput(self.output.clone()),
            Phase::Encoding => Action::Run(
                invocation(&self.program, &self.preset, &self.input, &self.output),
            ),
            Phase::Verifying => Action::ProbeOutput(self.output.clone()),
            Phase::Deleting => Action::DeleteInput(self.input.clone()),
            Phase::Succeeded => Action::Finish(Ok(())),
            Phase::Failed(e) => Action::Finish(Err(e.clone_error())),
        }
    }

    /// Takes in what the outside world reported.
    pub fn step(&mut self, ev: Event)
        ensures
            final(self)@ == step_model(old(self)@, ev),
    {
        let next = match (&self.phase, ev) {
            (Phase::Pending, Event::OutputProbed(true)) => Phase::Failed(
                JobError::DestinationExists { path: self.output.clone() },
            ),
            (Phase::Pending, Event::OutputProbed(false)) => Phase::Encoding,
            (Phase::Encoding, Event::SpawnFailed) => Phase::Failed(
                JobError::SpawnFailed { program: self.program.clone() },
            ),
            (Phase::Encoding, Event::Exited { success, code }) => {
                if success {
                    Phase::Verifying
                } else {
                    match code {
                        Some(c) => Phase::Failed(JobError::NonZeroExit { code: c }),
                        None => Phase::Failed(JobError::TerminatedNoCode),
                    }
                }
            },
            (Phase::Verifying, Event::OutputProbed(true)) => Phase::Deleting,
            (Phase::Verifying, Event::OutputProbed(false)) => Phase::Failed(
                JobError::OutputMissing { path: self.output.clone() },
            ),
            (Phase::Deleting, Event::Deleted(true)) => Phase::Succeeded,
            (Phase::Deleting, Event::Deleted(false)) => Phase::Failed(
                JobError::DeleteFailed { path: self.input.clone() },
            ),
            (Phase::Succeeded, _) => Phase::Succeeded,
            (Phase::Failed(e), _) => Phase::Failed(e.clone_error()),
            (Phase::Pending, _) => Phase::Pending,
            (Phase::Encoding, _) => Phase::Encoding,
            (Phase::Verifying, _) => Phase::Verifying,
            (Phase::Deleting, _) => Phase::Deleting,
        };
        self.phase = next;
    }
}

impl JobError {
    /// A copy of this error.
    pub fn clone_error(&self) -> (r: JobError)
        ensures
            r@ == self@,
    {
        match self {
            JobError::ScanIo { path } => JobError::ScanIo { path: path.clone() },
            JobError::DestinationExists { path } => JobError::DestinationExists {
                path: path.clone(),
            },
            JobError::SpawnFailed { program } => JobError::SpawnFailed { program: program.clone() },
            JobError::NonZeroExit { code } => JobError::NonZeroExit { code: *code },
            JobError::TerminatedNoCode => JobError::TerminatedNoCode,
            JobError::OutputMissing { path } => JobError::OutputMissing { path: path.clone() },
            JobError::DeleteFailed { path } => JobError::DeleteFailed { path: path.clone() },
        }
    }
}


/// The state after taking in `evs`, in order.
pub open spec fn run_events(m: EncoderModel, evs: Seq<Event>) -> EncoderModel
    decreases evs.len(),
{
    if evs.len() == 0 {
        m
    } else {
        run_events(step_model(m, evs[0]), evs.drop_first())
    }
}

/// A finished job stays as it is, whatever is reported afterwards.
pub proof fn lemma_finished_is_final(m: EncoderModel, evs: Seq<Event>)
    requires
        m.phase is Succeeded || m.phase is Failed,
    ensures
        run_events(m, evs) == m,
    decreases evs.len(),
{
    if evs.len() > 0 {
        assert(step_model(m, evs[0]) == m);
        lemma_finished_is_final(m, evs.drop_first());
    }
}

/// When the output path is already a file, the job fails with a collision
/// on that path: from then on it asks for no transcoder run and no deletion,
/// only to finish with that error.
pub proof fn lemma_collision_never_runs(m: EncoderModel, evs: Seq<Event>)
    requires
        m.phase is Pending,
    ensures
        action_of(m) == ActionModel::ProbeOutput(m.output),
        action_of(run_events(step_model(m, Event::OutputProbed(true)), evs))
            == ActionModel::Finish(Some(ErrorModel::DestinationExists(m.output))),
{
    lemma_finished_is_final(step_model(m, Event::OutputProbed(true)), evs);
}

/// When the transcoder succeeds but the output file is absent, the job
/// fails with the output path as missing, and never asks to delete the input.
pub proof fn lemma_missing_output_keeps_input(m: EncoderModel, code: Option<i32>, evs: Seq<Event>)
    requires
        m.phase is Encoding,
    ensures
        action_of(step_model(m, Event::Exited { success: true, code }))
            == ActionModel::ProbeOutput(m.output),
        action_of(
            run_events(
                step_model(
                    step_model(m, Event::Exited { success: true, code }),
                    Event::OutputProbed(false),
                ),
                evs,
            ),
        ) == ActionModel::Finish(Some(ErrorModel::OutputMissing(m.output))),
{
    let m1 = step_model(m, Event::Exited { success: true, code });
    lemma_finished_is_final(step_model(m1, Event::OutputProbed(false)), evs);
}

/// When the transcoder exits with a failure code, the job fails with that
/// code, and never asks to delete the input.
pub proof fn lemma_failed_exit_keeps_input(m: EncoderModel, c: i32, evs: Seq<Event>)
    requires
        m.phase is Encoding,
    ensures
        action_of(run_events(step_model(m, Event::Exited { success: false, code: Some(c) }), evs))
            == ActionModel::Finish(Some(ErrorModel::NonZeroExit(c))),
{
    lemma_finished_is_final(step_model(m, Event::Exited { success: false, code: Some(c) }), evs);
}

} // verus!
