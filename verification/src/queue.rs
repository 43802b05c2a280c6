//! The queue of jobs and the settings with which files are accepted. One
//! job at most is active; the others wait in the order in which they came.
//! A file that is accepted while no job is active is started at once, and
//! the end of a job starts the next one: nobody has to ask for it.

use vstd::prelude::*;
use vstd::string::*;
use crate::config::{
    reference_catalog, reference_crf, AppConfig, OutputFormat, DEFAULT_OUTPUT_FORMAT,
};
use crate::modals::{Kind, ModalMessage, State};
use crate::pipeline::{FailureModel, PipelineError};
use crate::probe::{VideoInfo, VideoInfoModel};

verus! {

/// One request to compress a file, with the settings of the moment at
/// which the file was accepted.
#[derive(Debug, Clone, PartialEq, Eq)]
pub struct Job {
    pub input_path: String,
    pub format: OutputFormat,
    pub crf: u8,
    pub force_fix: bool,
}

/// A `Job` with its path as a sequence of characters.
pub ghost struct JobModel {
    pub input_path: Seq<char>,
    pub format: OutputFormat,
    pub crf: u8,
    pub force_fix: bool,
}

impl View for Job {
    type V = JobModel;

    open spec fn view(&self) -> JobModel {
        JobModel {
            input_path: self.input_path@,
            format: self.format,
            crf: self.crf,
            force_fix: self.force_fix,
        }
    }
}

/// What the status line says.
#[derive(Debug, Clone, PartialEq, Eq)]
pub enum Status {
    /// Nothing to do.
    Ready,
    /// So many files wait.
    Queued(usize),
    /// This file is being processed.
    Processing(String),
    /// A file has to be chosen first.
    SelectFileFirst,
}

/// A `Status` with its text as a sequence of characters.
pub ghost enum StatusModel {
    Ready,
    Queued(nat),
    Processing(Seq<char>),
    SelectFileFirst,
}

impl View for Status {
    type V = StatusModel;

    open spec fn view(&self) -> StatusModel {
        match self {
            Status::Ready => StatusModel::Ready,
            Status::Queued(count) => StatusModel::Queued(*count as nat),
            Status::Processing(path) => StatusModel::Processing(path@),
            Status::SelectFileFirst => StatusModel::SelectFileFirst,
        }
    }
}

/// What happened: what a person did, or what a job reported.
#[derive(Debug, PartialEq, Eq)]
pub enum Message {
    FileDropped(String),
    FileSelected(Option<String>),
    FormatSelected(OutputFormat),
    CrfChanged(u8),
    ForceVfrFixToggled(bool),
    Compress,
    ShowInfo,
    /// Progress of the active job, in percent.
    CompressionProgress(u8),
    /// The active job is over: the path of its output, or its failure.
    CompressionComplete(Result<String, PipelineError>),
    InfoReady(VideoInfo),
    ModalMessage(ModalMessage),
    Nothing,
}

/// A `Message` with its texts as sequences of characters.
pub ghost enum MessageModel {
    FileDropped(Seq<char>),
    FileSelected(Option<Seq<char>>),
    FormatSelected(OutputFormat),
    CrfChanged(u8),
    ForceVfrFixToggled(bool),
    Compress,
    ShowInfo,
    CompressionProgress(u8),
    CompressionComplete(Result<Seq<char>, FailureModel>),
    InfoReady(VideoInfoModel),
    ModalMessage(ModalMessage),
    Nothing,
}

/// The outcome of a job with its texts as sequences of characters.
pub open spec fn result_model(result: Result<String, PipelineError>) -> Result<
    Seq<char>,
    FailureModel,
> {
    match result {
        Ok(path) => Ok(path@),
        Err(error) => Err(error@),
    }
}

impl View for Message {
    type V = MessageModel;

    open spec fn view(&self) -> MessageModel {
        match self {
            Message::FileDropped(path) => MessageModel::FileDropped(path@),
            Message::FileSelected(Some(path)) => MessageModel::FileSelected(Some(path@)),
            Message::FileSelected(None) => MessageModel::FileSelected(None),
            Message::FormatSelected(format) => MessageModel::FormatSelected(*format),
            Message::CrfChanged(crf) => MessageModel::CrfChanged(*crf),
            Message::ForceVfrFixToggled(force) => MessageModel::ForceVfrFixToggled(*force),
            Message::Compress => MessageModel::Compress,
            Message::ShowInfo => MessageModel::ShowInfo,
            Message::CompressionProgress(progress) => MessageModel::CompressionProgress(*progress),
            Message::CompressionComplete(result) => MessageModel::CompressionComplete(
                result_model(*result),
            ),
            Message::InfoReady(info) => MessageModel::InfoReady(info@),
            Message::ModalMessage(message) => MessageModel::ModalMessage(*message),
            Message::Nothing => MessageModel::Nothing,
        }
    }
}

/// What the program is asked to do after a message.
#[derive(Debug, Clone, PartialEq, Eq)]
pub enum Command {
    Nothing,
    /// Run the pipeline of this job; answer with `CompressionComplete`.
    Compress(Job),
    /// Probe this file; answer with `InfoReady`.
    ShowInfo(String),
}

/// A `Command` with its texts as sequences of characters.
pub ghost enum CommandModel {
    Nothing,
    Compress(JobModel),
    ShowInfo(Seq<char>),
}

impl View for Command {
    type V = CommandModel;

    open spec fn view(&self) -> CommandModel {
        match self {
            Command::Nothing => CommandModel::Nothing,
            Command::Compress(job) => CommandModel::Compress(job@),
            Command::ShowInfo(path) => CommandModel::ShowInfo(path@),
        }
    }
}

/// The queue, the settings, and what is shown.
#[derive(Debug, PartialEq, Eq)]
pub struct VideoCompressor {
    /// The active job.
    pub input_file: Option<Job>,
    pub output_format: OutputFormat,
    pub crf_value: u8,
    pub force_vfr_fix: bool,
    /// Progress of the active job, in percent.
    pub progress: u8,
    pub status: Status,
    /// How the last job that ended did end.
    pub last_result: Option<Result<String, PipelineError>>,
    pub video_info: Option<VideoInfo>,
    pub modal_state: Option<State>,
    /// The jobs that wait, the next one first.
    pub file_queue: Vec<Job>,
}

/// A `VideoCompressor` with its texts as sequences of characters.
pub ghost struct CompressorModel {
    pub input_file: Option<JobModel>,
    pub output_format: OutputFormat,
    pub crf_value: u8,
    pub force_vfr_fix: bool,
    pub progress: u8,
    pub status: StatusModel,
    pub last_result: Option<Result<Seq<char>, FailureModel>>,
    pub video_info: Option<VideoInfoModel>,
    pub modal_state: Option<Option<VideoInfoModel>>,
    pub file_queue: Seq<JobModel>,
}

/// The jobs of a list with their texts as sequences of characters.
pub open spec fn jobs(list: Seq<Job>) -> Seq<JobModel> {
    list.map_values(|job: Job| job@)
}

impl View for VideoCompressor {
    type V = CompressorModel;

    open spec fn view(&self) -> CompressorModel {
        CompressorModel {
            input_file: match self.input_file {
                Some(job) => Some(job@),
                None => None,
            },
            output_format: self.output_format,
            crf_value: self.crf_value,
            force_vfr_fix: self.force_vfr_fix,
            progress: self.progress,
            status: self.status@,
            last_result: match self.last_result {
                Some(result) => Some(result_model(result)),
                None => None,
            },
            video_info: match self.video_info {
                Some(info) => Some(info@),
                None => None,
            },
            modal_state: match self.modal_state {
                Some(state) => Some(state@),
                None => None,
            },
            file_queue: jobs(self.file_queue@),
        }
    }
}

impl CompressorModel {
    /// Nothing waits while no job is active.
    pub open spec fn well_formed(self) -> bool {
        self.input_file.is_none() ==> self.file_queue.len() == 0
    }

    /// The job that a file accepted now would make.
    pub open spec fn job_for(self, path: Seq<char>) -> JobModel {
        JobModel {
            input_path: path,
            format: self.output_format,
            crf: self.crf_value,
            force_fix: self.force_vfr_fix,
        }
    }
}

/// The state at the start: nothing waits, nothing runs, and the settings
/// are those of the default profile.
pub open spec fn initial() -> CompressorModel {
    CompressorModel {
        input_file: None,
        output_format: DEFAULT_OUTPUT_FORMAT,
        crf_value: reference_crf(DEFAULT_OUTPUT_FORMAT),
        force_vfr_fix: false,
        progress: 0,
        status: StatusModel::Ready,
        last_result: None,
        video_info: None,
        modal_state: None,
        file_queue: Seq::empty(),
    }
}

/// The job at the head of the queue becomes the active one and is to be
/// run; where nothing waits, nothing is active any more.
pub open spec fn next_file(state: CompressorModel) -> (CompressorModel, CommandModel) {
    if state.file_queue.len() > 0 {
        let job = state.file_queue[0];
        (
            CompressorModel {
                input_file: Some(job),
                file_queue: state.file_queue.remove(0),
                progress: 0,
                status: StatusModel::Processing(job.input_path),
                ..state
            },
            CommandModel::Compress(job),
        )
    } else {
        (
            CompressorModel { input_file: None, status: StatusModel::Ready, ..state },
            CommandModel::Nothing,
        )
    }
}

/// A job goes to the tail of the queue; where no job is active the head of
/// the queue is started at once.
pub open spec fn enqueued(state: CompressorModel, job: JobModel) -> (
    CompressorModel,
    CommandModel,
) {
    let longer = CompressorModel { file_queue: state.file_queue.push(job), ..state };
    let (after, command) = if longer.input_file.is_none() {
        next_file(longer)
    } else {
        (longer, CommandModel::Nothing)
    };
    (CompressorModel { status: StatusModel::Queued(after.file_queue.len()), ..after }, command)
}

/// The active job is over: its outcome is kept, and the next job is
/// started whether it went well or not.
pub open spec fn job_ended(state: CompressorModel, result: Result<Seq<char>, FailureModel>) -> (
    CompressorModel,
    CommandModel,
) {
    next_file(CompressorModel { last_result: Some(result), input_file: None, ..state })
}

/// What a message does to the state, and what the program is asked to do.
///
/// A file that is dropped or chosen becomes a job with the settings of the
/// moment and is put in the queue. A chosen profile brings its reference
/// default for the quality parameter. To ask for compression while a job is
/// active starts no second one; while none is active it starts the head of
/// the queue, and asks for a file where nothing waits. The record of a file
/// is asked for the active job, and opens the dialog when it comes. The end
/// of a job starts the next one.
pub open spec fn updated(state: CompressorModel, message: MessageModel) -> (
    CompressorModel,
    CommandModel,
) {
    match message {
        MessageModel::FileDropped(path) => enqueued(state, state.job_for(path)),
        MessageModel::FileSelected(Some(path)) => enqueued(state, state.job_for(path)),
        MessageModel::FileSelected(None) => (state, CommandModel::Nothing),
        MessageModel::FormatSelected(format) => (
            CompressorModel { output_format: format, crf_value: reference_crf(format), ..state },
            CommandModel::Nothing,
        ),
        MessageModel::CrfChanged(crf) => (
            CompressorModel { crf_value: crf, ..state },
            CommandModel::Nothing,
        ),
        MessageModel::ForceVfrFixToggled(force) => (
            CompressorModel { force_vfr_fix: force, ..state },
            CommandModel::Nothing,
        ),
        MessageModel::Compress => if state.input_file.is_some() {
            (state, CommandModel::Nothing)
        } else if state.file_queue.len() == 0 {
            (CompressorModel { status: StatusModel::SelectFileFirst, ..state }, CommandModel::Nothing)
        } else {
            next_file(state)
        },
        MessageModel::ShowInfo => match state.input_file {
            Some(job) => (state, CommandModel::ShowInfo(job.input_path)),
            None => (
                CompressorModel { status: StatusModel::SelectFileFirst, ..state },
                CommandModel::Nothing,
            ),
        },
        MessageModel::CompressionProgress(progress) => (
            CompressorModel { progress, ..state },
            CommandModel::Nothing,
        ),
        MessageModel::CompressionComplete(result) => job_ended(state, result),
        MessageModel::InfoReady(info) => (
            CompressorModel { video_info: Some(info), modal_state: Some(Some(info)), ..state },
            CommandModel::Nothing,
        ),
        MessageModel::ModalMessage(ModalMessage::Close) => (
            CompressorModel { modal_state: None, ..state },
            CommandModel::Nothing,
        ),
        MessageModel::Nothing => (state, CommandModel::Nothing),
    }
}

/// What a run of messages has made of the jobs.
pub ghost struct History {
    pub state: CompressorModel,
    /// The jobs that were accepted, in the order in which they came.
    pub accepted: Seq<JobModel>,
    /// The jobs that were started, in the order in which they were.
    pub started: Seq<JobModel>,
    /// How many jobs ended.
    pub ended: nat,
}

/// The history after one more message.
pub open spec fn recorded(history: History, message: MessageModel) -> History {
    let (state, command) = updated(history.state, message);
    History {
        state,
        accepted: match message {
            MessageModel::FileDropped(path) => history.accepted.push(
                history.state.job_for(path),
            ),
            MessageModel::FileSelected(Some(path)) => history.accepted.push(
                history.state.job_for(path),
            ),
            _ => history.accepted,
        },
        started: match command {
            CommandModel::Compress(job) => history.started.push(job),
            _ => history.started,
        },
        ended: match message {
            MessageModel::CompressionComplete(_) => if history.state.input_file.is_some() {
                history.ended + 1
            } else {
                history.ended
            },
            _ => history.ended,
        },
    }
}

/// The history of a run of messages from the start.
pub open spec fn history_of(messages: Seq<MessageModel>) -> History
    decreases messages.len(),
{
    if messages.len() == 0 {
        History { state: initial(), accepted: Seq::empty(), started: Seq::empty(), ended: 0 }
    } else {
        recorded(history_of(messages.drop_last()), messages.last())
    }
}

/// The jobs are taken first come, first served, and one at a time.
pub open spec fn first_come_first_served(history: History) -> bool {
    &&& history.state.well_formed()
    &&& history.accepted == history.started + history.state.file_queue
    &&& history.ended <= history.started.len() <= history.ended + 1
    &&& history.state.input_file == if history.started.len() > history.ended {
        Some(history.started.last())
    } else {
        None
    }
}

/// One more message keeps the jobs first come, first served.
pub proof fn order_is_kept(history: History, message: MessageModel)
    requires
        first_come_first_served(history),
    ensures
        first_come_first_served(recorded(history, message)),
{
    let after = recorded(history, message);
    let queue = history.state.file_queue;
    match message {
        MessageModel::FileDropped(path) => {
            let job = history.state.job_for(path);
            if history.state.input_file.is_none() {
                assert(queue.push(job).remove(0) =~= queue);
            }
            assert(after.accepted =~= after.started + after.state.file_queue);
        },
        MessageModel::FileSelected(Some(path)) => {
            let job = history.state.job_for(path);
            if history.state.input_file.is_none() {
                assert(queue.push(job).remove(0) =~= queue);
            }
            assert(after.accepted =~= after.started + after.state.file_queue);
        },
        MessageModel::CompressionComplete(result) => {
            if queue.len() > 0 {
                assert(history.started.push(queue[0]) + queue.remove(0) =~= history.started
                    + queue);
            }
        },
        _ => {},
    }
}

/// The queue goes on in the same way whether a job went well or not: the
/// outcome is kept, and nothing else depends on it.
pub proof fn the_queue_goes_on_after_any_outcome(
    state: CompressorModel,
    one: Result<Seq<char>, FailureModel>,
    other: Result<Seq<char>, FailureModel>,
)
    ensures
        job_ended(state, one).1 == job_ended(state, other).1,
        job_ended(state, one).0 == (CompressorModel {
            last_result: Some(one),
            ..job_ended(state, other).0
        }),
        state.file_queue.len() > 0 ==> job_ended(state, one).1 == CommandModel::Compress(
            state.file_queue[0],
        ),
{
}

/// Whatever happens from the start on: the jobs that were started are the
/// first of those that were accepted, in the same order, and the others
/// wait in that order; a job is started only once every job before it has
/// ended, so that one job at most is active; and nothing waits while none
/// is active.
pub proof fn queue_is_first_come_first_served(messages: Seq<MessageModel>)
    ensures
        first_come_first_served(history_of(messages)),
    decreases messages.len(),
{
    if messages.len() == 0 {
        let history = history_of(messages);
        assert(history.accepted =~= history.started + history.state.file_queue);
    } else {
        queue_is_first_come_first_served(messages.drop_last());
        order_is_kept(history_of(messages.drop_last()), messages.last());
    }
}

impl Job {
    /// A second request that says the same.
    pub fn duplicate(&self) -> (copy: Job)
        ensures
            copy@ == self@,
    {
        Job {
            input_path: self.input_path.clone(),
            format: self.format,
            crf: self.crf,
            force_fix: self.force_fix,
        }
    }
}

impl VideoCompressor {
    /// The state at the start.
    pub fn new() -> (state: Self)
        ensures
            state@ == initial(),
            state@.well_formed(),
    {
        let config = AppConfig::default();
        let crf_value = config.get_default_crf(&DEFAULT_OUTPUT_FORMAT);
        proof {
            reference_catalog(config);
        }
        let state = VideoCompressor {
            input_file: None,
            output_format: DEFAULT_OUTPUT_FORMAT,
            crf_value,
            force_vfr_fix: false,
            progress: 0,
            status: Status::Ready,
            last_result: None,
            video_info: None,
            modal_state: None,
            file_queue: Vec::new(),
        };
        assert(state@.file_queue =~= Seq::empty());
        state
    }

    /// Whether a job is active.
    pub fn is_processing(&self) -> (active: bool)
        ensures
            active == self@.input_file.is_some(),
    {
        self.input_file.is_some()
    }

    /// Takes the job at the head of the queue as the active one and asks for
    /// it to be run; where nothing waits, nothing is active any more.
    pub fn process_next_file(&mut self) -> (command: Command)
        ensures
            (final(self)@, command@) == next_file(old(self)@),
    {
        if self.file_queue.len() > 0 {
            let job = self.file_queue.remove(0);
            assert(jobs(self.file_queue@) =~= jobs(old(self).file_queue@).remove(0));
            self.progress = 0;
            self.status = Status::Processing(job.input_path.clone());
            self.input_file = Some(job.duplicate());
            Command::Compress(job)
        } else {
            self.input_file = None;
            self.status = Status::Ready;
            Command::Nothing
        }
    }

    /// Puts a job at the tail of the queue; where no job is active, the head
    /// of the queue is started at once.
    pub fn enqueue(&mut self, job: Job) -> (command: Command)
        ensures
            (final(self)@, command@) == enqueued(old(self)@, job@),
    {
        self.file_queue.push(job);
        assert(jobs(self.file_queue@) =~= jobs(old(self).file_queue@).push(job@));
        let command = if self.input_file.is_none() {
            self.process_next_file()
        } else {
            Command::Nothing
        };
        self.status = Status::Queued(self.file_queue.len());
        command
    }

    /// Takes note of how the active job ended and starts the next one,
    /// whether the job went well or not.
    pub fn on_job_terminal(&mut self, result: Result<String, PipelineError>) -> (command: Command)
        ensures
            (final(self)@, command@) == job_ended(old(self)@, result_model(result)),
    {
        self.last_result = Some(result);
        self.input_file = None;
        self.process_next_file()
    }

    fn accept(&mut self, path: String) -> (command: Command)
        ensures
            (final(self)@, command@) == enqueued(old(self)@, old(self)@.job_for(path@)),
    {
        let job = Job {
            input_path: path,
            format: self.output_format,
            crf: self.crf_value,
            force_fix: self.force_vfr_fix,
        };
        self.enqueue(job)
    }

    /// Takes a message in: what it does to the queue, to the settings and
    /// to what is shown, and what the program is asked to do.
    pub fn update(&mut self, message: Message) -> (command: Command)
        ensures
            (final(self)@, command@) == updated(old(self)@, message@),
            old(self)@.well_formed() ==> final(self)@.well_formed(),
    {
        match message {
            Message::FileDropped(path) => self.accept(path),
            Message::FileSelected(chosen) => match chosen {
                Some(path) => self.accept(path),
                None => Command::Nothing,
            },
            Message::FormatSelected(format) => {
                let config = AppConfig::default();
                proof {
                    reference_catalog(config);
                }
                self.output_format = format;
                self.crf_value = config.get_default_crf(&format);
                Command::Nothing
            },
            Message::CrfChanged(crf) => {
                self.crf_value = crf;
                Command::Nothing
            },
            Message::ForceVfrFixToggled(force) => {
                self.force_vfr_fix = force;
                Command::Nothing
            },
            Message::Compress => {
                if self.input_file.is_some() {
                    Command::Nothing
                } else if self.file_queue.len() == 0 {
                    self.status = Status::SelectFileFirst;
                    Command::Nothing
                } else {
                    self.process_next_file()
                }
            },
            Message::ShowInfo => {
                let path = match &self.input_file {
                    Some(job) => Some(job.input_path.clone()),
                    None => None,
                };
                match path {
                    Some(path) => Command::ShowInfo(path),
                    None => {
                        self.status = Status::SelectFileFirst;
                        Command::Nothing
                    },
                }
            },
            Message::CompressionProgress(progress) => {
                self.progress = progress;
                Command::Nothing
            },
            Message::CompressionComplete(result) => self.on_job_terminal(result),
            Message::InfoReady(info) => {
                self.video_info = Some(info.duplicate());
                self.modal_state = Some(State::new(Kind::Info(Some(info))));
                Command::Nothing
            },
            Message::ModalMessage(asked) => {
                match asked {
                    ModalMessage::Close => {
                        self.modal_state = None;
                    },
                }
                Command::Nothing
            },
            Message::Nothing => Command::Nothing,
        }
    }
}

} // verus!
