//! The pipeline of one job: probe, bring to a constant frame rate where
//! that is needed, encode, clean up. The engine decides each step; the
//! program runs what a step asks for and hands the outcome back as an event.

use vstd::prelude::*;
use vstd::string::*;
use crate::command::{
    encode_arguments, encode_command, listing_arguments, listing_command, normalize_arguments,
    normalize_command, probe_arguments, probe_command, texts,
};
use crate::config::OutputFormat;
use crate::encoders::{detect, gpu_vendor, optional_text};
use crate::ffmpeg_utils::FFmpegUtils;
use crate::paths::{held_text, output_path, output_path_of, temp_path, temp_path_of};
use crate::probe::{held_bytes, probed_facts};

verus! {

/// Progress that is reported once the normalization pass is through.
pub const PROGRESS_NORMALIZED: u8 = 50;

/// Progress that is reported once the job is done.
pub const PROGRESS_DONE: u8 = 100;

/// Where a pipeline stands.
#[derive(Debug, Clone, Copy, PartialEq, Eq, Structural)]
pub enum Stage {
    /// Nothing is known of the file yet.
    Idle,
    /// The file is probed and the way is being decided. One step passes
    /// through this stage; no pipeline rests in it.
    Probed,
    /// The normalization pass runs.
    FixingVfr,
    /// The encoders are listed, then the encode pass runs.
    Encoding,
    /// The file of the normalization pass is removed. A job without such a
    /// file passes this stage over.
    CleaningUp,
    /// The output is written and nothing of the job is left behind.
    Done,
    /// The job has failed. A file that the normalization pass wrote stays
    /// where it is: it is removed after an encode pass that went well, and
    /// at no other time.
    Failed,
}

/// The kinds of failure that end a job.
#[derive(Debug, Clone, Copy, PartialEq, Eq, Structural)]
pub enum FailureKind {
    /// A tool could not be started.
    Launch,
    /// A tool ran and did not leave the file it was to write.
    Execution,
    /// The output is there, and the file of the normalization pass could
    /// not be removed.
    Cleanup,
}

/// Why a job failed.
#[derive(Debug, Clone, PartialEq, Eq)]
pub struct PipelineError {
    pub kind: FailureKind,
    pub message: String,
}

/// A `PipelineError` with its message as a sequence of characters.
pub ghost struct FailureModel {
    pub kind: FailureKind,
    pub message: Seq<char>,
}

impl View for PipelineError {
    type V = FailureModel;

    open spec fn view(&self) -> FailureModel {
        FailureModel { kind: self.kind, message: self.message@ }
    }
}

/// How a run of a tool ended.
#[derive(Debug, Clone, PartialEq, Eq)]
pub enum ToolOutcome {
    /// The tool ran and left the file it was to write.
    Completed,
    /// The tool could not be started; the text says why.
    NotLaunched(String),
    /// The tool ran and left no such file; the text says what is known.
    NoArtifact(String),
}

/// A `ToolOutcome` with its texts as sequences of characters.
pub ghost enum OutcomeModel {
    Completed,
    NotLaunched(Seq<char>),
    NoArtifact(Seq<char>),
}

impl View for ToolOutcome {
    type V = OutcomeModel;

    open spec fn view(&self) -> OutcomeModel {
        match self {
            ToolOutcome::Completed => OutcomeModel::Completed,
            ToolOutcome::NotLaunched(why) => OutcomeModel::NotLaunched(why@),
            ToolOutcome::NoArtifact(why) => OutcomeModel::NoArtifact(why@),
        }
    }
}

/// How a run ended that was to write a file: not launched where the tool
/// could not be started, for the reason given; else completed where the
/// file is there afterwards, and without artifact where it is not, with
/// what is known of the run.
pub open spec fn judged(
    launch_error: Option<Seq<char>>,
    artifact_exists: bool,
    known: Seq<char>,
) -> OutcomeModel {
    match launch_error {
        Some(why) => OutcomeModel::NotLaunched(why),
        None => if artifact_exists {
            OutcomeModel::Completed
        } else {
            OutcomeModel::NoArtifact(known)
        },
    }
}

impl ToolOutcome {
    /// Judges a run that was to write a file. `launch_error` says why the
    /// tool could not be started, if it could not; `artifact_exists` says
    /// whether the file is there after the run, and `known` what is known
    /// of the run, such as its exit status.
    pub fn judge(launch_error: Option<String>, artifact_exists: bool, known: String) -> (outcome:
        ToolOutcome)
        ensures
            outcome@ == judged(held_text(launch_error), artifact_exists, known@),
    {
        match launch_error {
            Some(why) => ToolOutcome::NotLaunched(why),
            None => if artifact_exists {
                ToolOutcome::Completed
            } else {
                ToolOutcome::NoArtifact(known)
            },
        }
    }
}

/// What the program hands back after it did what a step asked for.
#[derive(Debug, PartialEq, Eq)]
pub enum Event {
    /// What the probing tool printed, `None` where it could not be launched.
    Probed(Option<Vec<u8>>),
    /// How the normalization pass ended.
    Normalized(ToolOutcome),
    /// The encoders that the encoding tool lists, `None` where it could not
    /// be launched.
    EncodersListed(Option<String>),
    /// How the encode pass ended.
    Encoded(ToolOutcome),
    /// Whether the file of the normalization pass was removed; the text of
    /// an error says why not.
    TempRemoved(Result<(), String>),
}

/// An `Event` with its bytes and texts as sequences.
pub ghost enum EventModel {
    Probed(Option<Seq<u8>>),
    Normalized(OutcomeModel),
    EncodersListed(Option<Seq<char>>),
    Encoded(OutcomeModel),
    TempRemoved(Option<Seq<char>>),
}

impl View for Event {
    type V = EventModel;

    open spec fn view(&self) -> EventModel {
        match self {
            Event::Probed(output) => EventModel::Probed(held_bytes(*output)),
            Event::Normalized(outcome) => EventModel::Normalized(outcome@),
            Event::EncodersListed(listing) => EventModel::EncodersListed(held_text(*listing)),
            Event::Encoded(outcome) => EventModel::Encoded(outcome@),
            Event::TempRemoved(removed) => EventModel::TempRemoved(
                match removed {
                    Ok(_) => None,
                    Err(why) => Some(why@),
                },
            ),
        }
    }
}

/// What the program is asked to do next.
#[derive(Debug, PartialEq, Eq)]
pub enum Action {
    /// Run the probing tool with these arguments; answer with `Probed`.
    Probe(Vec<String>),
    /// Run the encoding tool with these arguments; answer with `Normalized`.
    Normalize(Vec<String>),
    /// Run the encoding tool with these arguments; answer with
    /// `EncodersListed`.
    ListEncoders(Vec<String>),
    /// Run the encoding tool with these arguments; answer with `Encoded`.
    Encode(Vec<String>),
    /// Remove this file; answer with `TempRemoved`.
    RemoveTemp(String),
    /// The job is over: report the path of the output, or the failure.
    Finish(Result<String, PipelineError>),
    /// The event answered nothing that the pipeline waits for: go on waiting.
    Wait,
}

/// An `Action` with its texts as sequences of characters.
pub ghost enum ActionModel {
    Probe(Seq<Seq<char>>),
    Normalize(Seq<Seq<char>>),
    ListEncoders(Seq<Seq<char>>),
    Encode(Seq<Seq<char>>),
    RemoveTemp(Seq<char>),
    Finish(Result<Seq<char>, FailureModel>),
    Wait,
}

impl View for Action {
    type V = ActionModel;

    open spec fn view(&self) -> ActionModel {
        match self {
            Action::Probe(args) => ActionModel::Probe(texts(args@)),
            Action::Normalize(args) => ActionModel::Normalize(texts(args@)),
            Action::ListEncoders(args) => ActionModel::ListEncoders(texts(args@)),
            Action::Encode(args) => ActionModel::Encode(texts(args@)),
            Action::RemoveTemp(path) => ActionModel::RemoveTemp(path@),
            Action::Finish(result) => ActionModel::Finish(
                match result {
                    Ok(path) => Ok(path@),
                    Err(error) => Err(error@),
                },
            ),
            Action::Wait => ActionModel::Wait,
        }
    }
}

/// One step of a pipeline: the progress to report, if any, in percent, and
/// what to do next.
#[derive(Debug, PartialEq, Eq)]
pub struct Step {
    pub progress: Option<u8>,
    pub action: Action,
}

/// A `Step` with its texts as sequences of characters.
pub ghost struct StepModel {
    pub progress: Option<u8>,
    pub action: ActionModel,
}

impl View for Step {
    type V = StepModel;

    open spec fn view(&self) -> StepModel {
        StepModel { progress: self.progress, action: self.action@ }
    }
}

/// The state of the pipeline of one job.
#[derive(Debug, Clone, PartialEq, Eq)]
pub struct Pipeline {
    pub stage: Stage,
    pub input_path: String,
    pub format: OutputFormat,
    pub crf: u8,
    pub force_fix: bool,
    /// The file of the normalization pass, once that pass is decided on.
    pub temp_path: Option<String>,
    /// The file of the encode pass, once the file is probed.
    pub output_path: Option<String>,
    /// While encoding: the encoders are listed and the encode pass runs.
    pub encoder_chosen: bool,
}

/// A `Pipeline` with its paths as sequences of characters.
pub ghost struct PipelineModel {
    pub stage: Stage,
    pub input_path: Seq<char>,
    pub format: OutputFormat,
    pub crf: u8,
    pub force_fix: bool,
    pub temp_path: Option<Seq<char>>,
    pub output_path: Option<Seq<char>>,
    pub encoder_chosen: bool,
}

impl View for Pipeline {
    type V = PipelineModel;

    open spec fn view(&self) -> PipelineModel {
        PipelineModel {
            stage: self.stage,
            input_path: self.input_path@,
            format: self.format,
            crf: self.crf,
            force_fix: self.force_fix,
            temp_path: held_text(self.temp_path),
            output_path: held_text(self.output_path),
            encoder_chosen: self.encoder_chosen,
        }
    }
}

impl PipelineModel {
    /// What holds of every pipeline that the engine made: the output is
    /// named from the first decision on, and a file of the normalization
    /// pass is named exactly where that pass was decided on.
    pub open spec fn well_formed(self) -> bool {
        match self.stage {
            Stage::Idle => self.temp_path.is_none() && self.output_path.is_none()
                && !self.encoder_chosen,
            Stage::Probed => false,
            Stage::FixingVfr => self.temp_path.is_some() && self.output_path.is_some()
                && !self.encoder_chosen,
            Stage::Encoding => self.output_path.is_some(),
            Stage::CleaningUp => self.temp_path.is_some() && self.output_path.is_some(),
            Stage::Done => self.output_path.is_some(),
            Stage::Failed => true,
        }
    }

    /// The file that the encode pass reads: that of the normalization pass
    /// where there is one, else the input itself.
    pub open spec fn current_input(self) -> Seq<char> {
        match self.temp_path {
            Some(path) => path,
            None => self.input_path,
        }
    }

    /// The file that the encode pass writes; the empty path as long as it
    /// is not named.
    pub open spec fn written(self) -> Seq<char> {
        match self.output_path {
            Some(path) => path,
            None => Seq::empty(),
        }
    }
}

/// The pipeline of a new job, and the step with which it begins: the file
/// is to be probed.
pub open spec fn started(
    input_path: Seq<char>,
    format: OutputFormat,
    crf: u8,
    force_fix: bool,
) -> (PipelineModel, StepModel) {
    (
        PipelineModel {
            stage: Stage::Idle,
            input_path,
            format,
            crf,
            force_fix,
            temp_path: None,
            output_path: None,
            encoder_chosen: false,
        },
        StepModel { progress: None, action: ActionModel::Probe(probe_arguments(input_path)) },
    )
}

/// The step that goes on waiting.
pub open spec fn waiting(pipeline: PipelineModel) -> (PipelineModel, StepModel) {
    (pipeline, StepModel { progress: None, action: ActionModel::Wait })
}

/// The step that ends the job with a failure. Nothing is cleaned up: the
/// file of the normalization pass, if there is one, is left behind.
pub open spec fn failing(pipeline: PipelineModel, kind: FailureKind, message: Seq<char>) -> (
    PipelineModel,
    StepModel,
) {
    (
        PipelineModel { stage: Stage::Failed, ..pipeline },
        StepModel {
            progress: None,
            action: ActionModel::Finish(Err(FailureModel { kind, message })),
        },
    )
}

/// The step that ends the job with its output.
pub open spec fn finishing(pipeline: PipelineModel) -> (PipelineModel, StepModel) {
    (
        PipelineModel { stage: Stage::Done, ..pipeline },
        StepModel {
            progress: Some(PROGRESS_DONE),
            action: ActionModel::Finish(Ok(pipeline.written())),
        },
    )
}

/// The step that asks for the list of encoders, with which encoding begins.
pub open spec fn entering_encoding(pipeline: PipelineModel, progress: Option<u8>) -> (
    PipelineModel,
    StepModel,
) {
    (
        PipelineModel { stage: Stage::Encoding, encoder_chosen: false, ..pipeline },
        StepModel { progress, action: ActionModel::ListEncoders(listing_arguments()) },
    )
}

/// The failure of a tool run: its kind, and its message behind `prefix`.
pub open spec fn outcome_failure(outcome: OutcomeModel, prefix: Seq<char>) -> Option<
    (FailureKind, Seq<char>),
> {
    match outcome {
        OutcomeModel::Completed => None,
        OutcomeModel::NotLaunched(why) => Some((FailureKind::Launch, prefix + why)),
        OutcomeModel::NoArtifact(why) => Some((FailureKind::Execution, prefix + why)),
    }
}

/// How the message of a failed normalization pass begins.
pub open spec fn normalize_failed() -> Seq<char> {
    "Ошибка при исправлении VFR: "@
}

/// How the message of a failed encode pass begins.
pub open spec fn encode_failed() -> Seq<char> {
    "Ошибка при сжатии видео: "@
}

/// How the message of a failed removal begins.
pub open spec fn cleanup_failed() -> Seq<char> {
    "Ошибка удаления временного файла: "@
}

/// What is said of an input path that names no file.
pub open spec fn no_file_name() -> Seq<char> {
    "у входного файла нет имени"@
}

/// What is said of an input file whose name has no extension.
pub open spec fn no_extension() -> Seq<char> {
    "у входного файла нет расширения"@
}

/// The decision after the probe. The file is brought to a constant frame
/// rate first where that is forced or where the probe found the declared
/// rates degenerate; else encoding begins at once. The job fails where a
/// file that it has to write cannot be named: the output for a path that
/// names no file, the file of the normalization pass for a file name
/// without extension. No tool is launched then.
pub open spec fn decided(pipeline: PipelineModel, output: Option<Seq<u8>>) -> (
    PipelineModel,
    StepModel,
) {
    let fix = pipeline.force_fix || probed_facts(output).needs_vfr_fix;
    match output_path_of(pipeline.input_path, pipeline.format) {
        None => failing(pipeline, FailureKind::Launch, encode_failed() + no_file_name()),
        Some(written) => {
            let named = PipelineModel { output_path: Some(written), ..pipeline };
            if fix {
                match temp_path_of(pipeline.input_path) {
                    None => failing(
                        named,
                        FailureKind::Launch,
                        normalize_failed() + no_extension(),
                    ),
                    Some(temp) => (
                        PipelineModel {
                            stage: Stage::FixingVfr,
                            temp_path: Some(temp),
                            ..named
                        },
                        StepModel {
                            progress: None,
                            action: ActionModel::Normalize(
                                normalize_arguments(pipeline.input_path, temp),
                            ),
                        },
                    ),
                }
            } else {
                entering_encoding(named, None)
            }
        },
    }
}

/// What a pipeline does with an event: its next state and its step. An
/// event that does not answer what the pipeline waits for changes nothing.
pub open spec fn advanced(pipeline: PipelineModel, event: EventModel) -> (
    PipelineModel,
    StepModel,
) {
    match (pipeline.stage, event) {
        (Stage::Idle, EventModel::Probed(output)) => decided(pipeline, output),
        (Stage::FixingVfr, EventModel::Normalized(outcome)) => match outcome_failure(
            outcome,
            normalize_failed(),
        ) {
            Some((kind, message)) => failing(pipeline, kind, message),
            None => entering_encoding(pipeline, Some(PROGRESS_NORMALIZED)),
        },
        (Stage::Encoding, EventModel::EncodersListed(listing)) => if pipeline.encoder_chosen {
            waiting(pipeline)
        } else {
            (
                PipelineModel { encoder_chosen: true, ..pipeline },
                StepModel {
                    progress: None,
                    action: ActionModel::Encode(
                        encode_arguments(
                            pipeline.current_input(),
                            pipeline.written(),
                            pipeline.format,
                            pipeline.crf,
                            gpu_vendor(listing),
                        ),
                    ),
                },
            )
        },
        (Stage::Encoding, EventModel::Encoded(outcome)) => if !pipeline.encoder_chosen {
            waiting(pipeline)
        } else {
            match outcome_failure(outcome, encode_failed()) {
                Some((kind, message)) => failing(pipeline, kind, message),
                None => match pipeline.temp_path {
                    Some(temp) => (
                        PipelineModel { stage: Stage::CleaningUp, ..pipeline },
                        StepModel { progress: None, action: ActionModel::RemoveTemp(temp) },
                    ),
                    None => finishing(pipeline),
                },
            }
        },
        (Stage::CleaningUp, EventModel::TempRemoved(removed)) => match removed {
            Some(why) => failing(pipeline, FailureKind::Cleanup, cleanup_failed() + why),
            None => finishing(pipeline),
        },
        _ => waiting(pipeline),
    }
}

/// What was reported after one more step, given what was reported before.
pub open spec fn reported_after(reported: Seq<u8>, step: StepModel) -> Seq<u8> {
    match step.progress {
        Some(progress) => reported.push(progress),
        None => reported,
    }
}

/// The state of a pipeline after a run of events, and the progress values
/// that its steps reported on the way, in their order.
pub open spec fn run(pipeline: PipelineModel, events: Seq<EventModel>) -> (PipelineModel, Seq<u8>)
    decreases events.len(),
{
    if events.len() == 0 {
        (pipeline, Seq::empty())
    } else {
        let (before, reported) = run(pipeline, events.drop_last());
        let (after, step) = advanced(before, events.last());
        (after, reported_after(reported, step))
    }
}

/// The place of a stage in the order of the machine.
pub open spec fn rank(stage: Stage) -> int {
    match stage {
        Stage::Idle => 0,
        Stage::Probed => 1,
        Stage::FixingVfr => 2,
        Stage::Encoding => 3,
        Stage::CleaningUp => 4,
        Stage::Done => 5,
        Stage::Failed => 5,
    }
}

/// What a pipeline has reported, given where it stands and whether its file
/// is brought to a constant frame rate.
pub open spec fn reported_so_far(pipeline: PipelineModel, fix: bool, reported: Seq<u8>) -> bool {
    match pipeline.stage {
        Stage::Idle => false,
        Stage::Probed => false,
        Stage::FixingVfr => fix && pipeline.temp_path.is_some() && reported == Seq::<u8>::empty(),
        Stage::Encoding => (pipeline.temp_path.is_some() <==> fix) && reported == if fix {
            seq![PROGRESS_NORMALIZED]
        } else {
            Seq::<u8>::empty()
        },
        Stage::CleaningUp => fix && reported == seq![PROGRESS_NORMALIZED],
        Stage::Done => reported == if fix {
            seq![PROGRESS_NORMALIZED, PROGRESS_DONE]
        } else {
            seq![PROGRESS_DONE]
        },
        Stage::Failed => reported == Seq::<u8>::empty() || (fix && reported == seq![
            PROGRESS_NORMALIZED,
        ]),
    }
}

/// The stages between which one step can take a pipeline. A stage in which
/// nothing is waited for is passed through within the step: `Probed`
/// always, `CleaningUp` where no file is to be removed.
pub open spec fn may_follow(from: Stage, to: Stage) -> bool {
    from == to || match from {
        Stage::Idle => to == Stage::FixingVfr || to == Stage::Encoding || to == Stage::Failed,
        Stage::Probed => false,
        Stage::FixingVfr => to == Stage::Encoding || to == Stage::Failed,
        Stage::Encoding => to == Stage::CleaningUp || to == Stage::Done || to == Stage::Failed,
        Stage::CleaningUp => to == Stage::Done || to == Stage::Failed,
        Stage::Done => false,
        Stage::Failed => false,
    }
}

/// A step keeps a pipeline well formed and never takes it back: the stage
/// stays or moves on along the machine, and from `Done` and from `Failed`
/// nothing moves any more.
pub proof fn stages_move_forward(pipeline: PipelineModel, event: EventModel)
    requires
        pipeline.well_formed(),
    ensures
        advanced(pipeline, event).0.well_formed(),
        may_follow(pipeline.stage, advanced(pipeline, event).0.stage),
        rank(pipeline.stage) <= rank(advanced(pipeline, event).0.stage),
        pipeline.stage == Stage::Done || pipeline.stage == Stage::Failed ==> advanced(
            pipeline,
            event,
        ) == waiting(pipeline),
{
}

/// A probe and a listing of encoders are advice: where one could not be
/// had, or says nothing that can be read, the job goes on as if there were
/// nothing to report. A job fails after the probe only for want of a name
/// for a file that it has to write.
pub proof fn advice_ends_no_job(pipeline: PipelineModel, output: Option<Seq<u8>>, listing: Option<
    Seq<char>,
>)
    requires
        pipeline.well_formed(),
    ensures
        pipeline.stage == Stage::Encoding ==> advanced(
            pipeline,
            EventModel::EncodersListed(listing),
        ).0.stage == Stage::Encoding,
        pipeline.stage == Stage::Idle && output_path_of(
            pipeline.input_path,
            pipeline.format,
        ).is_some() && temp_path_of(pipeline.input_path).is_some() ==> advanced(
            pipeline,
            EventModel::Probed(output),
        ).0.stage != Stage::Failed,
        pipeline.stage == Stage::Idle && probed_facts(output) == crate::probe::unknown_facts()
            ==> advanced(pipeline, EventModel::Probed(output)) == advanced(
            pipeline,
            EventModel::Probed(None),
        ),
{
}

/// One more step keeps what `reported_so_far` says.
proof fn step_keeps_report(pipeline: PipelineModel, fix: bool, reported: Seq<u8>, event: EventModel)
    requires
        pipeline.well_formed(),
        reported_so_far(pipeline, fix, reported),
    ensures
        reported_so_far(
            advanced(pipeline, event).0,
            fix,
            reported_after(reported, advanced(pipeline, event).1),
        ),
        advanced(pipeline, event).0.output_path == pipeline.output_path,
{
    let (after, step) = advanced(pipeline, event);
    match pipeline.stage {
        Stage::FixingVfr => {
            assert(reported.push(PROGRESS_NORMALIZED) =~= seq![PROGRESS_NORMALIZED]);
        },
        Stage::Encoding => {
            if fix {
                assert(reported.push(PROGRESS_DONE) =~= seq![PROGRESS_NORMALIZED, PROGRESS_DONE]);
            } else {
                assert(reported.push(PROGRESS_DONE) =~= seq![PROGRESS_DONE]);
            }
        },
        Stage::CleaningUp => {
            assert(reported.push(PROGRESS_DONE) =~= seq![PROGRESS_NORMALIZED, PROGRESS_DONE]);
        },
        _ => {},
    }
}

/// What `reported_so_far` allows never falls and never leaves the range
/// from 0 to 100.
pub proof fn reports_rise(pipeline: PipelineModel, fix: bool, reported: Seq<u8>)
    requires
        reported_so_far(pipeline, fix, reported),
    ensures
        forall|i: int, j: int| 0 <= i <= j < reported.len() ==> reported[i] <= reported[j],
        forall|i: int| 0 <= i < reported.len() ==> reported[i] <= PROGRESS_DONE,
        reported.len() <= 2,
{
}

/// The progress of a job. Once the file is probed, whatever events follow:
/// a job that is done has reported 50 and then 100 where its file was
/// brought to a constant frame rate, which is where that was forced or the
/// probe found the declared rates degenerate, and 100 alone where it was
/// not; a job that is not done has reported nothing, or 50 alone. What is
/// reported never falls. The output of a job is named as soon as the file
/// is probed and keeps its name.
pub proof fn progress_of_a_job(
    input_path: Seq<char>,
    format: OutputFormat,
    crf: u8,
    force_fix: bool,
    output: Option<Seq<u8>>,
    rest: Seq<EventModel>,
)
    ensures
        ({
            let begun = started(input_path, format, crf, force_fix).0;
            let (ended, reported) = run(begun, seq![EventModel::Probed(output)] + rest);
            let fix = force_fix || probed_facts(output).needs_vfr_fix;
            &&& ended.well_formed()
            &&& reported_so_far(ended, fix, reported)
            &&& ended.output_path.is_some() ==> ended.output_path == output_path_of(
                input_path,
                format,
            )
            &&& forall|i: int, j: int|
                #![trigger reported[i], reported[j]]
                0 <= i <= j < reported.len() ==> reported[i] <= reported[j] && reported[j]
                    <= PROGRESS_DONE
        }),
    decreases rest.len(),
{
    let begun = started(input_path, format, crf, force_fix).0;
    let events = seq![EventModel::Probed(output)] + rest;
    let fix = force_fix || probed_facts(output).needs_vfr_fix;
    if rest.len() == 0 {
        assert(events.drop_last() =~= Seq::<EventModel>::empty());
        assert(events.last() == EventModel::Probed(output));
        assert(run(begun, events.drop_last()) == (begun, Seq::<u8>::empty()));
        assert(advanced(begun, events.last()) == decided(begun, output));
        assert(run(begun, events) == (
            decided(begun, output).0,
            reported_after(Seq::<u8>::empty(), decided(begun, output).1),
        ));
    } else {
        progress_of_a_job(input_path, format, crf, force_fix, output, rest.drop_last());
        assert(events.drop_last() =~= seq![EventModel::Probed(output)] + rest.drop_last());
        assert(events.last() == rest.last());
        let (before, reported) = run(begun, events.drop_last());
        stages_move_forward(before, events.last());
        step_keeps_report(before, fix, reported, events.last());
        assert(run(begun, events) == (
            advanced(before, events.last()).0,
            reported_after(reported, advanced(before, events.last()).1),
        ));
    }
    let (ended, reported) = run(begun, events);
    reports_rise(ended, fix, reported);
}

impl Step {
    fn wait() -> (step: Step)
        ensures
            step@ == (StepModel { progress: None, action: ActionModel::Wait }),
    {
        Step { progress: None, action: Action::Wait }
    }
}

impl Pipeline {
    /// The file that the encode pass reads.
    pub fn current_input(&self) -> (path: &String)
        ensures
            path@ == self@.current_input(),
    {
        match &self.temp_path {
            Some(path) => path,
            None => &self.input_path,
        }
    }

    fn fail(&mut self, kind: FailureKind, prefix: &str, why: &str) -> (step: Step)
        ensures
            (final(self)@, step@) == failing(old(self)@, kind, prefix@ + why@),
    {
        self.stage = Stage::Failed;
        let mut message = String::from_str(prefix);
        message.append(why);
        Step { progress: None, action: Action::Finish(Err(PipelineError { kind, message })) }
    }

    /// The file that the encode pass writes; the empty path as long as it
    /// is not named.
    pub fn written(&self) -> (path: String)
        ensures
            path@ == self@.written(),
    {
        match &self.output_path {
            Some(path) => path.clone(),
            None => String::new(),
        }
    }

    fn finish(&mut self) -> (step: Step)
        ensures
            (final(self)@, step@) == finishing(old(self)@),
    {
        self.stage = Stage::Done;
        Step { progress: Some(PROGRESS_DONE), action: Action::Finish(Ok(self.written())) }
    }

    fn enter_encoding(&mut self, progress: Option<u8>) -> (step: Step)
        ensures
            (final(self)@, step@) == entering_encoding(old(self)@, progress),
    {
        self.stage = Stage::Encoding;
        self.encoder_chosen = false;
        Step { progress, action: Action::ListEncoders(listing_command()) }
    }

    fn outcome_fails(&mut self, outcome: ToolOutcome, prefix: &str) -> (step: Option<Step>)
        ensures
            match step {
                Some(taken) => outcome_failure(outcome@, prefix@).is_some() && (
                    final(self)@,
                    taken@,
                ) == failing(
                    old(self)@,
                    outcome_failure(outcome@, prefix@).unwrap().0,
                    outcome_failure(outcome@, prefix@).unwrap().1,
                ),
                None => outcome_failure(outcome@, prefix@).is_none() && *final(self) == *old(
                    self,
                ),
            },
    {
        match outcome {
            ToolOutcome::Completed => None,
            ToolOutcome::NotLaunched(why) => Some(
                self.fail(FailureKind::Launch, prefix, why.as_str()),
            ),
            ToolOutcome::NoArtifact(why) => Some(
                self.fail(FailureKind::Execution, prefix, why.as_str()),
            ),
        }
    }
}

impl FFmpegUtils {
    /// Begins the pipeline of a job: the file is to be probed first.
    pub fn compress_video(
        &self,
        input_path: &str,
        output_format: OutputFormat,
        crf_value: u8,
        force_vfr_fix: bool,
    ) -> (begun: (Pipeline, Step))
        ensures
            (begun.0@, begun.1@) == started(input_path@, output_format, crf_value, force_vfr_fix),
            begun.0@.well_formed(),
    {
        let pipeline = Pipeline {
            stage: Stage::Idle,
            input_path: String::from_str(input_path),
            format: output_format,
            crf: crf_value,
            force_fix: force_vfr_fix,
            temp_path: None,
            output_path: None,
            encoder_chosen: false,
        };
        let step = Step { progress: None, action: Action::Probe(probe_command(input_path)) };
        (pipeline, step)
    }

    /// The normalization pass: the arguments with which the encoding tool
    /// brings `input_path` to a constant frame rate in `output_path`.
    pub fn fix_vfr(&self, input_path: &str, output_path: &str) -> (args: Vec<String>)
        ensures
            texts(args@) == normalize_arguments(input_path@, output_path@),
    {
        normalize_command(input_path, output_path)
    }

    /// The encode pass: the arguments with which the encoding tool writes
    /// `output_path` from `input_path`. Where the listing of encoders shows
    /// the hardware of a vendor, that vendor's encoder is asked for; a
    /// listing that could not be had shows none.
    pub fn compress_video_core(
        &self,
        input_path: &str,
        output_path: &str,
        output_format: OutputFormat,
        crf_value: u8,
        listing: Option<&str>,
    ) -> (args: Vec<String>)
        ensures
            texts(args@) == encode_arguments(
                input_path@,
                output_path@,
                output_format,
                crf_value,
                gpu_vendor(optional_text(listing)),
            ),
    {
        let vendor = detect(listing).vendor;
        encode_command(input_path, output_path, output_format, crf_value, vendor)
    }

    /// The decision after the probe.
    fn decide(&self, pipeline: &mut Pipeline, output: &Option<Vec<u8>>) -> (step: Step)
        ensures
            (final(pipeline)@, step@) == decided(old(pipeline)@, held_bytes(*output)),
    {
        let report = FFmpegUtils::read_probe_output(output);
        let fix = pipeline.force_fix || report.needs_vfr_fix;
        let written = match output_path(pipeline.input_path.as_str(), pipeline.format) {
            Some(path) => path,
            None => {
                return pipeline.fail(
                    FailureKind::Launch,
                    "Ошибка при сжатии видео: ",
                    "у входного файла нет имени",
                );
            },
        };
        pipeline.output_path = Some(written);
        if fix {
            let temp = match temp_path(pipeline.input_path.as_str()) {
                Some(path) => path,
                None => {
                    return pipeline.fail(
                        FailureKind::Launch,
                        "Ошибка при исправлении VFR: ",
                        "у входного файла нет расширения",
                    );
                },
            };
            let args = self.fix_vfr(pipeline.input_path.as_str(), temp.as_str());
            pipeline.stage = Stage::FixingVfr;
            pipeline.temp_path = Some(temp);
            Step { progress: None, action: Action::Normalize(args) }
        } else {
            pipeline.enter_encoding(None)
        }
    }

    /// Takes the pipeline one step on: `event` is what the program hands
    /// back after it did what the last step asked for.
    pub fn advance(&self, pipeline: &mut Pipeline, event: Event) -> (step: Step)
        ensures
            (final(pipeline)@, step@) == advanced(old(pipeline)@, event@),
            old(pipeline)@.well_formed() ==> final(pipeline)@.well_formed(),
    {
        proof {
            if pipeline@.well_formed() {
                stages_move_forward(pipeline@, event@);
            }
        }
        match pipeline.stage {
            Stage::Idle => match event {
                Event::Probed(output) => self.decide(pipeline, &output),
                _ => Step::wait(),
            },
            Stage::FixingVfr => match event {
                Event::Normalized(outcome) => {
                    match pipeline.outcome_fails(outcome, "Ошибка при исправлении VFR: ") {
                        Some(step) => step,
                        None => pipeline.enter_encoding(Some(PROGRESS_NORMALIZED)),
                    }
                },
                _ => Step::wait(),
            },
            Stage::Encoding => match event {
                Event::EncodersListed(listing) => {
                    if pipeline.encoder_chosen {
                        Step::wait()
                    } else {
                        let written = pipeline.written();
                        let shown = match &listing {
                            Some(text) => Some(text.as_str()),
                            None => None,
                        };
                        let args = self.compress_video_core(
                            pipeline.current_input().as_str(),
                            written.as_str(),
                            pipeline.format,
                            pipeline.crf,
                            shown,
                        );
                        pipeline.encoder_chosen = true;
                        Step { progress: None, action: Action::Encode(args) }
                    }
                },
                Event::Encoded(outcome) => {
                    if !pipeline.encoder_chosen {
                        Step::wait()
                    } else {
                        match pipeline.outcome_fails(outcome, "Ошибка при сжатии видео: ") {
                            Some(step) => step,
                            None => {
                                let temp = match &pipeline.temp_path {
                                    Some(path) => Some(path.clone()),
                                    None => None,
                                };
                                match temp {
                                    Some(path) => {
                                        pipeline.stage = Stage::CleaningUp;
                                        Step { progress: None, action: Action::RemoveTemp(path) }
                                    },
                                    None => pipeline.finish(),
                                }
                            },
                        }
                    }
                },
                _ => Step::wait(),
            },
            Stage::CleaningUp => match event {
                Event::TempRemoved(removed) => match removed {
                    Ok(_) => pipeline.finish(),
                    Err(why) => pipeline.fail(
                        FailureKind::Cleanup,
                        "Ошибка удаления временного файла: ",
                        why.as_str(),
                    ),
                },
                _ => Step::wait(),
            },
            _ => Step::wait(),
        }
    }
}

} // verus!
