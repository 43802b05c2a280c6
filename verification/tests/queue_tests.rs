use video_compressor::config::OutputFormat;
use video_compressor::modals::{Kind, ModalMessage, State};
use video_compressor::pipeline::{FailureKind, PipelineError};
use video_compressor::probe::{ProbeReport, VideoInfo};
use video_compressor::queue::{Command, Job, Message, Status, VideoCompressor};

fn job(path: &str) -> Job {
    Job { input_path: path.to_string(), format: OutputFormat::MP4, crf: 23, force_fix: false }
}

fn dropped(path: &str) -> Message {
    Message::FileDropped(path.to_string())
}

fn done(path: &str) -> Message {
    Message::CompressionComplete(Ok(path.to_string()))
}

fn info(path: &str) -> VideoInfo {
    VideoInfo {
        path: path.to_string(),
        report: ProbeReport::unknown(),
        gpu_info: "GPU не обнаружены".to_string(),
        processing_mode: "CPU".to_string(),
    }
}

#[test]
fn a_new_queue_is_idle_with_the_default_settings() {
    let queue = VideoCompressor::new();
    assert_eq!(queue.input_file, None);
    assert!(queue.file_queue.is_empty());
    assert!(!queue.is_processing());
    assert_eq!(queue.output_format, OutputFormat::MP4);
    assert_eq!(queue.crf_value, 23);
    assert!(!queue.force_vfr_fix);
    assert_eq!(queue.progress, 0);
    assert_eq!(queue.status, Status::Ready);
    assert_eq!(queue.last_result, None);
    assert_eq!(queue.video_info, None);
    assert_eq!(queue.modal_state, None);
}

#[test]
fn three_files_are_processed_in_the_order_in_which_they_came() {
    let mut queue = VideoCompressor::new();
    let mut started = Vec::new();
    for path in ["A", "B", "C"] {
        if let Command::Compress(job) = queue.update(dropped(path)) {
            started.push(job.input_path);
        }
        assert!(queue.is_processing());
    }
    assert_eq!(started, vec!["A"]);
    assert_eq!(queue.input_file, Some(job("A")));
    assert_eq!(queue.file_queue, vec![job("B"), job("C")]);
    assert_eq!(queue.status, Status::Queued(2));

    for finished in ["A", "B", "C"] {
        assert_eq!(queue.input_file.as_ref().map(|job| job.input_path.as_str()), Some(finished));
        if let Command::Compress(job) = queue.update(done(finished)) {
            started.push(job.input_path);
        }
    }
    assert_eq!(started, vec!["A", "B", "C"]);
    assert_eq!(queue.input_file, None);
    assert!(queue.file_queue.is_empty());
    assert!(!queue.is_processing());
    assert_eq!(queue.status, Status::Ready);
    assert_eq!(queue.last_result, Some(Ok("C".to_string())));
}

#[test]
fn enqueue_starts_the_head_only_while_idle() {
    let mut queue = VideoCompressor::new();
    assert_eq!(queue.enqueue(job("A")), Command::Compress(job("A")));
    assert_eq!(queue.status, Status::Queued(0));
    assert_eq!(queue.enqueue(job("B")), Command::Nothing);
    assert_eq!(queue.status, Status::Queued(1));
    assert_eq!(queue.input_file, Some(job("A")));
    assert_eq!(queue.file_queue, vec![job("B")]);
}

#[test]
fn the_queue_goes_on_after_a_failure() {
    let mut queue = VideoCompressor::new();
    queue.enqueue(job("A"));
    queue.enqueue(job("B"));
    let failure =
        PipelineError { kind: FailureKind::Launch, message: "no tool".to_string() };
    assert_eq!(queue.on_job_terminal(Err(failure.clone())), Command::Compress(job("B")));
    assert_eq!(queue.last_result, Some(Err(failure)));
    assert_eq!(queue.status, Status::Processing("B".to_string()));
    assert_eq!(queue.progress, 0);
    assert_eq!(queue.on_job_terminal(Ok("B_compressed.mp4".to_string())), Command::Nothing);
    assert_eq!(queue.status, Status::Ready);
    assert_eq!(queue.input_file, None);
}

#[test]
fn process_next_file_takes_the_head() {
    let mut queue = VideoCompressor::new();
    assert_eq!(queue.process_next_file(), Command::Nothing);
    assert_eq!(queue.status, Status::Ready);
    queue.file_queue = vec![job("A"), job("B")];
    queue.progress = 70;
    assert_eq!(queue.process_next_file(), Command::Compress(job("A")));
    assert_eq!(queue.input_file, Some(job("A")));
    assert_eq!(queue.file_queue, vec![job("B")]);
    assert_eq!(queue.progress, 0);
    assert_eq!(queue.status, Status::Processing("A".to_string()));
}

#[test]
fn a_job_carries_the_settings_of_the_moment_it_was_accepted() {
    let mut queue = VideoCompressor::new();
    queue.update(dropped("A"));
    queue.update(Message::FormatSelected(OutputFormat::WebM));
    assert_eq!(queue.crf_value, 28);
    queue.update(Message::CrfChanged(40));
    queue.update(Message::ForceVfrFixToggled(true));
    queue.update(Message::FileSelected(Some("B".to_string())));
    queue.update(Message::FormatSelected(OutputFormat::MKV));
    assert_eq!(queue.crf_value, 23);
    assert_eq!(
        queue.update(done("A")),
        Command::Compress(Job {
            input_path: "B".to_string(),
            format: OutputFormat::WebM,
            crf: 40,
            force_fix: true,
        })
    );
}

#[test]
fn selecting_a_profile_sets_its_default_quality() {
    let mut queue = VideoCompressor::new();
    for (format, crf) in
        [(OutputFormat::WebM, 28), (OutputFormat::MKV, 23), (OutputFormat::MP4, 23)]
    {
        queue.update(Message::CrfChanged(51));
        assert_eq!(queue.update(Message::FormatSelected(format)), Command::Nothing);
        assert_eq!(queue.output_format, format);
        assert_eq!(queue.crf_value, crf);
    }
}

#[test]
fn a_selection_that_was_given_up_changes_nothing() {
    let mut queue = VideoCompressor::new();
    assert_eq!(queue.update(Message::FileSelected(None)), Command::Nothing);
    assert_eq!(queue, VideoCompressor::new());
    assert_eq!(queue.update(Message::Nothing), Command::Nothing);
    assert_eq!(queue, VideoCompressor::new());
}

#[test]
fn compress_without_a_file_asks_for_one() {
    let mut queue = VideoCompressor::new();
    assert_eq!(queue.update(Message::Compress), Command::Nothing);
    assert_eq!(queue.status, Status::SelectFileFirst);
}

#[test]
fn compress_while_a_job_runs_starts_no_second_one() {
    let mut queue = VideoCompressor::new();
    queue.update(dropped("A"));
    queue.update(dropped("B"));
    assert_eq!(queue.update(Message::Compress), Command::Nothing);
    assert_eq!(queue.input_file, Some(job("A")));
    assert_eq!(queue.file_queue, vec![job("B")]);
}

#[test]
fn show_info_asks_for_the_active_file() {
    let mut queue = VideoCompressor::new();
    assert_eq!(queue.update(Message::ShowInfo), Command::Nothing);
    assert_eq!(queue.status, Status::SelectFileFirst);
    queue.update(dropped("/videos/a.mov"));
    assert_eq!(queue.update(Message::ShowInfo), Command::ShowInfo("/videos/a.mov".to_string()));
}

#[test]
fn progress_of_the_active_job_is_kept() {
    let mut queue = VideoCompressor::new();
    queue.update(dropped("A"));
    assert_eq!(queue.update(Message::CompressionProgress(50)), Command::Nothing);
    assert_eq!(queue.progress, 50);
    queue.update(Message::CompressionProgress(100));
    assert_eq!(queue.progress, 100);
}

#[test]
fn a_record_opens_the_dialog_and_close_shuts_it() {
    let mut queue = VideoCompressor::new();
    assert_eq!(queue.update(Message::InfoReady(info("A"))), Command::Nothing);
    assert_eq!(queue.video_info, Some(info("A")));
    assert_eq!(queue.modal_state, Some(State::new(Kind::Info(Some(info("A"))))));
    assert_eq!(queue.update(Message::ModalMessage(ModalMessage::Close)), Command::Nothing);
    assert_eq!(queue.modal_state, None);
    assert_eq!(queue.video_info, Some(info("A")));
    assert_eq!(queue.update(Message::ModalMessage(ModalMessage::Close)), Command::Nothing);
    assert_eq!(queue.modal_state, None);
}

#[test]
fn a_job_that_ends_while_none_runs_starts_nothing() {
    let mut queue = VideoCompressor::new();
    assert_eq!(queue.update(done("A")), Command::Nothing);
    assert_eq!(queue.input_file, None);
    assert_eq!(queue.last_result, Some(Ok("A".to_string())));
    assert_eq!(queue.status, Status::Ready);
}

#[test]
fn one_job_at_most_is_active_whatever_happens() {
    let mut queue = VideoCompressor::new();
    let mut accepted = Vec::new();
    let mut started = Vec::new();
    let mut ended = 0;
    let script = "dddcdcxccdsdcc";
    for (i, what) in script.chars().enumerate() {
        let message = match what {
            'd' => {
                accepted.push(format!("file{i}"));
                dropped(&format!("file{i}"))
            }
            'c' => {
                if queue.is_processing() {
                    ended += 1;
                }
                done("out")
            }
            'x' => Message::Compress,
            _ => Message::FormatSelected(OutputFormat::WebM),
        };
        if let Command::Compress(job) = queue.update(message) {
            started.push(job.input_path);
        }
        assert!(started.len() == ended || started.len() == ended + 1);
        assert_eq!(queue.is_processing(), started.len() == ended + 1);
        assert!(queue.is_processing() || queue.file_queue.is_empty());
        let mut all = started.clone();
        all.extend(queue.file_queue.iter().map(|job| job.input_path.clone()));
        assert_eq!(all, accepted);
    }
}
