use video_compressor::config::OutputFormat;
use video_compressor::ffmpeg_bin::ToolSurvey;
use video_compressor::ffmpeg_utils::FFmpegUtils;
use video_compressor::pipeline::{
    Action, Event, FailureKind, Pipeline, PipelineError, Stage, Step, ToolOutcome,
    PROGRESS_DONE, PROGRESS_NORMALIZED,
};
use video_compressor::queue::{Command, Message, VideoCompressor};

fn pipeline_engine() -> FFmpegUtils {
    let survey = ToolSurvey {
        ffmpeg_path: "/opt/ffmpeg".to_string(),
        ffprobe_path: "/opt/ffprobe".to_string(),
        ffmpeg_exists: true,
        ffprobe_exists: true,
    };
    FFmpegUtils::new(&survey).unwrap()
}

fn probe_output(nominal: &str, average: &str) -> Option<Vec<u8>> {
    let report = format!(
        "{{\"streams\": [{{\"codec_type\": \"video\", \"width\": 1920, \"height\": 1080, \
         \"r_frame_rate\": \"{nominal}\", \"avg_frame_rate\": \"{average}\"}}], \
         \"format\": {{\"duration\": \"60.0\", \"size\": \"1000\", \"bit_rate\": \"8000\"}}}}"
    );
    Some(report.into_bytes())
}

fn strings(args: &[&str]) -> Vec<String> {
    args.iter().map(|arg| arg.to_string()).collect()
}

/// Runs a pipeline to its end with tools that all succeed and list no
/// hardware; returns the stages it rested in, the progress it reported and
/// its last action.
fn run_to_the_end(
    input: &str,
    format: OutputFormat,
    force: bool,
    output: Option<Vec<u8>>,
) -> (Vec<Stage>, Vec<u8>, Action) {
    let engine = pipeline_engine();
    let (mut pipeline, mut step) = engine.compress_video(input, format, 23, force);
    let mut stages = vec![pipeline.stage];
    let mut progress = Vec::new();
    let mut probe = Some(output);
    loop {
        let event = match &step.action {
            Action::Probe(_) => Event::Probed(probe.take().unwrap()),
            Action::Normalize(_) => Event::Normalized(ToolOutcome::Completed),
            Action::ListEncoders(_) => Event::EncodersListed(Some("libx264".to_string())),
            Action::Encode(_) => Event::Encoded(ToolOutcome::Completed),
            Action::RemoveTemp(_) => Event::TempRemoved(Ok(())),
            Action::Finish(_) | Action::Wait => break,
        };
        step = engine.advance(&mut pipeline, event);
        stages.push(pipeline.stage);
        if let Some(value) = step.progress {
            progress.push(value);
        }
    }
    (stages, progress, step.action)
}

#[test]
fn a_new_pipeline_asks_for_the_probe() {
    let (pipeline, step) =
        pipeline_engine().compress_video("/videos/input.mp4", OutputFormat::MP4, 23, false);
    assert_eq!(
        pipeline,
        Pipeline {
            stage: Stage::Idle,
            input_path: "/videos/input.mp4".to_string(),
            format: OutputFormat::MP4,
            crf: 23,
            force_fix: false,
            temp_path: None,
            output_path: None,
            encoder_chosen: false,
        }
    );
    assert_eq!(
        step,
        Step {
            progress: None,
            action: Action::Probe(strings(&[
                "-v", "quiet", "-print_format", "json", "-show_format", "-show_streams",
                "/videos/input.mp4",
            ])),
        }
    );
}

#[test]
fn a_sound_mp4_job_skips_the_normalization() {
    let (stages, progress, last) = run_to_the_end(
        "/videos/input.mov",
        OutputFormat::MP4,
        false,
        probe_output("24/1", "24/1"),
    );
    assert_eq!(
        stages,
        vec![Stage::Idle, Stage::Encoding, Stage::Encoding, Stage::Done]
    );
    assert!(!stages.contains(&Stage::FixingVfr));
    assert_eq!(progress, vec![100]);
    assert_eq!(last, Action::Finish(Ok("/videos/input_compressed.mp4".to_string())));
}

#[test]
fn a_job_with_degenerate_rates_is_normalized_first() {
    let (stages, progress, last) = run_to_the_end(
        "/videos/input.mov",
        OutputFormat::WebM,
        false,
        probe_output("1000/1", "30/1"),
    );
    assert_eq!(
        stages,
        vec![
            Stage::Idle,
            Stage::FixingVfr,
            Stage::Encoding,
            Stage::Encoding,
            Stage::CleaningUp,
            Stage::Done,
        ]
    );
    assert_eq!(progress, vec![50, 100]);
    assert_eq!(progress, vec![PROGRESS_NORMALIZED, PROGRESS_DONE]);
    assert_eq!(last, Action::Finish(Ok("/videos/input_compressed.webm".to_string())));
}

#[test]
fn a_forced_fix_normalizes_a_sound_file() {
    let (stages, progress, _) = run_to_the_end(
        "/videos/input.mov",
        OutputFormat::MKV,
        true,
        probe_output("24/1", "24/1"),
    );
    assert!(stages.contains(&Stage::FixingVfr));
    assert_eq!(progress, vec![50, 100]);
}

#[test]
fn a_probe_that_could_not_run_does_not_stop_the_job() {
    let (stages, progress, last) =
        run_to_the_end("/videos/input.mov", OutputFormat::MP4, false, None);
    assert_eq!(
        stages,
        vec![Stage::Idle, Stage::Encoding, Stage::Encoding, Stage::Done]
    );
    assert_eq!(progress, vec![100]);
    assert_eq!(last, Action::Finish(Ok("/videos/input_compressed.mp4".to_string())));
}

#[test]
fn the_normalization_pass_writes_beside_the_input() {
    let engine = pipeline_engine();
    let (mut pipeline, _) = engine.compress_video("/videos/input.mov", OutputFormat::MP4, 30, true);
    let step = engine.advance(&mut pipeline, Event::Probed(None));
    assert_eq!(pipeline.stage, Stage::FixingVfr);
    assert_eq!(pipeline.temp_path, Some("/videos/input_temp_fixed_cfr.mov".to_string()));
    assert_eq!(pipeline.output_path, Some("/videos/input_compressed.mp4".to_string()));
    assert_eq!(
        step,
        Step {
            progress: None,
            action: Action::Normalize(strings(&[
                "-y", "-i", "/videos/input.mov", "-vf", "fps=25", "-c:v", "libx264", "-crf",
                "18", "-preset", "medium", "-c:a", "copy", "/videos/input_temp_fixed_cfr.mov",
            ])),
        }
    );
}

#[test]
fn the_encode_pass_reads_the_normalized_file() {
    let engine = pipeline_engine();
    let (mut pipeline, _) = engine.compress_video("/videos/input.mov", OutputFormat::MP4, 30, true);
    engine.advance(&mut pipeline, Event::Probed(None));
    let step = engine.advance(&mut pipeline, Event::Normalized(ToolOutcome::Completed));
    assert_eq!(
        step,
        Step { progress: Some(50), action: Action::ListEncoders(strings(&["-encoders"])) }
    );
    assert_eq!(pipeline.current_input(), "/videos/input_temp_fixed_cfr.mov");
    let step = engine.advance(&mut pipeline, Event::EncodersListed(None));
    assert_eq!(
        step,
        Step {
            progress: None,
            action: Action::Encode(strings(&[
                "-y", "-i", "/videos/input_temp_fixed_cfr.mov", "-c:v", "libx264", "-crf", "30",
                "-preset", "medium", "-pix_fmt", "yuv420p", "-vf",
                "pad=ceil(iw/2)*2:ceil(ih/2)*2", "-movflags", "+faststart", "-c:a", "aac",
                "-b:a", "128k", "/videos/input_compressed.mp4",
            ])),
        }
    );
    let step = engine.advance(&mut pipeline, Event::Encoded(ToolOutcome::Completed));
    assert_eq!(
        step,
        Step {
            progress: None,
            action: Action::RemoveTemp("/videos/input_temp_fixed_cfr.mov".to_string()),
        }
    );
    assert_eq!(pipeline.stage, Stage::CleaningUp);
}

#[test]
fn listed_hardware_selects_the_hardware_encoder() {
    let engine = pipeline_engine();
    let (mut pipeline, _) =
        engine.compress_video("/videos/input.mov", OutputFormat::MP4, 21, false);
    engine.advance(&mut pipeline, Event::Probed(None));
    assert_eq!(pipeline.current_input(), "/videos/input.mov");
    let step = engine.advance(
        &mut pipeline,
        Event::EncodersListed(Some(" V....D h264_amf  AMD AMF H.264 Encoder".to_string())),
    );
    assert_eq!(
        step.action,
        Action::Encode(strings(&[
            "-y", "-i", "/videos/input.mov", "-c:v", "h264_amf", "-crf", "21", "-preset",
            "medium", "-tune", "ll", "-movflags", "+faststart", "-c:a", "aac", "-b:a", "128k",
            "/videos/input_compressed.mp4",
        ]))
    );
}

#[test]
fn compress_video_core_decides_on_the_listing() {
    let engine = pipeline_engine();
    let software =
        engine.compress_video_core("a.mov", "a_compressed.webm", OutputFormat::WebM, 28, None);
    assert_eq!(software[4], "libvpx-vp9");
    let hardware = engine.compress_video_core(
        "a.mov",
        "a_compressed.webm",
        OutputFormat::WebM,
        28,
        Some("vp9_qsv"),
    );
    assert_eq!(hardware[4], "vp9_qsv");
    let both = engine.compress_video_core(
        "a.mov",
        "a_compressed.mp4",
        OutputFormat::MP4,
        23,
        Some("h264_qsv h264_amf h264_nvenc"),
    );
    assert_eq!(both[4], "h264_nvenc");
    assert_eq!(
        engine.fix_vfr("a.mov", "a_temp_fixed_cfr.mov"),
        strings(&[
            "-y", "-i", "a.mov", "-vf", "fps=25", "-c:v", "libx264", "-crf", "18", "-preset",
            "medium", "-c:a", "copy", "a_temp_fixed_cfr.mov",
        ])
    );
}

#[test]
fn a_failed_encode_after_normalization_is_an_execution_failure_and_the_queue_goes_on() {
    let engine = pipeline_engine();
    let mut queue = VideoCompressor::new();
    let first = match queue.update(Message::FileDropped("/videos/a.mov".to_string())) {
        Command::Compress(job) => job,
        other => panic!("no job was started: {other:?}"),
    };
    assert_eq!(queue.update(Message::FileDropped("/videos/b.mov".to_string())), Command::Nothing);

    let (mut pipeline, _) =
        engine.compress_video(&first.input_path, first.format, first.crf, true);
    engine.advance(&mut pipeline, Event::Probed(probe_output("24/1", "24/1")));
    let step = engine.advance(&mut pipeline, Event::Normalized(ToolOutcome::Completed));
    assert_eq!(step.progress, Some(50));
    engine.advance(&mut pipeline, Event::EncodersListed(None));
    let step = engine.advance(
        &mut pipeline,
        Event::Encoded(ToolOutcome::NoArtifact("exit status 1".to_string())),
    );
    assert_eq!(pipeline.stage, Stage::Failed);
    assert_eq!(step.progress, None);
    let failure = PipelineError {
        kind: FailureKind::Execution,
        message: "Ошибка при сжатии видео: exit status 1".to_string(),
    };
    assert_eq!(step.action, Action::Finish(Err(failure.clone())));

    let next = queue.update(Message::CompressionComplete(Err(failure.clone())));
    match next {
        Command::Compress(job) => assert_eq!(job.input_path, "/videos/b.mov"),
        other => panic!("the queue did not go on: {other:?}"),
    }
    assert_eq!(queue.last_result, Some(Err(failure)));
    assert_eq!(queue.input_file.as_ref().map(|job| job.input_path.as_str()), Some("/videos/b.mov"));
}

#[test]
fn a_normalization_that_could_not_be_launched_is_a_launch_failure() {
    let engine = pipeline_engine();
    let (mut pipeline, _) = engine.compress_video("/videos/a.mov", OutputFormat::MP4, 23, true);
    engine.advance(&mut pipeline, Event::Probed(None));
    let step = engine.advance(
        &mut pipeline,
        Event::Normalized(ToolOutcome::NotLaunched("No such file or directory".to_string())),
    );
    assert_eq!(pipeline.stage, Stage::Failed);
    assert_eq!(
        step,
        Step {
            progress: None,
            action: Action::Finish(Err(PipelineError {
                kind: FailureKind::Launch,
                message: "Ошибка при исправлении VFR: No such file or directory".to_string(),
            })),
        }
    );
}

#[test]
fn a_normalization_that_left_no_file_is_an_execution_failure() {
    let engine = pipeline_engine();
    let (mut pipeline, _) = engine.compress_video("/videos/a.mov", OutputFormat::MP4, 23, true);
    engine.advance(&mut pipeline, Event::Probed(None));
    let step = engine.advance(
        &mut pipeline,
        Event::Normalized(ToolOutcome::NoArtifact("exit status 1".to_string())),
    );
    assert_eq!(
        step.action,
        Action::Finish(Err(PipelineError {
            kind: FailureKind::Execution,
            message: "Ошибка при исправлении VFR: exit status 1".to_string(),
        }))
    );
}

#[test]
fn an_encode_that_could_not_be_launched_is_a_launch_failure() {
    let engine = pipeline_engine();
    let (mut pipeline, _) = engine.compress_video("/videos/a.mov", OutputFormat::MP4, 23, false);
    engine.advance(&mut pipeline, Event::Probed(None));
    engine.advance(&mut pipeline, Event::EncodersListed(None));
    let step = engine.advance(
        &mut pipeline,
        Event::Encoded(ToolOutcome::NotLaunched("permission denied".to_string())),
    );
    assert_eq!(pipeline.stage, Stage::Failed);
    assert_eq!(
        step.action,
        Action::Finish(Err(PipelineError {
            kind: FailureKind::Launch,
            message: "Ошибка при сжатии видео: permission denied".to_string(),
        }))
    );
}

#[test]
fn a_temp_file_that_cannot_be_removed_fails_the_job_without_the_last_progress() {
    let engine = pipeline_engine();
    let (mut pipeline, _) = engine.compress_video("/videos/a.mov", OutputFormat::MP4, 23, true);
    let mut progress = Vec::new();
    let events = vec![
        Event::Probed(None),
        Event::Normalized(ToolOutcome::Completed),
        Event::EncodersListed(None),
        Event::Encoded(ToolOutcome::Completed),
        Event::TempRemoved(Err("file is in use".to_string())),
    ];
    let mut last = None;
    for event in events {
        let step = engine.advance(&mut pipeline, event);
        progress.extend(step.progress);
        last = Some(step.action);
    }
    assert_eq!(pipeline.stage, Stage::Failed);
    assert_eq!(progress, vec![50]);
    assert_eq!(
        last,
        Some(Action::Finish(Err(PipelineError {
            kind: FailureKind::Cleanup,
            message: "Ошибка удаления временного файла: file is in use".to_string(),
        })))
    );
}

#[test]
fn an_input_without_extension_cannot_be_normalized() {
    let engine = pipeline_engine();
    let (mut pipeline, _) = engine.compress_video("/videos/input", OutputFormat::MP4, 23, true);
    let step = engine.advance(&mut pipeline, Event::Probed(None));
    assert_eq!(pipeline.stage, Stage::Failed);
    assert_eq!(
        step.action,
        Action::Finish(Err(PipelineError {
            kind: FailureKind::Launch,
            message: "Ошибка при исправлении VFR: у входного файла нет расширения".to_string(),
        }))
    );
}

#[test]
fn an_input_without_extension_is_encoded_where_no_fix_is_needed() {
    let (stages, progress, last) =
        run_to_the_end("/videos/input", OutputFormat::MKV, false, probe_output("25/1", "25/1"));
    assert_eq!(stages.last(), Some(&Stage::Done));
    assert_eq!(progress, vec![100]);
    assert_eq!(last, Action::Finish(Ok("/videos/input_compressed.mkv".to_string())));
}

#[test]
fn an_input_without_file_name_fails_at_once() {
    let engine = pipeline_engine();
    let (mut pipeline, _) = engine.compress_video("/videos/..", OutputFormat::MP4, 23, false);
    let step = engine.advance(&mut pipeline, Event::Probed(None));
    assert_eq!(pipeline.stage, Stage::Failed);
    assert_eq!(
        step.action,
        Action::Finish(Err(PipelineError {
            kind: FailureKind::Launch,
            message: "Ошибка при сжатии видео: у входного файла нет имени".to_string(),
        }))
    );
}

#[test]
fn an_event_that_answers_nothing_is_ignored() {
    let engine = pipeline_engine();
    let (mut pipeline, _) = engine.compress_video("/videos/a.mov", OutputFormat::MP4, 23, false);
    let before = pipeline.clone();
    let wait = Step { progress: None, action: Action::Wait };
    assert_eq!(engine.advance(&mut pipeline, Event::Encoded(ToolOutcome::Completed)), wait);
    assert_eq!(engine.advance(&mut pipeline, Event::TempRemoved(Ok(()))), wait);
    assert_eq!(engine.advance(&mut pipeline, Event::EncodersListed(None)), wait);
    assert_eq!(pipeline, before);

    engine.advance(&mut pipeline, Event::Probed(None));
    let before = pipeline.clone();
    assert_eq!(engine.advance(&mut pipeline, Event::Encoded(ToolOutcome::Completed)), wait);
    assert_eq!(engine.advance(&mut pipeline, Event::Probed(None)), wait);
    assert_eq!(pipeline, before);

    engine.advance(&mut pipeline, Event::EncodersListed(None));
    let before = pipeline.clone();
    assert_eq!(engine.advance(&mut pipeline, Event::EncodersListed(None)), wait);
    assert_eq!(pipeline, before);
}

#[test]
fn nothing_moves_a_job_that_is_over() {
    let engine = pipeline_engine();
    let (mut done, _) = engine.compress_video("/videos/a.mov", OutputFormat::MP4, 23, false);
    engine.advance(&mut done, Event::Probed(None));
    engine.advance(&mut done, Event::EncodersListed(None));
    engine.advance(&mut done, Event::Encoded(ToolOutcome::Completed));
    assert_eq!(done.stage, Stage::Done);
    let (mut failed, _) = engine.compress_video("/videos/a.mov", OutputFormat::MP4, 23, true);
    engine.advance(&mut failed, Event::Probed(None));
    engine.advance(&mut failed, Event::Normalized(ToolOutcome::NotLaunched(String::new())));
    assert_eq!(failed.stage, Stage::Failed);
    let wait = Step { progress: None, action: Action::Wait };
    for pipeline in [&mut done, &mut failed] {
        let before = pipeline.clone();
        assert_eq!(engine.advance(pipeline, Event::Probed(None)), wait);
        assert_eq!(engine.advance(pipeline, Event::Normalized(ToolOutcome::Completed)), wait);
        assert_eq!(engine.advance(pipeline, Event::EncodersListed(None)), wait);
        assert_eq!(engine.advance(pipeline, Event::Encoded(ToolOutcome::Completed)), wait);
        assert_eq!(engine.advance(pipeline, Event::TempRemoved(Ok(()))), wait);
        assert_eq!(*pipeline, before);
    }
}

#[test]
fn progress_never_falls_and_stays_within_bounds() {
    for force in [false, true] {
        for output in [None, probe_output("0/0", "0/0"), probe_output("25/1", "25/1")] {
            let (_, progress, _) =
                run_to_the_end("/videos/a.mov", OutputFormat::MP4, force, output);
            assert!(progress.windows(2).all(|pair| pair[0] <= pair[1]));
            assert!(progress.iter().all(|value| *value <= 100));
            assert_eq!(progress.last(), Some(&100));
        }
    }
}

#[test]
fn a_run_is_judged_by_its_launch_and_its_artifact() {
    assert_eq!(
        ToolOutcome::judge(None, true, "exit status: 0".to_string()),
        ToolOutcome::Completed
    );
    assert_eq!(
        ToolOutcome::judge(None, false, "exit status: 1".to_string()),
        ToolOutcome::NoArtifact("exit status: 1".to_string())
    );
    assert_eq!(
        ToolOutcome::judge(Some("not found".to_string()), false, String::new()),
        ToolOutcome::NotLaunched("not found".to_string())
    );
    assert_eq!(
        ToolOutcome::judge(Some("not found".to_string()), true, "stale".to_string()),
        ToolOutcome::NotLaunched("not found".to_string())
    );
}

#[test]
fn a_stream_with_a_degenerate_average_rate_alone_is_normalized() {
    let output = "{\"streams\":[{\"codec_type\":\"video\",\"avg_frame_rate\":\"0/0\"}]}";
    let (stages, progress, last) = run_to_the_end(
        "/videos/input.mov",
        OutputFormat::MP4,
        false,
        Some(output.as_bytes().to_vec()),
    );
    assert!(stages.contains(&Stage::FixingVfr));
    assert_eq!(progress, vec![50, 100]);
    assert_eq!(last, Action::Finish(Ok("/videos/input_compressed.mp4".to_string())));
}
