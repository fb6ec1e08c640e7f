use auto_video::errors::{TaskFailure, VideoError};
use auto_video::pipeline::{Action, Event, Pipeline, PipelineConfig, SynthesisStart};
use auto_video::poll::{PollOutcome, PollPolicy, TaskStatus};
use auto_video::scene::SceneRecord;

fn record(description: &str, subtitle: &str, duration_ms: u64) -> SceneRecord {
    SceneRecord {
        description: description.to_owned(),
        subtitle: subtitle.to_owned(),
        duration_ms,
    }
}

fn succeeded(url: &str) -> PollOutcome {
    PollOutcome::Observed { status: TaskStatus::Succeeded, locator: Some(url.to_owned()) }
}

fn running() -> PollOutcome {
    PollOutcome::Observed { status: TaskStatus::Running, locator: None }
}

fn failed() -> PollOutcome {
    PollOutcome::Observed { status: TaskStatus::Failed, locator: None }
}

fn config(work_dir: &str, skip_images: bool, cap: usize) -> PipelineConfig {
    PipelineConfig {
        source_text: "Scene one. Scene two.".to_owned(),
        work_dir: work_dir.to_owned(),
        output_path: "final.mp4".to_owned(),
        skip_images,
        narration_cap: cap,
        poll: PollPolicy { interval_ms: 5000, max_attempts: 60 },
    }
}

/// A recorded outside world: what decomposition answers, which files
/// exist, and what each submitted remote job's polls report, in
/// submission order.
struct World {
    decomposition: Result<Vec<SceneRecord>, String>,
    files: Vec<String>,
    job_polls: Vec<Vec<PollOutcome>>,
    synth_async: bool,
    render_ok: bool,
}

#[derive(Default)]
struct Report {
    probes: Vec<String>,
    submits: Vec<String>,
    sleeps: usize,
    polls: usize,
    fetches: Vec<String>,
    synth_calls: Vec<(String, String)>,
    audio_concats: Vec<(Vec<String>, String)>,
    audio_existed_at_concat: bool,
    renders: Vec<(String, String, u64, String)>,
    video_concats: Vec<(Vec<String>, String)>,
    muxes: Vec<(String, String, String)>,
    deletes: Vec<String>,
    outcome: Option<Result<(), VideoError>>,
}

fn run(config: PipelineConfig, world: &mut World) -> Report {
    let audio = format!("{}/audio.mp3", config.work_dir);
    let (mut machine, mut act) = Pipeline::new(config);
    let mut report = Report::default();
    let mut cur_polls: Vec<PollOutcome> = Vec::new();
    let mut poll_idx = 0usize;
    let mut next_job = 0usize;
    for _ in 0..10_000 {
        let event = match act {
            Action::Decompose { .. } => Event::Decomposed { response: world.decomposition.clone() },
            Action::Probe { path } => {
                let exists = world.files.contains(&path);
                report.probes.push(path);
                Event::Probed { exists }
            },
            Action::SubmitImageJob { prompt } => {
                report.submits.push(prompt);
                cur_polls = world.job_polls.get(next_job).cloned().unwrap_or_default();
                poll_idx = 0;
                next_job += 1;
                Event::Submitted { result: Ok(format!("task-{}", next_job)) }
            },
            Action::Sleep { .. } => {
                report.sleeps += 1;
                Event::Slept
            },
            Action::PollJob { .. } => {
                let outcome = if poll_idx < cur_polls.len() {
                    cur_polls[poll_idx].clone()
                } else {
                    PollOutcome::Transient
                };
                poll_idx += 1;
                report.polls += 1;
                Event::Polled { outcome }
            },
            Action::FetchAsset { url: _, dest } => {
                world.files.push(dest.clone());
                report.fetches.push(dest);
                Event::Fetched { result: Ok(()) }
            },
            Action::Synthesize { text, dest } => {
                report.synth_calls.push((text, dest.clone()));
                if world.synth_async {
                    cur_polls = world.job_polls.get(next_job).cloned().unwrap_or_default();
                    poll_idx = 0;
                    next_job += 1;
                    Event::SynthesisStarted {
                        result: Ok(SynthesisStart::Task { task_id: format!("task-{}", next_job) }),
                    }
                } else {
                    world.files.push(dest);
                    Event::SynthesisStarted { result: Ok(SynthesisStart::Complete) }
                }
            },
            Action::RenderStill { image_path, caption, duration_ms, dest } => {
                if world.render_ok {
                    world.files.push(dest.clone());
                    report.renders.push((image_path, caption, duration_ms, dest));
                    Event::Rendered { result: Ok(()) }
                } else {
                    Event::Rendered { result: Err("renderer diagnostic".to_owned()) }
                }
            },
            Action::ConcatAudio { inputs, dest } => {
                report.audio_existed_at_concat = world.files.contains(&audio);
                world.files.push(dest.clone());
                report.audio_concats.push((inputs, dest));
                Event::Rendered { result: Ok(()) }
            },
            Action::ConcatVideos { inputs, dest } => {
                if world.render_ok {
                    world.files.push(dest.clone());
                    report.video_concats.push((inputs, dest));
                    Event::Rendered { result: Ok(()) }
                } else {
                    Event::Rendered { result: Err("renderer diagnostic".to_owned()) }
                }
            },
            Action::Mux { video, audio, dest } => {
                world.files.push(dest.clone());
                report.muxes.push((video, audio, dest));
                Event::Rendered { result: Ok(()) }
            },
            Action::Delete { path } => {
                world.files.retain(|p| p != &path);
                report.deletes.push(path);
                Event::Deleted
            },
            Action::Done => {
                report.outcome = Some(Ok(()));
                return report;
            },
            Action::Fail { error } => {
                report.outcome = Some(Err(error));
                return report;
            },
        };
        act = machine.step(event);
    }
    panic!("the run did not reach a final state");
}

#[test]
fn scenario_two_scenes_single_chunk() {
    // Two scenes of 3.0 and 4.0 seconds, a 250-unit narration cap: one
    // narration call (a single chunk, straight to the final audio path,
    // no concatenation) and two independent image jobs; the segment plan
    // carries 7.0 seconds of video timeline, muxed against the narration.
    let mut world = World {
        decomposition: Ok(vec![
            record("harbour at dawn", "Scene one.", 3000),
            record("city at night", "Scene two.", 4000),
        ]),
        files: Vec::new(),
        job_polls: vec![
            vec![running(), succeeded("https://assets.example/0.png")],
            vec![succeeded("https://assets.example/1.png")],
        ],
        synth_async: false,
        render_ok: true,
    };
    let report = run(config("wd", false, 250), &mut world);
    assert!(matches!(report.outcome, Some(Ok(()))));
    assert_eq!(report.submits, vec!["harbour at dawn", "city at night"]);
    assert_eq!(report.fetches, vec!["wd/scene_0.png", "wd/scene_1.png"]);
    assert_eq!(report.synth_calls.len(), 1);
    assert_eq!(report.synth_calls[0].0, "Scene one.\u{3002}Scene two.");
    assert_eq!(report.synth_calls[0].1, "wd/audio.mp3");
    assert_eq!(report.audio_concats.len(), 0);
    let total_ms: u64 = report.renders.iter().map(|r| r.2).sum();
    assert_eq!(total_ms, 7000);
    assert_eq!(report.renders.len(), 2);
    assert_eq!(report.renders[0].3, "wd/segment_0.mp4");
    assert_eq!(report.renders[1].3, "wd/segment_1.mp4");
    assert_eq!(report.video_concats.len(), 1);
    assert_eq!(report.video_concats[0].0, vec!["wd/segment_0.mp4", "wd/segment_1.mp4"]);
    assert_eq!(report.muxes, vec![(
        "wd/merged.mp4".to_owned(),
        "wd/audio.mp3".to_owned(),
        "final.mp4".to_owned(),
    )]);
    assert!(world.files.contains(&"final.mp4".to_owned()));
    // Transients were cleaned up.
    assert!(!world.files.contains(&"wd/merged.mp4".to_owned()));
    assert!(!world.files.contains(&"wd/segment_0.mp4".to_owned()));
}

#[test]
fn scenario_long_script_three_chunks_one_concatenation() {
    // A 600-unit script under a 250-unit cap: three synthesis calls and
    // exactly one audio concatenation, made before the final audio path
    // exists.
    let subtitle: String = std::iter::repeat('x').take(600).collect();
    let mut world = World {
        decomposition: Ok(vec![record("one scene", &subtitle, 5000)]),
        files: vec!["wd/scene_0.png".to_owned()],
        job_polls: Vec::new(),
        synth_async: false,
        render_ok: true,
    };
    let report = run(config("wd", false, 250), &mut world);
    assert!(matches!(report.outcome, Some(Ok(()))));
    assert_eq!(report.submits.len(), 0);
    assert_eq!(report.synth_calls.len(), 3);
    assert_eq!(report.synth_calls[0].0.chars().count(), 250);
    assert_eq!(report.synth_calls[1].0.chars().count(), 250);
    assert_eq!(report.synth_calls[2].0.chars().count(), 100);
    assert_eq!(report.synth_calls[0].1, "wd/audio_chunk_0.mp3");
    assert_eq!(report.synth_calls[2].1, "wd/audio_chunk_2.mp3");
    assert_eq!(report.audio_concats.len(), 1);
    assert!(!report.audio_existed_at_concat);
    assert_eq!(report.audio_concats[0].0, vec![
        "wd/audio_chunk_0.mp3",
        "wd/audio_chunk_1.mp3",
        "wd/audio_chunk_2.mp3",
    ]);
    assert_eq!(report.audio_concats[0].1, "wd/audio.mp3");
    // The chunk intermediates were deleted afterwards.
    assert!(report.deletes.contains(&"wd/audio_chunk_0.mp3".to_owned()));
    assert!(report.deletes.contains(&"wd/audio_chunk_1.mp3".to_owned()));
    assert!(report.deletes.contains(&"wd/audio_chunk_2.mp3".to_owned()));
    assert!(!world.files.contains(&"wd/audio_chunk_0.mp3".to_owned()));
}

#[test]
fn scenario_failed_image_job_aborts_with_that_scene_index() {
    // The first scene's job fails on its second poll: the run aborts with
    // an error naming scene 0, and the second scene is never submitted.
    let mut world = World {
        decomposition: Ok(vec![
            record("first prompt", "one", 3000),
            record("second prompt", "two", 4000),
        ]),
        files: Vec::new(),
        job_polls: vec![vec![running(), failed()]],
        synth_async: false,
        render_ok: true,
    };
    let report = run(config("wd", false, 250), &mut world);
    assert!(matches!(
        report.outcome,
        Some(Err(VideoError::ImageGeneration {
            scene_index: 0,
            failure: TaskFailure::RemoteTaskFailed,
        }))
    ));
    assert_eq!(report.submits, vec!["first prompt"]);
    assert_eq!(report.polls, 2);
    assert_eq!(report.synth_calls.len(), 0);
    assert_eq!(report.renders.len(), 0);
}

#[test]
fn scenario_second_run_regenerates_nothing() {
    // A full run, then a second run against the same working directory:
    // every image and the narration track are found on disk, so the
    // second run submits no job and synthesizes nothing.
    let decomposition = Ok(vec![
        record("harbour at dawn", "Scene one.", 3000),
        record("city at night", "Scene two.", 4000),
    ]);
    let mut world = World {
        decomposition: decomposition.clone(),
        files: Vec::new(),
        job_polls: vec![
            vec![succeeded("https://assets.example/0.png")],
            vec![succeeded("https://assets.example/1.png")],
        ],
        synth_async: false,
        render_ok: true,
    };
    let first = run(config("wd", false, 250), &mut world);
    assert!(matches!(first.outcome, Some(Ok(()))));
    assert_eq!(first.submits.len(), 2);
    assert_eq!(first.synth_calls.len(), 1);

    world.decomposition = decomposition;
    world.job_polls = Vec::new();
    let second = run(config("wd", false, 250), &mut world);
    assert!(matches!(second.outcome, Some(Ok(()))));
    assert_eq!(second.submits.len(), 0);
    assert_eq!(second.synth_calls.len(), 0);
    assert_eq!(second.fetches.len(), 0);
    assert_eq!(second.polls, 0);
    // The assembly still ran and produced the final video again.
    assert_eq!(second.renders.len(), 2);
    assert_eq!(second.muxes.len(), 1);
}

#[test]
fn scenario_skip_images_mode_attaches_only_existing_images() {
    let mut world = World {
        decomposition: Ok(vec![
            record("a", "one", 2000),
            record("b", "two", 3000),
        ]),
        files: vec!["wd/scene_1.png".to_owned()],
        job_polls: Vec::new(),
        synth_async: false,
        render_ok: true,
    };
    let report = run(config("wd", true, 250), &mut world);
    assert!(matches!(report.outcome, Some(Ok(()))));
    assert_eq!(report.submits.len(), 0);
    assert_eq!(report.fetches.len(), 0);
    // Only the scene whose image existed contributes a segment.
    assert_eq!(report.renders.len(), 1);
    assert_eq!(report.renders[0].0, "wd/scene_1.png");
    assert_eq!(report.renders[0].3, "wd/segment_1.mp4");
}

#[test]
fn scenario_asynchronous_narration_is_polled_like_any_job() {
    let mut world = World {
        decomposition: Ok(vec![record("a", "one line", 2000)]),
        files: vec!["wd/scene_0.png".to_owned()],
        job_polls: vec![vec![running(), succeeded("https://assets.example/audio.mp3")]],
        synth_async: true,
        render_ok: true,
    };
    let report = run(config("wd", false, 250), &mut world);
    assert!(matches!(report.outcome, Some(Ok(()))));
    assert_eq!(report.synth_calls.len(), 1);
    assert_eq!(report.polls, 2);
    // The single chunk's asset lands directly at the narration path.
    assert_eq!(report.fetches, vec!["wd/audio.mp3"]);
}

#[test]
fn scenario_malformed_decomposition_is_fatal() {
    let mut world = World {
        decomposition: Err("not a scene list".to_owned()),
        files: Vec::new(),
        job_polls: Vec::new(),
        synth_async: false,
        render_ok: true,
    };
    let report = run(config("wd", false, 250), &mut world);
    assert!(matches!(report.outcome, Some(Err(VideoError::Decomposition { .. }))));
    assert_eq!(report.probes.len(), 0);
}

#[test]
fn scenario_zero_duration_scene_is_fatal() {
    let mut world = World {
        decomposition: Ok(vec![record("a", "one", 0)]),
        files: Vec::new(),
        job_polls: Vec::new(),
        synth_async: false,
        render_ok: true,
    };
    let report = run(config("wd", false, 250), &mut world);
    assert!(matches!(report.outcome, Some(Err(VideoError::Decomposition { .. }))));
}

#[test]
fn scenario_renderer_failure_is_fatal_with_its_diagnostic() {
    let mut world = World {
        decomposition: Ok(vec![record("a", "one", 2000)]),
        files: vec!["wd/scene_0.png".to_owned(), "wd/audio.mp3".to_owned()],
        job_polls: Vec::new(),
        synth_async: false,
        render_ok: false,
    };
    let report = run(config("wd", false, 250), &mut world);
    match report.outcome {
        Some(Err(VideoError::Assembly { diagnostic })) => {
            assert_eq!(diagnostic, "renderer diagnostic");
        },
        other => panic!("expected an assembly error, got {:?}", other),
    }
}

#[test]
fn scenario_empty_success_response_is_its_own_failure() {
    let mut world = World {
        decomposition: Ok(vec![record("a", "one", 2000)]),
        files: Vec::new(),
        job_polls: vec![vec![PollOutcome::Observed {
            status: TaskStatus::Succeeded,
            locator: None,
        }]],
        synth_async: false,
        render_ok: true,
    };
    let report = run(config("wd", false, 250), &mut world);
    assert!(matches!(
        report.outcome,
        Some(Err(VideoError::ImageGeneration {
            scene_index: 0,
            failure: TaskFailure::EmptyResult,
        }))
    ));
}

#[test]
fn scenario_failed_narration_job_is_a_narration_error() {
    let mut world = World {
        decomposition: Ok(vec![record("a", "one line", 2000)]),
        files: vec!["wd/scene_0.png".to_owned()],
        job_polls: vec![vec![failed()]],
        synth_async: true,
        render_ok: true,
    };
    let report = run(config("wd", false, 250), &mut world);
    assert!(matches!(
        report.outcome,
        Some(Err(VideoError::Narration { failure: TaskFailure::RemoteTaskFailed }))
    ));
    assert_eq!(report.renders.len(), 0);
}

#[test]
fn scenario_poll_budget_exhaustion_times_out() {
    let mut world = World {
        decomposition: Ok(vec![record("a", "one", 2000)]),
        files: Vec::new(),
        job_polls: vec![Vec::new()],
        synth_async: false,
        render_ok: true,
    };
    let mut cfg = config("wd", false, 250);
    cfg.poll.max_attempts = 3;
    let report = run(cfg, &mut world);
    assert!(matches!(
        report.outcome,
        Some(Err(VideoError::ImageGeneration {
            scene_index: 0,
            failure: TaskFailure::Timeout,
        }))
    ));
    assert_eq!(report.polls, 3);
}
