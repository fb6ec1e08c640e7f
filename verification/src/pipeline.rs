//! The stage orchestrator: a step machine that drives one pipeline run.
//!
//! The four stages run in fixed order — decompose, per-scene image
//! generation, narration generation, assembly — with no backward
//! transition and no skipping, except the documented images-already-
//! produced mode, which probes each scene's deterministic path instead of
//! generating. The machine holds every decision; all outside work
//! (network, filesystem, renderer processes, sleeping) is performed by the
//! embedding program: each `step` consumes the event answering the
//! previous action and emits the next action. Any stage failure aborts the
//! run; re-running is the supported recovery, made cheap by the
//! existence-probe short-circuits.

use vstd::prelude::*;
use vstd::string::*;
use vstd::pervasive::unreached;
use crate::cache::{ensure_step, CacheDecision};
use crate::errors::{TaskFailure, VideoError};
use crate::paths::{
    audio_path, audio_path_spec, chunk_audio_path, chunk_audio_path_spec, chunk_paths,
    chunk_paths_spec, merged_path_spec, scene_image_path, scene_image_path_spec,
};
use crate::poll::{classify, classify_spec, PollOutcome, PollPolicy, TaskStatus, TaskVerdict};
use crate::render::{
    dests_of, job_dests, segment_plan_spec, StillJob, StillJobSpec, VideoGenerator,
};
use crate::scene::{scenes_of, Scene, SceneRecord, SceneStore};
use crate::text::{build_script, chunk_plan, script_of, split_chunks};

verus! {

/// The run's configuration. Poll interval and attempt budget, like the
/// narration cap, are policy, not constants.
#[derive(Debug)]
pub struct PipelineConfig {
    pub source_text: String,
    pub work_dir: String,
    pub output_path: String,
    /// Images-already-produced mode: decompose for subtitles only, probe
    /// each scene's deterministic path, and skip generation entirely.
    pub skip_images: bool,
    /// The narration service's input-size cap, in characters.
    pub narration_cap: usize,
    pub poll: PollPolicy,
}

impl PipelineConfig {
    pub open spec fn wf(self) -> bool {
        self.narration_cap >= 1 && self.poll.wf()
    }
}

/// Which remote generation job is being awaited.
#[derive(Debug, Clone, Copy, PartialEq, Eq, Structural)]
pub enum JobKind {
    Image { scene: usize },
    Chunk { chunk: usize },
}

/// What a probe is asking about.
#[derive(Debug, Clone, Copy, PartialEq, Eq, Structural)]
pub enum ProbeTarget {
    /// A scene's image path, before generating on a miss.
    Image { scene: usize },
    /// A scene's image path in images-already-produced mode: attach on a
    /// hit, move on either way.
    SkipImage { scene: usize },
    /// The narration track's path.
    Audio,
}

/// How the narration service answered a synthesis request: a synchronous
/// service completes at once (an already-terminal success), an
/// asynchronous one hands back a task to be polled like any other job.
#[derive(Debug)]
pub enum SynthesisStart {
    Complete,
    Task { task_id: String },
}

/// The event answering the machine's previous action.
#[derive(Debug)]
pub enum Event {
    /// The decomposition capability's response: scene records, or the
    /// diagnostic of a malformed response.
    Decomposed { response: Result<Vec<SceneRecord>, String> },
    /// Whether a regular file exists at the probed path.
    Probed { exists: bool },
    /// The submitted job's task id, or the transport diagnostic.
    Submitted { result: Result<String, String> },
    Slept,
    Polled { outcome: PollOutcome },
    /// Whether fetching an asset to its destination succeeded.
    Fetched { result: Result<(), String> },
    SynthesisStarted { result: Result<SynthesisStart, String> },
    /// Whether a renderer invocation succeeded; the error carries the
    /// renderer's diagnostic output verbatim.
    Rendered { result: Result<(), String> },
    /// A best-effort deletion was attempted; its outcome is irrelevant.
    Deleted,
}

/// The outside work the embedding program must perform next.
#[derive(Debug)]
pub enum Action {
    Decompose { text: String },
    Probe { path: String },
    SubmitImageJob { prompt: String },
    Sleep { ms: u64 },
    PollJob { task_id: String },
    FetchAsset { url: String, dest: String },
    Synthesize { text: String, dest: String },
    RenderStill { image_path: String, caption: String, duration_ms: u64, dest: String },
    ConcatVideos { inputs: Vec<String>, dest: String },
    ConcatAudio { inputs: Vec<String>, dest: String },
    Mux { video: String, audio: String, dest: String },
    /// Best-effort deletion of a transient file.
    Delete { path: String },
    /// The run finished; the final video stands at the output path.
    Done,
    /// The run aborted with this fatal error.
    Fail { error: VideoError },
}

/// Where the machine stands: what it emitted and is waiting to hear about.
#[derive(Debug)]
pub enum Phase {
    AwaitDecomposition,
    AwaitProbe { target: ProbeTarget },
    AwaitSubmit { scene: usize },
    AwaitSleep { job: JobKind, task_id: String, attempts: u64 },
    AwaitPoll { job: JobKind, task_id: String, attempts: u64 },
    AwaitFetch { job: JobKind },
    AwaitSynthesis { chunk: usize },
    AwaitAudioConcat,
    AwaitChunkDelete { chunk: usize },
    AwaitRender { seg: usize },
    AwaitVideoConcat,
    AwaitMux,
    AwaitCleanup { item: usize },
    Finished,
    Failed,
}

/// The narration chunk list: the chunk plan of the script under the cap,
/// except that an empty script is synthesized as one empty chunk (the
/// service is still called once, as a run with no subtitles still asks for
/// its narration track).
pub open spec fn narration_chunks(script: Seq<char>, cap: nat) -> Seq<Seq<char>> {
    if script.len() == 0 {
        seq![Seq::<char>::empty()]
    } else {
        chunk_plan(script, cap)
    }
}

/// Where chunk `j` of `n_chunks` is synthesized to: straight to the final
/// narration path when it is the only chunk, to a transient chunk path
/// otherwise.
pub open spec fn chunk_dest_spec(wd: Seq<char>, n_chunks: nat, j: nat) -> Seq<char> {
    if n_chunks == 1 {
        audio_path_spec(wd)
    } else {
        chunk_audio_path_spec(wd, j)
    }
}

/// The transient files deleted after a successful mux: the pre-mux
/// concatenated video, then every segment, in order.
pub open spec fn cleanup_spec(wd: Seq<char>, jobs: Seq<StillJobSpec>) -> Seq<Seq<char>> {
    seq![merged_path_spec(wd)] + dests_of(jobs)
}

/// The one pipeline run's machine.
#[derive(Debug)]
pub struct Pipeline {
    pub config: PipelineConfig,
    pub phase: Phase,
    pub store: SceneStore,
    /// The narration chunk texts, set when the narration stage finds no
    /// cached track.
    pub chunks: Vec<String>,
    /// The planned segment renders, set when assembly starts.
    pub jobs: Vec<StillJob>,
    /// The transient paths deleted after a successful mux.
    pub cleanup: Vec<String>,
}

impl Pipeline {
    /// Every scene from `i` on still has no image recorded.
    pub open spec fn unset_from(self, i: int) -> bool {
        forall|j: int| i <= j < self.store@.len() ==> (#[trigger] self.store@[j]).image_path is None
    }

    pub open spec fn job_wf(self, job: JobKind) -> bool {
        match job {
            JobKind::Image { scene } => scene < self.store@.len() && self.unset_from(scene as int),
            JobKind::Chunk { chunk } => chunk < self.chunks@.len(),
        }
    }

    /// The machine invariant: configuration and store are well-formed, and
    /// the phase's indexes are in range for what they refer to.
    pub open spec fn wf(self) -> bool {
        &&& self.config.wf()
        &&& self.store.wf()
        &&& match self.phase {
            Phase::AwaitDecomposition => self.store@.len() == 0,
            Phase::AwaitProbe { target } => match target {
                ProbeTarget::Image { scene } => scene < self.store@.len()
                    && self.unset_from(scene as int),
                ProbeTarget::SkipImage { scene } => scene < self.store@.len()
                    && self.unset_from(scene as int),
                ProbeTarget::Audio => true,
            },
            Phase::AwaitSubmit { scene } => scene < self.store@.len()
                && self.unset_from(scene as int),
            Phase::AwaitSleep { job, task_id: _, attempts } => self.job_wf(job)
                && attempts < self.config.poll.max_attempts,
            Phase::AwaitPoll { job, task_id: _, attempts } => self.job_wf(job)
                && attempts < self.config.poll.max_attempts,
            Phase::AwaitFetch { job } => self.job_wf(job),
            Phase::AwaitSynthesis { chunk } => chunk < self.chunks@.len(),
            Phase::AwaitAudioConcat => self.chunks@.len() >= 2,
            Phase::AwaitChunkDelete { chunk } => chunk < self.chunks@.len()
                && self.chunks@.len() >= 2,
            Phase::AwaitRender { seg } => seg < self.jobs@.len(),
            Phase::AwaitCleanup { item } => item < self.cleanup@.len(),
            _ => true,
        }
    }

    /// A final phase: the run finished or aborted; no event is accepted
    /// any more.
    pub open spec fn is_final(self) -> bool {
        self.phase is Finished || self.phase is Failed
    }
}

/// Which event answers which phase. Final phases accept no event.
pub open spec fn event_fits(phase: Phase, event: Event) -> bool {
    match phase {
        Phase::AwaitDecomposition => event is Decomposed,
        Phase::AwaitProbe { .. } => event is Probed,
        Phase::AwaitSubmit { .. } => event is Submitted,
        Phase::AwaitSleep { .. } => event is Slept,
        Phase::AwaitPoll { .. } => event is Polled,
        Phase::AwaitFetch { .. } => event is Fetched,
        Phase::AwaitSynthesis { .. } => event is SynthesisStarted,
        Phase::AwaitAudioConcat => event is Rendered,
        Phase::AwaitChunkDelete { .. } => event is Deleted,
        Phase::AwaitRender { .. } => event is Rendered,
        Phase::AwaitVideoConcat => event is Rendered,
        Phase::AwaitMux => event is Rendered,
        Phase::AwaitCleanup { .. } => event is Deleted,
        Phase::Finished => false,
        Phase::Failed => false,
    }
}

// --- helper predicates over the emitted action ---

pub open spec fn probe_act(act: Action, path: Seq<char>) -> bool {
    act matches Action::Probe { path: p } && p@ == path
}

pub open spec fn synth_act(act: Action, text: Seq<char>, dest: Seq<char>) -> bool {
    act matches Action::Synthesize { text: t, dest: d } && t@ == text && d@ == dest
}

pub open spec fn render_still_act(act: Action, job: StillJobSpec) -> bool {
    act matches Action::RenderStill { image_path, caption, duration_ms, dest }
        && image_path@ == job.image_path && caption@ == job.caption
        && duration_ms == job.duration_ms && dest@ == job.dest
}

pub open spec fn concat_videos_act(act: Action, inputs: Seq<Seq<char>>, dest: Seq<char>) -> bool {
    act matches Action::ConcatVideos { inputs: v, dest: d } && v.deep_view() == inputs && d@ == dest
}

pub open spec fn concat_audio_act(act: Action, inputs: Seq<Seq<char>>, dest: Seq<char>) -> bool {
    act matches Action::ConcatAudio { inputs: v, dest: d } && v.deep_view() == inputs && d@ == dest
}

pub open spec fn delete_act(act: Action, path: Seq<char>) -> bool {
    act matches Action::Delete { path: p } && p@ == path
}

// --- frame conditions: which machine fields an arm leaves unchanged ---

pub open spec fn same_but_phase(pre: Pipeline, post: Pipeline) -> bool {
    post.config == pre.config && post.store == pre.store && post.chunks == pre.chunks
        && post.jobs == pre.jobs && post.cleanup == pre.cleanup
}

pub open spec fn same_but_phase_store(pre: Pipeline, post: Pipeline) -> bool {
    post.config == pre.config && post.chunks == pre.chunks && post.jobs == pre.jobs
        && post.cleanup == pre.cleanup
}

pub open spec fn same_but_phase_chunks(pre: Pipeline, post: Pipeline) -> bool {
    post.config == pre.config && post.store == pre.store && post.jobs == pre.jobs
        && post.cleanup == pre.cleanup
}

pub open spec fn same_but_phase_jobs(pre: Pipeline, post: Pipeline) -> bool {
    post.config == pre.config && post.store == pre.store && post.chunks == pre.chunks
        && post.cleanup == pre.cleanup
}

pub open spec fn same_but_phase_cleanup(pre: Pipeline, post: Pipeline) -> bool {
    post.config == pre.config && post.store == pre.store && post.chunks == pre.chunks
        && post.jobs == pre.jobs
}

/// The arm aborted the run with `err`.
pub open spec fn fail_to(pre: Pipeline, post: Pipeline, act: Action, err: VideoError) -> bool {
    same_but_phase(pre, post) && post.phase == Phase::Failed && act == (Action::Fail { error: err })
}

/// The error a remote job's failure aborts the run with: tagged with the
/// scene index for an image job, a narration error for a chunk job.
pub open spec fn job_error(job: JobKind, failure: TaskFailure) -> VideoError {
    match job {
        JobKind::Image { scene } => VideoError::ImageGeneration { scene_index: scene, failure },
        JobKind::Chunk { chunk: _ } => VideoError::Narration { failure },
    }
}

/// Where a remote job's fetched asset lands.
pub open spec fn job_dest(pre: Pipeline, job: JobKind) -> Seq<char> {
    let wd = pre.config.work_dir@;
    match job {
        JobKind::Image { scene } => scene_image_path_spec(wd, scene as nat),
        JobKind::Chunk { chunk } => chunk_dest_spec(wd, pre.chunks@.len(), chunk as nat),
    }
}

/// Entering the narration stage: probe the narration track's path.
pub open spec fn narration_entry(cfg: PipelineConfig, post: Pipeline, act: Action) -> bool {
    post.phase == (Phase::AwaitProbe { target: ProbeTarget::Audio })
        && probe_act(act, audio_path_spec(cfg.work_dir@))
}

/// The image stage moves on from scene `i`: probe the next scene's path,
/// or enter the narration stage after the last scene.
pub open spec fn advance_scene(pre: Pipeline, post: Pipeline, act: Action, i: int, skip: bool) -> bool {
    if i + 1 < pre.store@.len() {
        &&& post.phase == (Phase::AwaitProbe {
            target: if skip {
                ProbeTarget::SkipImage { scene: (i + 1) as usize }
            } else {
                ProbeTarget::Image { scene: (i + 1) as usize }
            },
        })
        &&& probe_act(act, scene_image_path_spec(pre.config.work_dir@, (i + 1) as nat))
    } else {
        narration_entry(pre.config, post, act)
    }
}

/// Entering assembly: the segment plan is computed from the final store;
/// the first segment render is requested, or, with no segments planned,
/// the (empty) concatenation directly.
pub open spec fn assembly_entry(pre: Pipeline, post: Pipeline, act: Action) -> bool {
    let wd = pre.config.work_dir@;
    let plan = segment_plan_spec(pre.store@, wd);
    &&& post.jobs.deep_view() == plan
    &&& if plan.len() > 0 {
        post.phase == (Phase::AwaitRender { seg: 0 }) && render_still_act(act, plan[0])
    } else {
        post.phase == Phase::AwaitVideoConcat
            && concat_videos_act(act, dests_of(plan), merged_path_spec(wd))
    }
}

/// The narration stage moves on from chunk `j`: synthesize the next chunk,
/// or concatenate the chunk tracks (when there were at least two), or — in
/// the single-chunk case, which bypasses concatenation entirely — enter
/// assembly.
pub open spec fn advance_chunk(pre: Pipeline, post: Pipeline, act: Action, j: int) -> bool {
    let wd = pre.config.work_dir@;
    let chunks = pre.chunks.deep_view();
    if j + 1 < chunks.len() {
        &&& post.jobs == pre.jobs
        &&& post.phase == (Phase::AwaitSynthesis { chunk: (j + 1) as usize })
        &&& synth_act(act, chunks[j + 1], chunk_dest_spec(wd, chunks.len(), (j + 1) as nat))
    } else if chunks.len() >= 2 {
        &&& post.jobs == pre.jobs
        &&& post.phase == Phase::AwaitAudioConcat
        &&& concat_audio_act(act, chunk_paths_spec(wd, chunks.len()), audio_path_spec(wd))
    } else {
        assembly_entry(pre, post, act)
    }
}

/// The store after recording `path` as scene `scene`'s image: that scene's
/// `image_path` becomes a `Some` viewing to `path`, its other fields and
/// every other scene are unchanged.
pub open spec fn store_sets_image(pre: Pipeline, post: Pipeline, scene: int, path: Seq<char>) -> bool {
    &&& post.store@.len() == pre.store@.len()
    &&& post.store@[scene].image_path matches Some(p) && p@ == path
    &&& post.store@[scene].index == pre.store@[scene].index
    &&& post.store@[scene].description == pre.store@[scene].description
    &&& post.store@[scene].subtitle == pre.store@[scene].subtitle
    &&& post.store@[scene].duration_ms == pre.store@[scene].duration_ms
    &&& forall|k: int|
        0 <= k < pre.store@.len() && k != scene ==> post.store@[k] == (#[trigger] pre.store@[k])
}

/// The machine's whole transition relation: given the pre-state and the
/// event, it pins the post-state and the emitted action.
pub open spec fn next_of(pre: Pipeline, event: Event, post: Pipeline, act: Action) -> bool {
    let cfg = pre.config;
    let wd = cfg.work_dir@;
    match pre.phase {
        Phase::AwaitDecomposition => match event {
            Event::Decomposed { response } => match response {
                Err(msg) => fail_to(pre, post, act, VideoError::Decomposition { message: msg }),
                Ok(records) => {
                    if forall|i: int|
                        0 <= i < records@.len() ==> (#[trigger] records@[i]).duration_ms > 0 {
                        &&& same_but_phase_store(pre, post)
                        &&& post.store@ == scenes_of(records@)
                        &&& if records@.len() == 0 {
                            narration_entry(cfg, post, act)
                        } else if cfg.skip_images {
                            post.phase == (Phase::AwaitProbe {
                                target: ProbeTarget::SkipImage { scene: 0 },
                            }) && probe_act(act, scene_image_path_spec(wd, 0))
                        } else {
                            post.phase == (Phase::AwaitProbe {
                                target: ProbeTarget::Image { scene: 0 },
                            }) && probe_act(act, scene_image_path_spec(wd, 0))
                        }
                    } else {
                        &&& same_but_phase(pre, post)
                        &&& post.phase == Phase::Failed
                        &&& act matches Action::Fail {
                            error: VideoError::Decomposition { message },
                        } && message@ == "scene record with non-positive duration"@
                    }
                },
            },
            _ => false,
        },
        Phase::AwaitProbe { target } => match event {
            Event::Probed { exists } => match target {
                ProbeTarget::Image { scene } => {
                    if exists {
                        &&& same_but_phase_store(pre, post)
                        &&& store_sets_image(pre, post, scene as int, scene_image_path_spec(wd, scene as nat))
                        &&& advance_scene(pre, post, act, scene as int, false)
                    } else {
                        &&& same_but_phase(pre, post)
                        &&& post.phase == (Phase::AwaitSubmit { scene })
                        &&& act matches Action::SubmitImageJob { prompt }
                            && prompt@ == pre.store@[scene as int].description@
                    }
                },
                ProbeTarget::SkipImage { scene } => {
                    if exists {
                        &&& same_but_phase_store(pre, post)
                        &&& store_sets_image(pre, post, scene as int, scene_image_path_spec(wd, scene as nat))
                        &&& advance_scene(pre, post, act, scene as int, true)
                    } else {
                        &&& same_but_phase(pre, post)
                        &&& advance_scene(pre, post, act, scene as int, true)
                    }
                },
                ProbeTarget::Audio => {
                    if exists {
                        &&& same_but_phase_jobs(pre, post)
                        &&& assembly_entry(pre, post, act)
                    } else {
                        let chunks = narration_chunks(script_of(pre.store@), cfg.narration_cap as nat);
                        &&& same_but_phase_chunks(pre, post)
                        &&& post.chunks.deep_view() == chunks
                        &&& post.phase == (Phase::AwaitSynthesis { chunk: 0 })
                        &&& synth_act(act, chunks[0], chunk_dest_spec(wd, chunks.len(), 0))
                    }
                },
            },
            _ => false,
        },
        Phase::AwaitSubmit { scene } => match event {
            Event::Submitted { result } => match result {
                Ok(task_id) => {
                    &&& same_but_phase(pre, post)
                    &&& post.phase == (Phase::AwaitSleep {
                        job: JobKind::Image { scene },
                        task_id,
                        attempts: 0,
                    })
                    &&& act == (Action::Sleep { ms: cfg.poll.interval_ms })
                },
                Err(message) => fail_to(
                    pre,
                    post,
                    act,
                    VideoError::ImageGeneration {
                        scene_index: scene,
                        failure: TaskFailure::Submit { message },
                    },
                ),
            },
            _ => false,
        },
        Phase::AwaitSleep { job, task_id, attempts } => match event {
            Event::Slept => {
                &&& same_but_phase(pre, post)
                &&& post.phase == (Phase::AwaitPoll { job, task_id, attempts })
                &&& act == (Action::PollJob { task_id })
            },
            _ => false,
        },
        Phase::AwaitPoll { job, task_id, attempts } => match event {
            Event::Polled { outcome } => match classify_spec(outcome, attempts, cfg.poll) {
                TaskVerdict::Continue => {
                    &&& same_but_phase(pre, post)
                    &&& post.phase == (Phase::AwaitSleep {
                        job,
                        task_id,
                        attempts: (attempts + 1) as u64,
                    })
                    &&& act == (Action::Sleep { ms: cfg.poll.interval_ms })
                },
                TaskVerdict::Success { locator } => {
                    &&& same_but_phase(pre, post)
                    &&& post.phase == (Phase::AwaitFetch { job })
                    &&& act matches Action::FetchAsset { url, dest }
                        && url == locator && dest@ == job_dest(pre, job)
                },
                TaskVerdict::Fail { failure } => fail_to(pre, post, act, job_error(job, failure)),
            },
            _ => false,
        },
        Phase::AwaitFetch { job } => match event {
            Event::Fetched { result } => match result {
                Ok(_) => match job {
                    JobKind::Image { scene } => {
                        &&& same_but_phase_store(pre, post)
                        &&& store_sets_image(pre, post, scene as int, scene_image_path_spec(wd, scene as nat))
                        &&& advance_scene(pre, post, act, scene as int, false)
                    },
                    JobKind::Chunk { chunk } => {
                        &&& same_but_phase_jobs(pre, post)
                        &&& advance_chunk(pre, post, act, chunk as int)
                    },
                },
                Err(message) => fail_to(
                    pre,
                    post,
                    act,
                    job_error(job, TaskFailure::Fetch { message }),
                ),
            },
            _ => false,
        },
        Phase::AwaitSynthesis { chunk } => match event {
            Event::SynthesisStarted { result } => match result {
                Ok(SynthesisStart::Complete) => {
                    &&& same_but_phase_jobs(pre, post)
                    &&& advance_chunk(pre, post, act, chunk as int)
                },
                Ok(SynthesisStart::Task { task_id }) => {
                    &&& same_but_phase(pre, post)
                    &&& post.phase == (Phase::AwaitSleep {
                        job: JobKind::Chunk { chunk },
                        task_id,
                        attempts: 0,
                    })
                    &&& act == (Action::Sleep { ms: cfg.poll.interval_ms })
                },
                Err(message) => fail_to(
                    pre,
                    post,
                    act,
                    VideoError::Narration { failure: TaskFailure::Submit { message } },
                ),
            },
            _ => false,
        },
        Phase::AwaitAudioConcat => match event {
            Event::Rendered { result } => match result {
                Ok(_) => {
                    &&& same_but_phase(pre, post)
                    &&& post.phase == (Phase::AwaitChunkDelete { chunk: 0 })
                    &&& delete_act(act, chunk_audio_path_spec(wd, 0))
                },
                Err(diagnostic) => fail_to(pre, post, act, VideoError::Assembly { diagnostic }),
            },
            _ => false,
        },
        Phase::AwaitChunkDelete { chunk } => match event {
            Event::Deleted => {
                if chunk as int + 1 < pre.chunks@.len() {
                    &&& same_but_phase(pre, post)
                    &&& post.phase == (Phase::AwaitChunkDelete { chunk: (chunk + 1) as usize })
                    &&& delete_act(act, chunk_audio_path_spec(wd, (chunk + 1) as nat))
                } else {
                    &&& same_but_phase_jobs(pre, post)
                    &&& assembly_entry(pre, post, act)
                }
            },
            _ => false,
        },
        Phase::AwaitRender { seg } => match event {
            Event::Rendered { result } => match result {
                Ok(_) => {
                    if seg as int + 1 < pre.jobs@.len() {
                        &&& same_but_phase(pre, post)
                        &&& post.phase == (Phase::AwaitRender { seg: (seg + 1) as usize })
                        &&& render_still_act(act, pre.jobs.deep_view()[seg as int + 1])
                    } else {
                        &&& same_but_phase(pre, post)
                        &&& post.phase == Phase::AwaitVideoConcat
                        &&& concat_videos_act(
                            act,
                            dests_of(pre.jobs.deep_view()),
                            merged_path_spec(wd),
                        )
                    }
                },
                Err(diagnostic) => fail_to(pre, post, act, VideoError::Assembly { diagnostic }),
            },
            _ => false,
        },
        Phase::AwaitVideoConcat => match event {
            Event::Rendered { result } => match result {
                Ok(_) => {
                    &&& same_but_phase(pre, post)
                    &&& post.phase == Phase::AwaitMux
                    &&& act matches Action::Mux { video, audio, dest }
                        && video@ == merged_path_spec(wd) && audio@ == audio_path_spec(wd)
                        && dest == cfg.output_path
                },
                Err(diagnostic) => fail_to(pre, post, act, VideoError::Assembly { diagnostic }),
            },
            _ => false,
        },
        Phase::AwaitMux => match event {
            Event::Rendered { result } => match result {
                Ok(_) => {
                    &&& same_but_phase_cleanup(pre, post)
                    &&& post.cleanup.deep_view() == cleanup_spec(wd, pre.jobs.deep_view())
                    &&& post.phase == (Phase::AwaitCleanup { item: 0 })
                    &&& delete_act(act, cleanup_spec(wd, pre.jobs.deep_view())[0])
                },
                Err(diagnostic) => fail_to(pre, post, act, VideoError::Assembly { diagnostic }),
            },
            _ => false,
        },
        Phase::AwaitCleanup { item } => match event {
            Event::Deleted => {
                if item as int + 1 < pre.cleanup@.len() {
                    &&& same_but_phase(pre, post)
                    &&& post.phase == (Phase::AwaitCleanup { item: (item + 1) as usize })
                    &&& delete_act(act, pre.cleanup.deep_view()[item as int + 1])
                } else {
                    &&& same_but_phase(pre, post)
                    &&& post.phase == Phase::Finished
                    &&& act == Action::Done
                }
            },
            _ => false,
        },
        Phase::Finished => false,
        Phase::Failed => false,
    }
}

/// Where chunk `j` of `n_chunks` is synthesized to.
fn chunk_dest(wd: &str, n_chunks: usize, j: usize) -> (p: String)
    ensures
        p@ == chunk_dest_spec(wd@, n_chunks as nat, j as nat),
{
    if n_chunks == 1 {
        audio_path(wd)
    } else {
        chunk_audio_path(wd, j)
    }
}

impl Pipeline {
    /// Starts a run: the machine's first action is the one decomposition
    /// call with the full source text.
    pub fn new(config: PipelineConfig) -> (r: (Pipeline, Action))
        requires
            config.wf(),
        ensures
            r.0.wf(),
            r.0.phase == Phase::AwaitDecomposition,
            r.0.config == config,
            r.0.store@ == Seq::<Scene>::empty(),
            r.1 matches Action::Decompose { text } && text == config.source_text,
    {
        let text = config.source_text.clone();
        let p = Pipeline {
            config,
            phase: Phase::AwaitDecomposition,
            store: SceneStore::empty(),
            chunks: Vec::new(),
            jobs: Vec::new(),
            cleanup: Vec::new(),
        };
        (p, Action::Decompose { text })
    }

    /// The image stage moves on from scene `i`.
    fn advance_scene_exec(&mut self, i: usize, skip: bool) -> (act: Action)
        requires
            old(self).config.wf(),
            old(self).store.wf(),
            i < old(self).store@.len(),
            old(self).unset_from(i as int + 1),
        ensures
            final(self).config == old(self).config,
            final(self).store == old(self).store,
            final(self).chunks == old(self).chunks,
            final(self).jobs == old(self).jobs,
            final(self).cleanup == old(self).cleanup,
            advance_scene(*old(self), *final(self), act, i as int, skip),
            final(self).wf(),
    {
        let n = self.store.len();
        if i < n - 1 {
            let path = scene_image_path(self.config.work_dir.as_str(), i + 1);
            self.phase = Phase::AwaitProbe {
                target: if skip {
                    ProbeTarget::SkipImage { scene: i + 1 }
                } else {
                    ProbeTarget::Image { scene: i + 1 }
                },
            };
            Action::Probe { path }
        } else {
            let path = audio_path(self.config.work_dir.as_str());
            self.phase = Phase::AwaitProbe { target: ProbeTarget::Audio };
            Action::Probe { path }
        }
    }

    /// Enters assembly: plans the segments from the final store and
    /// requests the first render, or the (empty) concatenation.
    fn enter_assembly(&mut self) -> (act: Action)
        requires
            old(self).config.wf(),
            old(self).store.wf(),
        ensures
            final(self).config == old(self).config,
            final(self).store == old(self).store,
            final(self).chunks == old(self).chunks,
            final(self).cleanup == old(self).cleanup,
            assembly_entry(*old(self), *final(self), act),
            final(self).wf(),
    {
        let gen = VideoGenerator::new(self.config.work_dir.clone());
        let jobs = gen.plan_segments(self.store.scenes_vec());
        proof {
            assert(jobs@.len() == jobs.deep_view().len());
        }
        if jobs.len() > 0 {
            let act = Action::RenderStill {
                image_path: jobs[0].image_path.clone(),
                caption: jobs[0].caption.clone(),
                duration_ms: jobs[0].duration_ms,
                dest: jobs[0].dest.clone(),
            };
            self.jobs = jobs;
            self.phase = Phase::AwaitRender { seg: 0 };
            act
        } else {
            let inputs = job_dests(&jobs);
            let dest = gen.merged_output();
            self.jobs = jobs;
            self.phase = Phase::AwaitVideoConcat;
            Action::ConcatVideos { inputs, dest }
        }
    }

    /// The narration stage moves on from chunk `j`.
    fn advance_chunk_exec(&mut self, j: usize) -> (act: Action)
        requires
            old(self).config.wf(),
            old(self).store.wf(),
            j < old(self).chunks@.len(),
        ensures
            final(self).config == old(self).config,
            final(self).store == old(self).store,
            final(self).chunks == old(self).chunks,
            final(self).cleanup == old(self).cleanup,
            advance_chunk(*old(self), *final(self), act, j as int),
            final(self).wf(),
    {
        proof {
            assert(self.chunks@.len() == self.chunks.deep_view().len());
        }
        let n = self.chunks.len();
        if j < n - 1 {
            let text = self.chunks[j + 1].clone();
            let dest = chunk_dest(self.config.work_dir.as_str(), self.chunks.len(), j + 1);
            self.phase = Phase::AwaitSynthesis { chunk: j + 1 };
            proof {
                assert(old(self).chunks.deep_view()[j as int + 1] == old(self).chunks@[j as int + 1]@);
            }
            Action::Synthesize { text, dest }
        } else if self.chunks.len() >= 2 {
            let inputs = chunk_paths(self.config.work_dir.as_str(), self.chunks.len());
            let dest = audio_path(self.config.work_dir.as_str());
            self.phase = Phase::AwaitAudioConcat;
            Action::ConcatAudio { inputs, dest }
        } else {
            self.enter_assembly()
        }
    }

    /// One step of the run: consumes the event answering the previous
    /// action and emits the next action. The machine's whole behaviour is
    /// `next_of`; a final phase accepts no further event.
    pub fn step(&mut self, event: Event) -> (act: Action)
        requires
            old(self).wf(),
            event_fits(old(self).phase, event),
        ensures
            final(self).wf(),
            next_of(*old(self), event, *final(self), act),
    {
        match &self.phase {
            Phase::AwaitDecomposition => {
                match event {
                    Event::Decomposed { response } => match response {
                        Err(msg) => {
                            self.phase = Phase::Failed;
                            Action::Fail { error: VideoError::Decomposition { message: msg } }
                        },
                        Ok(records) => {
                            match SceneStore::from_records(records) {
                                Err(e) => {
                                    self.phase = Phase::Failed;
                                    Action::Fail { error: e }
                                },
                                Ok(store) => {
                                    self.store = store;
                                    proof {
                                        assert forall|jj: int|
                                            0 <= jj < self.store@.len()
                                                implies (#[trigger] self.store@[jj]).image_path
                                                is None by {}
                                    }
                                    if self.store.len() == 0 {
                                        let path = audio_path(self.config.work_dir.as_str());
                                        self.phase = Phase::AwaitProbe {
                                            target: ProbeTarget::Audio,
                                        };
                                        Action::Probe { path }
                                    } else if self.config.skip_images {
                                        let path = scene_image_path(
                                            self.config.work_dir.as_str(),
                                            0,
                                        );
                                        self.phase = Phase::AwaitProbe {
                                            target: ProbeTarget::SkipImage { scene: 0 },
                                        };
                                        Action::Probe { path }
                                    } else {
                                        let path = scene_image_path(
                                            self.config.work_dir.as_str(),
                                            0,
                                        );
                                        self.phase = Phase::AwaitProbe {
                                            target: ProbeTarget::Image { scene: 0 },
                                        };
                                        Action::Probe { path }
                                    }
                                },
                            }
                        },
                    },
                    _ => unreached(),
                }
            },
            Phase::AwaitProbe { target } => {
                let t = *target;
                let exists = match event {
                    Event::Probed { exists } => exists,
                    _ => unreached(),
                };
                match t {
                    ProbeTarget::Image { scene } => {
                        match ensure_step(exists) {
                            CacheDecision::Reuse => {
                                let path = scene_image_path(self.config.work_dir.as_str(), scene);
                                self.store.set_image_path(scene, path);
                                self.advance_scene_exec(scene, false)
                            },
                            CacheDecision::Generate => {
                                let prompt = self.store.scene(scene).description.clone();
                                self.phase = Phase::AwaitSubmit { scene };
                                Action::SubmitImageJob { prompt }
                            },
                        }
                    },
                    ProbeTarget::SkipImage { scene } => {
                        if exists {
                            let path = scene_image_path(self.config.work_dir.as_str(), scene);
                            self.store.set_image_path(scene, path);
                            self.advance_scene_exec(scene, true)
                        } else {
                            self.advance_scene_exec(scene, true)
                        }
                    },
                    ProbeTarget::Audio => {
                        match ensure_step(exists) {
                            CacheDecision::Reuse => self.enter_assembly(),
                            CacheDecision::Generate => {
                                let script = build_script(self.store.scenes_vec());
                                let chunks: Vec<String> = if script.as_str().unicode_len() == 0 {
                                    let mut v: Vec<String> = Vec::new();
                                    v.push(String::new());
                                    proof {
                                        assert(v.deep_view() =~= seq![Seq::<char>::empty()]);
                                    }
                                    v
                                } else {
                                    split_chunks(script.as_str(), self.config.narration_cap)
                                };
                                proof {
                                    assert(chunks.deep_view() == narration_chunks(
                                        script_of(self.store@),
                                        self.config.narration_cap as nat,
                                    ));
                                    crate::text::lemma_chunk_plan_bounds(
                                        script@,
                                        self.config.narration_cap as nat,
                                    );
                                    assert(chunks.deep_view().len() >= 1);
                                    assert(chunks@.len() == chunks.deep_view().len());
                                }
                                let text0 = chunks[0].clone();
                                let dest0 = chunk_dest(
                                    self.config.work_dir.as_str(),
                                    chunks.len(),
                                    0,
                                );
                                proof {
                                    assert(chunks.deep_view()[0] == chunks@[0]@);
                                }
                                self.chunks = chunks;
                                self.phase = Phase::AwaitSynthesis { chunk: 0 };
                                Action::Synthesize { text: text0, dest: dest0 }
                            },
                        }
                    },
                }
            },
            Phase::AwaitSubmit { scene } => {
                let i = *scene;
                match event {
                    Event::Submitted { result } => match result {
                        Ok(task_id) => {
                            self.phase = Phase::AwaitSleep {
                                job: JobKind::Image { scene: i },
                                task_id,
                                attempts: 0,
                            };
                            Action::Sleep { ms: self.config.poll.interval_ms }
                        },
                        Err(message) => {
                            self.phase = Phase::Failed;
                            Action::Fail {
                                error: VideoError::ImageGeneration {
                                    scene_index: i,
                                    failure: TaskFailure::Submit { message },
                                },
                            }
                        },
                    },
                    _ => unreached(),
                }
            },
            Phase::AwaitSleep { job, task_id, attempts } => {
                let j = *job;
                let tid = task_id.clone();
                let att = *attempts;
                match event {
                    Event::Slept => {
                        self.phase = Phase::AwaitPoll { job: j, task_id: tid.clone(), attempts: att };
                        Action::PollJob { task_id: tid }
                    },
                    _ => unreached(),
                }
            },
            Phase::AwaitPoll { job, task_id, attempts } => {
                let j = *job;
                let tid = task_id.clone();
                let att = *attempts;
                let outcome = match event {
                    Event::Polled { outcome } => outcome,
                    _ => unreached(),
                };
                match classify(outcome, att, self.config.poll) {
                    TaskVerdict::Continue => {
                        self.phase = Phase::AwaitSleep {
                            job: j,
                            task_id: tid,
                            attempts: att + 1,
                        };
                        Action::Sleep { ms: self.config.poll.interval_ms }
                    },
                    TaskVerdict::Success { locator } => {
                        let dest = match j {
                            JobKind::Image { scene } => scene_image_path(
                                self.config.work_dir.as_str(),
                                scene,
                            ),
                            JobKind::Chunk { chunk } => chunk_dest(
                                self.config.work_dir.as_str(),
                                self.chunks.len(),
                                chunk,
                            ),
                        };
                        self.phase = Phase::AwaitFetch { job: j };
                        Action::FetchAsset { url: locator, dest }
                    },
                    TaskVerdict::Fail { failure } => {
                        let error = match j {
                            JobKind::Image { scene } => VideoError::ImageGeneration {
                                scene_index: scene,
                                failure,
                            },
                            JobKind::Chunk { chunk: _ } => VideoError::Narration { failure },
                        };
                        self.phase = Phase::Failed;
                        Action::Fail { error }
                    },
                }
            },
            Phase::AwaitFetch { job } => {
                let j = *job;
                match event {
                    Event::Fetched { result } => match result {
                        Ok(_) => match j {
                            JobKind::Image { scene } => {
                                let path = scene_image_path(self.config.work_dir.as_str(), scene);
                                self.store.set_image_path(scene, path);
                                self.advance_scene_exec(scene, false)
                            },
                            JobKind::Chunk { chunk } => self.advance_chunk_exec(chunk),
                        },
                        Err(message) => {
                            let error = match j {
                                JobKind::Image { scene } => VideoError::ImageGeneration {
                                    scene_index: scene,
                                    failure: TaskFailure::Fetch { message },
                                },
                                JobKind::Chunk { chunk: _ } => VideoError::Narration {
                                    failure: TaskFailure::Fetch { message },
                                },
                            };
                            self.phase = Phase::Failed;
                            Action::Fail { error }
                        },
                    },
                    _ => unreached(),
                }
            },
            Phase::AwaitSynthesis { chunk } => {
                let c = *chunk;
                match event {
                    Event::SynthesisStarted { result } => match result {
                        Ok(SynthesisStart::Complete) => self.advance_chunk_exec(c),
                        Ok(SynthesisStart::Task { task_id }) => {
                            self.phase = Phase::AwaitSleep {
                                job: JobKind::Chunk { chunk: c },
                                task_id,
                                attempts: 0,
                            };
                            Action::Sleep { ms: self.config.poll.interval_ms }
                        },
                        Err(message) => {
                            self.phase = Phase::Failed;
                            Action::Fail {
                                error: VideoError::Narration {
                                    failure: TaskFailure::Submit { message },
                                },
                            }
                        },
                    },
                    _ => unreached(),
                }
            },
            Phase::AwaitAudioConcat => {
                match event {
                    Event::Rendered { result } => match result {
                        Ok(_) => {
                            let path = chunk_audio_path(self.config.work_dir.as_str(), 0);
                            self.phase = Phase::AwaitChunkDelete { chunk: 0 };
                            Action::Delete { path }
                        },
                        Err(diagnostic) => {
                            self.phase = Phase::Failed;
                            Action::Fail { error: VideoError::Assembly { diagnostic } }
                        },
                    },
                    _ => unreached(),
                }
            },
            Phase::AwaitChunkDelete { chunk } => {
                let c = *chunk;
                match event {
                    Event::Deleted => {
                        let n = self.chunks.len();
                        if c < n - 1 {
                            let path = chunk_audio_path(self.config.work_dir.as_str(), c + 1);
                            self.phase = Phase::AwaitChunkDelete { chunk: c + 1 };
                            Action::Delete { path }
                        } else {
                            self.enter_assembly()
                        }
                    },
                    _ => unreached(),
                }
            },
            Phase::AwaitRender { seg } => {
                let s = *seg;
                match event {
                    Event::Rendered { result } => match result {
                        Ok(_) => {
                            proof {
                                assert(self.jobs@.len() == self.jobs.deep_view().len());
                            }
                            let n = self.jobs.len();
                            if s < n - 1 {
                                let act = Action::RenderStill {
                                    image_path: self.jobs[s + 1].image_path.clone(),
                                    caption: self.jobs[s + 1].caption.clone(),
                                    duration_ms: self.jobs[s + 1].duration_ms,
                                    dest: self.jobs[s + 1].dest.clone(),
                                };
                                self.phase = Phase::AwaitRender { seg: s + 1 };
                                act
                            } else {
                                let inputs = job_dests(&self.jobs);
                                let dest = crate::paths::merged_path(self.config.work_dir.as_str());
                                self.phase = Phase::AwaitVideoConcat;
                                Action::ConcatVideos { inputs, dest }
                            }
                        },
                        Err(diagnostic) => {
                            self.phase = Phase::Failed;
                            Action::Fail { error: VideoError::Assembly { diagnostic } }
                        },
                    },
                    _ => unreached(),
                }
            },
            Phase::AwaitVideoConcat => {
                match event {
                    Event::Rendered { result } => match result {
                        Ok(_) => {
                            let video = crate::paths::merged_path(self.config.work_dir.as_str());
                            let audio = audio_path(self.config.work_dir.as_str());
                            let dest = self.config.output_path.clone();
                            self.phase = Phase::AwaitMux;
                            Action::Mux { video, audio, dest }
                        },
                        Err(diagnostic) => {
                            self.phase = Phase::Failed;
                            Action::Fail { error: VideoError::Assembly { diagnostic } }
                        },
                    },
                    _ => unreached(),
                }
            },
            Phase::AwaitMux => {
                match event {
                    Event::Rendered { result } => match result {
                        Ok(_) => {
                            let mut cl = job_dests(&self.jobs);
                            let merged = crate::paths::merged_path(self.config.work_dir.as_str());
                            cl.insert(0, merged);
                            proof {
                                assert(cl.deep_view() =~= cleanup_spec(
                                    self.config.work_dir@,
                                    self.jobs.deep_view(),
                                ));
                                assert(cl.deep_view()[0] == cl@[0]@);
                            }
                            let path0 = cl[0].clone();
                            self.cleanup = cl;
                            self.phase = Phase::AwaitCleanup { item: 0 };
                            Action::Delete { path: path0 }
                        },
                        Err(diagnostic) => {
                            self.phase = Phase::Failed;
                            Action::Fail { error: VideoError::Assembly { diagnostic } }
                        },
                    },
                    _ => unreached(),
                }
            },
            Phase::AwaitCleanup { item } => {
                let m = *item;
                match event {
                    Event::Deleted => {
                        let n = self.cleanup.len();
                        if m < n - 1 {
                            proof {
                                assert(self.cleanup.deep_view()[m as int + 1] == self.cleanup@[m as int + 1]@);
                            }
                            let path = self.cleanup[m + 1].clone();
                            self.phase = Phase::AwaitCleanup { item: m + 1 };
                            Action::Delete { path }
                        } else {
                            self.phase = Phase::Finished;
                            Action::Done
                        }
                    },
                    _ => unreached(),
                }
            },
            Phase::Finished => unreached(),
            Phase::Failed => unreached(),
        }
    }
}

/// The stage a phase belongs to, in the fixed order of the pipeline:
/// decomposition, image generation, narration, assembly, finished or
/// failed.
pub open spec fn stage_rank(phase: Phase) -> int {
    match phase {
        Phase::AwaitDecomposition => 0,
        Phase::AwaitProbe { target } => match target {
            ProbeTarget::Image { .. } => 1,
            ProbeTarget::SkipImage { .. } => 1,
            ProbeTarget::Audio => 2,
        },
        Phase::AwaitSubmit { .. } => 1,
        Phase::AwaitSleep { job, .. } => match job {
            JobKind::Image { .. } => 1,
            JobKind::Chunk { .. } => 2,
        },
        Phase::AwaitPoll { job, .. } => match job {
            JobKind::Image { .. } => 1,
            JobKind::Chunk { .. } => 2,
        },
        Phase::AwaitFetch { job } => match job {
            JobKind::Image { .. } => 1,
            JobKind::Chunk { .. } => 2,
        },
        Phase::AwaitSynthesis { .. } => 2,
        Phase::AwaitAudioConcat => 2,
        Phase::AwaitChunkDelete { .. } => 2,
        Phase::AwaitRender { .. } => 3,
        Phase::AwaitVideoConcat => 3,
        Phase::AwaitMux => 3,
        Phase::AwaitCleanup { .. } => 3,
        Phase::Finished => 4,
        Phase::Failed => 4,
    }
}

/// Stage ordering: the pipeline's stages run in fixed order with no
/// backward transition — every step keeps or raises the stage.
pub proof fn lemma_stage_order(pre: Pipeline, event: Event, post: Pipeline, act: Action)
    requires
        next_of(pre, event, post, act),
    ensures
        stage_rank(post.phase) >= stage_rank(pre.phase),
{
}

/// Resumability on a cache hit (image stage): when the probe of scene
/// `i`'s deterministic path finds a file, that path is recorded as the
/// scene's image and no generation job is submitted — the machine goes
/// straight on to the next probe.
pub proof fn lemma_image_cache_hit_skips_generation(
    pre: Pipeline,
    post: Pipeline,
    act: Action,
    i: usize,
)
    requires
        pre.wf(),
        pre.phase == (Phase::AwaitProbe { target: ProbeTarget::Image { scene: i } }),
        next_of(pre, Event::Probed { exists: true }, post, act),
    ensures
        post.store@[i as int].image_path is Some,
        !(act is SubmitImageJob),
        act is Probe,
{
}

/// On a cache miss the generator is invoked, exactly once, for exactly the
/// probed scene: the next action is the submission of one image job
/// carrying that scene's prompt.
pub proof fn lemma_image_cache_miss_generates(
    pre: Pipeline,
    post: Pipeline,
    act: Action,
    i: usize,
)
    requires
        pre.wf(),
        pre.phase == (Phase::AwaitProbe { target: ProbeTarget::Image { scene: i } }),
        next_of(pre, Event::Probed { exists: false }, post, act),
    ensures
        post.phase == (Phase::AwaitSubmit { scene: i }),
        act matches Action::SubmitImageJob { prompt } && prompt@ == pre.store@[i as int].description@,
{
}

/// Resumability on a cache hit (narration): when the narration track's
/// path already exists, no synthesis is requested at all — assembly begins
/// at once.
pub proof fn lemma_audio_cache_hit_skips_synthesis(pre: Pipeline, post: Pipeline, act: Action)
    requires
        pre.wf(),
        pre.phase == (Phase::AwaitProbe { target: ProbeTarget::Audio }),
        next_of(pre, Event::Probed { exists: true }, post, act),
    ensures
        !(act is Synthesize),
        stage_rank(post.phase) == 3,
{
}

/// A failed image job aborts the whole run at once: the error names that
/// scene's index, the machine is final, and — since a final machine
/// accepts no event — no later scene is processed.
pub proof fn lemma_image_failure_aborts(
    pre: Pipeline,
    post: Pipeline,
    act: Action,
    i: usize,
    task_id: String,
    attempts: u64,
    outcome: PollOutcome,
)
    requires
        pre.wf(),
        pre.phase == (Phase::AwaitPoll {
            job: JobKind::Image { scene: i },
            task_id,
            attempts,
        }),
        outcome matches PollOutcome::Observed { status: TaskStatus::Failed, locator: _ },
        next_of(pre, Event::Polled { outcome }, post, act),
    ensures
        post.phase == Phase::Failed,
        post.is_final(),
        act == (Action::Fail {
            error: VideoError::ImageGeneration {
                scene_index: i,
                failure: TaskFailure::RemoteTaskFailed,
            },
        }),
{
}

/// A run trace: consecutive states linked by the transition relation,
/// with the event consumed and the action emitted at each step.
pub open spec fn is_trace(states: Seq<Pipeline>, events: Seq<Event>, acts: Seq<Action>) -> bool {
    &&& states.len() == events.len() + 1
    &&& acts.len() == events.len()
    &&& forall|k: int|
        0 <= k < events.len() ==> next_of(states[k], #[trigger] events[k], states[k + 1], acts[k])
}

/// The phases a fully-cached run can stand in: decomposition, probing,
/// and assembly — no generation sub-state.
pub open spec fn cached_run_phase(phase: Phase) -> bool {
    match phase {
        Phase::AwaitDecomposition => true,
        Phase::AwaitProbe { .. } => true,
        Phase::AwaitRender { .. } => true,
        Phase::AwaitVideoConcat => true,
        Phase::AwaitMux => true,
        Phase::AwaitCleanup { .. } => true,
        Phase::Finished => true,
        Phase::Failed => true,
        _ => false,
    }
}

/// Every existence probe along the trace found its file.
pub open spec fn all_probes_hit(events: Seq<Event>) -> bool {
    forall|k: int|
        0 <= k < events.len() ==> ((#[trigger] events[k]) matches Event::Probed { exists }
            ==> exists)
}

#[verifier::rlimit(50)]
proof fn lemma_cached_phase_preserved(
    states: Seq<Pipeline>,
    events: Seq<Event>,
    acts: Seq<Action>,
    k: int,
)
    requires
        is_trace(states, events, acts),
        all_probes_hit(events),
        cached_run_phase(states[0].phase),
        0 <= k < states.len(),
    ensures
        cached_run_phase(states[k].phase),
    decreases k,
{
    if k > 0 {
        lemma_cached_phase_preserved(states, events, acts, k - 1);
        assert(next_of(states[k - 1], events[k - 1], states[k], acts[k - 1]));
    }
}

/// Whole-run resumability: along any run of the machine in which every
/// existence probe finds its file (all assets already materialized by an
/// earlier run), no step submits a generation job and none requests
/// synthesis — the image and narration stages short-circuit entirely, so
/// a re-run never regenerates what is already on disk.
#[verifier::rlimit(50)]
pub proof fn lemma_cached_run_generates_nothing(
    states: Seq<Pipeline>,
    events: Seq<Event>,
    acts: Seq<Action>,
    k: int,
)
    requires
        is_trace(states, events, acts),
        all_probes_hit(events),
        states[0].phase == Phase::AwaitDecomposition,
        0 <= k < acts.len(),
    ensures
        !(acts[k] is SubmitImageJob),
        !(acts[k] is Synthesize),
{
    lemma_cached_phase_preserved(states, events, acts, k);
    assert(next_of(states[k], events[k], states[k + 1], acts[k]));
}

/// A recorded image path is monotonic: once a scene carries one, no step
/// clears or replaces it.
pub proof fn lemma_image_paths_monotonic(
    pre: Pipeline,
    event: Event,
    post: Pipeline,
    act: Action,
    i: int,
)
    requires
        pre.wf(),
        next_of(pre, event, post, act),
        0 <= i < pre.store@.len(),
        pre.store@[i].image_path is Some,
    ensures
        i < post.store@.len(),
        post.store@[i].image_path == pre.store@[i].image_path,
{
}

} // verus!
