use auto_video::cache::{ensure_step, CacheDecision};
use auto_video::paths::{
    audio_path, chunk_audio_path, chunk_paths, merged_path, scene_image_path, segment_path,
    u64_to_string,
};
use auto_video::render::{concat_manifest, escape_caption, job_dests, VideoGenerator};
use auto_video::scene::{SceneRecord, SceneStore};

#[test]
fn decimal_rendering() {
    assert_eq!(u64_to_string(0), "0");
    assert_eq!(u64_to_string(7), "7");
    assert_eq!(u64_to_string(10), "10");
    assert_eq!(u64_to_string(105), "105");
    assert_eq!(u64_to_string(18446744073709551615), "18446744073709551615");
}

#[test]
fn deterministic_paths_inside_the_working_directory() {
    assert_eq!(scene_image_path("./output", 0), "./output/scene_0.png");
    assert_eq!(scene_image_path("./output", 12), "./output/scene_12.png");
    assert_eq!(audio_path("./output"), "./output/audio.mp3");
    assert_eq!(chunk_audio_path("./output", 2), "./output/audio_chunk_2.mp3");
    assert_eq!(segment_path("./output", 1), "./output/segment_1.mp4");
    assert_eq!(merged_path("./output"), "./output/merged.mp4");
}

#[test]
fn chunk_path_list_is_ordered() {
    let v = chunk_paths("wd", 3);
    assert_eq!(v, vec!["wd/audio_chunk_0.mp3", "wd/audio_chunk_1.mp3", "wd/audio_chunk_2.mp3"]);
}

#[test]
fn existing_file_is_reused_missing_file_is_generated() {
    assert_eq!(ensure_step(true), CacheDecision::Reuse);
    assert_eq!(ensure_step(false), CacheDecision::Generate);
}

fn store_with_images() -> SceneStore {
    let records = vec![
        SceneRecord { description: "a".to_owned(), subtitle: "one".to_owned(), duration_ms: 3000 },
        SceneRecord { description: "b".to_owned(), subtitle: "two".to_owned(), duration_ms: 4000 },
        SceneRecord { description: "c".to_owned(), subtitle: "three".to_owned(), duration_ms: 2000 },
    ];
    let mut store = SceneStore::from_records(records).unwrap();
    store.set_image_path(0, "wd/scene_0.png".to_owned());
    store.set_image_path(2, "wd/scene_2.png".to_owned());
    store
}

#[test]
fn segment_plan_skips_scenes_without_an_image_and_keeps_order() {
    let store = store_with_images();
    let gen = VideoGenerator::new("wd".to_owned());
    let jobs = gen.plan_segments(store.scenes_vec());
    assert_eq!(jobs.len(), 2);
    assert_eq!(jobs[0].image_path, "wd/scene_0.png");
    assert_eq!(jobs[0].caption, "one");
    assert_eq!(jobs[0].duration_ms, 3000);
    assert_eq!(jobs[0].dest, "wd/segment_0.mp4");
    assert_eq!(jobs[1].image_path, "wd/scene_2.png");
    assert_eq!(jobs[1].caption, "three");
    assert_eq!(jobs[1].duration_ms, 2000);
    assert_eq!(jobs[1].dest, "wd/segment_2.mp4");
    let dests = job_dests(&jobs);
    assert_eq!(dests, vec!["wd/segment_0.mp4", "wd/segment_2.mp4"]);
}

#[test]
fn manifest_lists_inputs_in_order() {
    let paths = vec!["/abs/one.mp4".to_owned(), "/abs/two.mp4".to_owned()];
    let m = concat_manifest(&paths);
    assert_eq!(m, "file '/abs/one.mp4'\nfile '/abs/two.mp4'\n");
}

#[test]
fn manifest_of_nothing_is_empty() {
    let m = concat_manifest(&Vec::new());
    assert_eq!(m, "");
}

#[test]
fn caption_escaping_for_the_burn_in_filter() {
    assert_eq!(escape_caption("plain words"), "plain words");
    assert_eq!(escape_caption("a:b"), "a\\:b");
    assert_eq!(escape_caption("a,b"), "a\\,b");
    assert_eq!(escape_caption("back\\slash"), "back\\\\slash");
    assert_eq!(escape_caption("it's"), "it'\\''s");
    assert_eq!(escape_caption(""), "");
    assert_eq!(escape_caption("\u{4e00}:\u{4e8c}"), "\u{4e00}\\:\u{4e8c}");
}
