//! Segment assembly planning for the external media renderer.
//!
//! One timed video segment is planned per scene that has an image: a
//! fixed-duration clip from the single still with the scene's subtitle
//! burned in. Scenes without an image are silently skipped — a scene may
//! legitimately contribute subtitle-only audio with no visual. Segments
//! are concatenated in scene-index order and the narration track is muxed
//! on last, trimmed to the shorter stream; the renderer itself is an
//! external process driven by the embedding program.

use vstd::prelude::*;
use vstd::string::*;
use crate::scene::Scene;
use crate::paths::{segment_path, segment_path_spec, merged_path, merged_path_spec};

verus! {

/// Ghost record of one still-image segment render request.
pub struct StillJobSpec {
    pub image_path: Seq<char>,
    pub caption: Seq<char>,
    pub duration_ms: u64,
    pub dest: Seq<char>,
}

/// One renderer request: a fixed-duration video segment from a single
/// still image, with the caption burned in, written to `dest`.
#[derive(Debug)]
pub struct StillJob {
    pub image_path: String,
    pub caption: String,
    pub duration_ms: u64,
    pub dest: String,
}

impl DeepView for StillJob {
    type V = StillJobSpec;

    open spec fn deep_view(&self) -> StillJobSpec {
        StillJobSpec {
            image_path: self.image_path@,
            caption: self.caption@,
            duration_ms: self.duration_ms,
            dest: self.dest@,
        }
    }
}

/// The segment request a scene with an image gives rise to.
pub open spec fn job_of_scene(s: Scene, dir: Seq<char>) -> StillJobSpec {
    StillJobSpec {
        image_path: s.image_path->Some_0@,
        caption: s.subtitle@,
        duration_ms: s.duration_ms,
        dest: segment_path_spec(dir, s.index as nat),
    }
}

/// The segment plan of a scene sequence: one request per scene with an
/// image, in scene order; scenes without one are skipped.
pub open spec fn segment_plan_spec(scenes: Seq<Scene>, dir: Seq<char>) -> Seq<StillJobSpec>
    decreases scenes.len(),
{
    if scenes.len() == 0 {
        Seq::empty()
    } else {
        let rest = segment_plan_spec(scenes.drop_last(), dir);
        if scenes.last().image_path is Some {
            rest.push(job_of_scene(scenes.last(), dir))
        } else {
            rest
        }
    }
}

/// The destinations of a job sequence, in order.
pub open spec fn dests_of(jobs: Seq<StillJobSpec>) -> Seq<Seq<char>> {
    jobs.map_values(|j: StillJobSpec| j.dest)
}

/// Plans and names the assembly of the final video inside one working
/// directory.
#[derive(Debug)]
pub struct VideoGenerator {
    output_dir: String,
}

impl VideoGenerator {
    /// The working directory the plan is rooted in.
    pub closed spec fn dir(self) -> Seq<char> {
        self.output_dir@
    }

    pub fn new(output_dir: String) -> (g: VideoGenerator)
        ensures
            g.dir() == output_dir@,
    {
        VideoGenerator { output_dir }
    }

    /// Plans one segment per scene with an image, in scene order.
    pub fn plan_segments(&self, scenes: &Vec<Scene>) -> (jobs: Vec<StillJob>)
        ensures
            jobs.deep_view() == segment_plan_spec(scenes@, self.dir()),
    {
        let mut jobs: Vec<StillJob> = Vec::new();
        let mut i: usize = 0;
        proof {
            assert(scenes@.take(0) =~= Seq::<Scene>::empty());
            assert(jobs.deep_view() =~= segment_plan_spec(scenes@.take(0), self.dir()));
        }
        while i < scenes.len()
            invariant
                i <= scenes@.len(),
                jobs.deep_view() =~= segment_plan_spec(scenes@.take(i as int), self.dir()),
            decreases scenes@.len() - i,
        {
            proof {
                assert(scenes@.take(i as int + 1).drop_last() =~= scenes@.take(i as int));
                assert(scenes@.take(i as int + 1).last() == scenes@[i as int]);
            }
            let scene = &scenes[i];
            match &scene.image_path {
                Some(p) => {
                    let ghost old_dv = jobs.deep_view();
                    let job = StillJob {
                        image_path: p.clone(),
                        caption: scene.subtitle.clone(),
                        duration_ms: scene.duration_ms,
                        dest: segment_path(self.output_dir.as_str(), scene.index),
                    };
                    jobs.push(job);
                    proof {
                        assert(jobs.deep_view() =~= old_dv.push(job_of_scene(scenes@[i as int], self.dir())));
                    }
                },
                None => {},
            }
            i = i + 1;
        }
        proof {
            assert(scenes@.take(i as int) =~= scenes@);
        }
        jobs
    }

    /// The pre-mux concatenated video's path.
    pub fn merged_output(&self) -> (p: String)
        ensures
            p@ == merged_path_spec(self.dir()),
    {
        merged_path(self.output_dir.as_str())
    }
}

/// Collects the destinations of a job list, in order.
pub fn job_dests(jobs: &Vec<StillJob>) -> (v: Vec<String>)
    ensures
        v.deep_view() == dests_of(jobs.deep_view()),
{
    let mut v: Vec<String> = Vec::new();
    let mut i: usize = 0;
    proof {
        assert(v.deep_view() =~= dests_of(jobs.deep_view()).take(0));
    }
    while i < jobs.len()
        invariant
            i <= jobs@.len(),
            v.deep_view() =~= dests_of(jobs.deep_view()).take(i as int),
        decreases jobs@.len() - i,
    {
        let ghost old_dv = v.deep_view();
        v.push(jobs[i].dest.clone());
        proof {
            assert(v.deep_view() =~= old_dv.push(jobs.deep_view()[i as int].dest));
            assert(v.deep_view() =~= dests_of(jobs.deep_view()).take(i as int + 1));
        }
        i = i + 1;
    }
    proof {
        assert(dests_of(jobs.deep_view()).take(i as int) =~= dests_of(jobs.deep_view()));
    }
    v
}

/// How one caption character reads inside the renderer's burn-in filter:
/// backslash, apostrophe, colon and comma are escaped, every other
/// character stands as it is.
pub open spec fn escape_of(c: char) -> Seq<char> {
    if c == '\\' {
        seq!['\\', '\\']
    } else if c == '\'' {
        seq!['\'', '\\', '\'', '\'']
    } else if c == ':' {
        seq!['\\', ':']
    } else if c == ',' {
        seq!['\\', ',']
    } else {
        seq![c]
    }
}

/// A whole caption, escaped character by character, in order.
pub open spec fn escaped_caption(s: Seq<char>) -> Seq<char>
    decreases s.len(),
{
    if s.len() == 0 {
        Seq::empty()
    } else {
        escaped_caption(s.drop_last()) + escape_of(s.last())
    }
}

/// Escapes a caption for the renderer's burn-in filter.
pub fn escape_caption(s: &str) -> (r: String)
    ensures
        r@ == escaped_caption(s@),
{
    let n = s.unicode_len();
    let mut r = String::new();
    let mut i: usize = 0;
    proof {
        assert(s@.take(0) =~= Seq::<char>::empty());
        assert(r@ =~= escaped_caption(s@.take(0)));
    }
    while i < n
        invariant
            n == s@.len(),
            i <= n,
            r@ =~= escaped_caption(s@.take(i as int)),
        decreases n - i,
    {
        proof {
            assert(s@.take(i as int + 1).drop_last() =~= s@.take(i as int));
            assert(s@.take(i as int + 1).last() == s@[i as int]);
        }
        let c = s.get_char(i);
        if c == '\\' {
            proof {
                reveal_strlit("\\\\");
                assert("\\\\"@ =~= escape_of(c));
            }
            r.append("\\\\");
        } else if c == '\'' {
            proof {
                reveal_strlit("'\\''");
                assert("'\\''"@ =~= escape_of(c));
            }
            r.append("'\\''");
        } else if c == ':' {
            proof {
                reveal_strlit("\\:");
                assert("\\:"@ =~= escape_of(c));
            }
            r.append("\\:");
        } else if c == ',' {
            proof {
                reveal_strlit("\\,");
                assert("\\,"@ =~= escape_of(c));
            }
            r.append("\\,");
        } else {
            let piece = s.substring_char(i, i + 1);
            proof {
                assert(piece@ =~= escape_of(c));
            }
            r.append(piece);
        }
        i = i + 1;
    }
    proof {
        assert(s@.take(i as int) =~= s@);
    }
    r
}

/// The renderer's concatenation manifest for an ordered input list: one
/// `file '<path>'` line per input, in order. Inputs are listed exactly as
/// given; making them absolute is the embedding program's duty before the
/// manifest is built.
pub open spec fn manifest_of(paths: Seq<Seq<char>>) -> Seq<char>
    decreases paths.len(),
{
    if paths.len() == 0 {
        Seq::empty()
    } else {
        manifest_of(paths.drop_last()) + "file '"@ + paths.last() + "'\n"@
    }
}

/// Builds the concatenation manifest for `paths`.
pub fn concat_manifest(paths: &Vec<String>) -> (m: String)
    ensures
        m@ == manifest_of(paths.deep_view()),
{
    let mut m = String::new();
    let mut i: usize = 0;
    proof {
        assert(paths.deep_view().take(0) =~= Seq::<Seq<char>>::empty());
        assert(m@ =~= manifest_of(paths.deep_view().take(0)));
    }
    while i < paths.len()
        invariant
            i <= paths@.len(),
            m@ =~= manifest_of(paths.deep_view().take(i as int)),
        decreases paths@.len() - i,
    {
        proof {
            assert(paths.deep_view().take(i as int + 1).drop_last() =~= paths.deep_view().take(i as int));
            assert(paths.deep_view().take(i as int + 1).last() == paths.deep_view()[i as int]);
        }
        m.append("file '");
        m.append(paths[i].as_str());
        m.append("'\n");
        i = i + 1;
    }
    proof {
        assert(paths.deep_view().take(i as int) =~= paths.deep_view());
    }
    m
}

} // verus!
