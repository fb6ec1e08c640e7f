//! Scenes and the ordered scene store.
//!
//! A scene is one storyboard unit: an image prompt, a subtitle line, a
//! duration, and the path of its generated image once that exists. The
//! store owns the scenes of one run; indexes are contiguous from zero and
//! equal each scene's position in the decomposition response.

use vstd::prelude::*;
use vstd::string::*;
use crate::errors::VideoError;

verus! {

/// One storyboard record as the decomposition capability delivers it:
/// an image prompt, a subtitle line, and a duration in milliseconds.
/// A well-formed record has a positive duration.
#[derive(Debug, Clone)]
pub struct SceneRecord {
    pub description: String,
    pub subtitle: String,
    pub duration_ms: u64,
}

/// One storyboard unit. `index` is the scene's stable identity and equals
/// its position in the decomposition response; `image_path` starts unset
/// and is set at most once, never cleared afterwards.
#[derive(Debug, Clone)]
pub struct Scene {
    pub index: usize,
    pub description: String,
    pub subtitle: String,
    pub image_path: Option<String>,
    pub duration_ms: u64,
}

impl Scene {
    /// A scene's duration is positive: a zero-length segment is not a
    /// storyboard unit.
    pub open spec fn wf(self) -> bool {
        self.duration_ms > 0
    }

    pub fn new(index: usize, description: String, subtitle: String, duration_ms: u64) -> (s: Scene)
        ensures
            s.index == index,
            s.description == description,
            s.subtitle == subtitle,
            s.image_path is None,
            s.duration_ms == duration_ms,
    {
        Scene { index, description, subtitle, image_path: None, duration_ms }
    }
}

/// The scenes a record sequence decomposes into: each record becomes a
/// scene carrying the index of its position, with no image yet.
pub open spec fn scenes_of(records: Seq<SceneRecord>) -> Seq<Scene> {
    Seq::new(
        records.len(),
        |i: int| Scene {
            index: i as usize,
            description: records[i].description,
            subtitle: records[i].subtitle,
            image_path: None,
            duration_ms: records[i].duration_ms,
        },
    )
}

/// The ordered scene collection of one pipeline run.
#[derive(Debug)]
pub struct SceneStore {
    scenes: Vec<Scene>,
}

impl View for SceneStore {
    type V = Seq<Scene>;

    closed spec fn view(&self) -> Seq<Scene> {
        self.scenes@
    }
}

impl SceneStore {
    /// Ordering invariant: every scene carries `index` equal to its
    /// position in the store, and every duration is positive.
    pub open spec fn wf(self) -> bool {
        forall|i: int|
            0 <= i < self@.len() ==> (#[trigger] self@[i]).index == i && self@[i].wf()
    }

    /// A store with no scenes, as a run holds before decomposition.
    pub fn empty() -> (s: SceneStore)
        ensures
            s@ == Seq::<Scene>::empty(),
            s.wf(),
    {
        SceneStore { scenes: Vec::new() }
    }

    /// Builds the store from the decomposition response, assigning each
    /// scene the index of its position in the response. Rejects the
    /// response if any record's duration is not positive: such a response
    /// violates the decomposition shape contract and is fatal.
    pub fn from_records(records: Vec<SceneRecord>) -> (r: Result<SceneStore, VideoError>)
        ensures
            r is Ok <==> (forall|i: int|
                0 <= i < records@.len() ==> (#[trigger] records@[i]).duration_ms > 0),
            r matches Ok(store) ==> store.wf() && store@ == scenes_of(records@),
            r matches Err(e) ==> (e matches VideoError::Decomposition { message }
                && message@ == "scene record with non-positive duration"@),
    {
        let mut scenes: Vec<Scene> = Vec::new();
        let mut i: usize = 0;
        while i < records.len()
            invariant
                i <= records@.len(),
                scenes@.len() == i,
                forall|j: int| 0 <= j < i ==> (#[trigger] records@[j]).duration_ms > 0,
                forall|j: int| 0 <= j < i ==> {
                    &&& (#[trigger] scenes@[j]).index == j
                    &&& scenes@[j].description == records@[j].description
                    &&& scenes@[j].subtitle == records@[j].subtitle
                    &&& scenes@[j].image_path is None
                    &&& scenes@[j].duration_ms == records@[j].duration_ms
                },
            decreases records@.len() - i,
        {
            let rec = &records[i];
            if rec.duration_ms == 0 {
                return Err(VideoError::Decomposition {
                    message: String::from_str("scene record with non-positive duration"),
                });
            }
            let scene = Scene::new(i, rec.description.clone(), rec.subtitle.clone(), rec.duration_ms);
            scenes.push(scene);
            i = i + 1;
        }
        proof {
            assert(scenes@ =~= scenes_of(records@));
        }
        Ok(SceneStore { scenes })
    }

    pub fn len(&self) -> (n: usize)
        ensures
            n == self@.len(),
    {
        self.scenes.len()
    }

    /// The scenes themselves, in store order.
    pub fn scenes_vec(&self) -> (v: &Vec<Scene>)
        ensures
            v@ == self@,
    {
        &self.scenes
    }

    pub fn scene(&self, i: usize) -> (s: &Scene)
        requires
            i < self@.len(),
        ensures
            *s == self@[i as int],
    {
        &self.scenes[i]
    }

    /// Records the image asset of scene `i`. The path is set exactly once:
    /// callers may not overwrite an already-recorded path, and nothing ever
    /// clears one (the field is monotonic).
    pub fn set_image_path(&mut self, i: usize, path: String)
        requires
            i < old(self)@.len(),
            old(self)@[i as int].image_path is None,
        ensures
            final(self)@ == old(self)@.update(
                i as int,
                Scene { image_path: Some(path), ..old(self)@[i as int] },
            ),
            old(self).wf() ==> final(self).wf(),
    {
        let index = self.scenes[i].index;
        let description = self.scenes[i].description.clone();
        let subtitle = self.scenes[i].subtitle.clone();
        let duration_ms = self.scenes[i].duration_ms;
        let updated = Scene { index, description, subtitle, image_path: Some(path), duration_ms };
        self.scenes[i] = updated;
    }
}

} // verus!
