//! The deterministic file layout inside one working directory.
//!
//! Scene images, the narration track and the transient assembly files all
//! have paths derived from the working directory and an index alone, so a
//! re-run probes exactly the paths an earlier run wrote: this is the
//! resumability key.

use vstd::prelude::*;
use vstd::string::*;

verus! {

/// The decimal digit character for `d` (defined for `d < 10`).
pub open spec fn digit_char(d: nat) -> char
    recommends
        d < 10,
{
    if d == 0 {
        '0'
    } else if d == 1 {
        '1'
    } else if d == 2 {
        '2'
    } else if d == 3 {
        '3'
    } else if d == 4 {
        '4'
    } else if d == 5 {
        '5'
    } else if d == 6 {
        '6'
    } else if d == 7 {
        '7'
    } else if d == 8 {
        '8'
    } else {
        '9'
    }
}

/// The decimal rendering of `n`, no sign and no leading zero (except for
/// zero itself).
pub open spec fn dec_digits(n: nat) -> Seq<char>
    decreases n,
{
    if n < 10 {
        seq![digit_char(n)]
    } else {
        dec_digits(n / 10).push(digit_char(n % 10))
    }
}

fn digit_str(d: u64) -> (s: &'static str)
    requires
        d < 10,
    ensures
        s@ == seq![digit_char(d as nat)],
{
    if d == 0 {
        proof { reveal_strlit("0"); }
        let s = "0";
        proof { assert(s@ =~= seq![digit_char(d as nat)]); }
        s
    } else if d == 1 {
        proof { reveal_strlit("1"); }
        let s = "1";
        proof { assert(s@ =~= seq![digit_char(d as nat)]); }
        s
    } else if d == 2 {
        proof { reveal_strlit("2"); }
        let s = "2";
        proof { assert(s@ =~= seq![digit_char(d as nat)]); }
        s
    } else if d == 3 {
        proof { reveal_strlit("3"); }
        let s = "3";
        proof { assert(s@ =~= seq![digit_char(d as nat)]); }
        s
    } else if d == 4 {
        proof { reveal_strlit("4"); }
        let s = "4";
        proof { assert(s@ =~= seq![digit_char(d as nat)]); }
        s
    } else if d == 5 {
        proof { reveal_strlit("5"); }
        let s = "5";
        proof { assert(s@ =~= seq![digit_char(d as nat)]); }
        s
    } else if d == 6 {
        proof { reveal_strlit("6"); }
        let s = "6";
        proof { assert(s@ =~= seq![digit_char(d as nat)]); }
        s
    } else if d == 7 {
        proof { reveal_strlit("7"); }
        let s = "7";
        proof { assert(s@ =~= seq![digit_char(d as nat)]); }
        s
    } else if d == 8 {
        proof { reveal_strlit("8"); }
        let s = "8";
        proof { assert(s@ =~= seq![digit_char(d as nat)]); }
        s
    } else {
        proof { reveal_strlit("9"); }
        let s = "9";
        proof { assert(s@ =~= seq![digit_char(d as nat)]); }
        s
    }
}

/// Renders `n` in decimal.
pub fn u64_to_string(n: u64) -> (s: String)
    ensures
        s@ == dec_digits(n as nat),
    decreases n,
{
    if n < 10 {
        digit_str(n).to_owned()
    } else {
        let mut s = u64_to_string(n / 10);
        s.append(digit_str(n % 10));
        proof {
            assert(s@ =~= dec_digits((n / 10) as nat).push(digit_char((n % 10) as nat)));
        }
        s
    }
}

/// The deterministic image path of the scene with `index`.
pub open spec fn scene_image_path_spec(work_dir: Seq<char>, index: nat) -> Seq<char> {
    work_dir + "/scene_"@ + dec_digits(index) + ".png"@
}

/// The single narration track's path.
pub open spec fn audio_path_spec(work_dir: Seq<char>) -> Seq<char> {
    work_dir + "/audio.mp3"@
}

/// The transient path of narration chunk `index` (only when the script was
/// split into two or more chunks).
pub open spec fn chunk_audio_path_spec(work_dir: Seq<char>, index: nat) -> Seq<char> {
    work_dir + "/audio_chunk_"@ + dec_digits(index) + ".mp3"@
}

/// The transient video segment path of the scene with `index`.
pub open spec fn segment_path_spec(work_dir: Seq<char>, index: nat) -> Seq<char> {
    work_dir + "/segment_"@ + dec_digits(index) + ".mp4"@
}

/// The transient pre-mux concatenated video's path.
pub open spec fn merged_path_spec(work_dir: Seq<char>) -> Seq<char> {
    work_dir + "/merged.mp4"@
}

pub fn scene_image_path(work_dir: &str, index: usize) -> (p: String)
    ensures
        p@ == scene_image_path_spec(work_dir@, index as nat),
{
    let mut p = work_dir.to_owned();
    p.append("/scene_");
    let digits = u64_to_string(index as u64);
    p.append(digits.as_str());
    p.append(".png");
    p
}

pub fn audio_path(work_dir: &str) -> (p: String)
    ensures
        p@ == audio_path_spec(work_dir@),
{
    let mut p = work_dir.to_owned();
    p.append("/audio.mp3");
    p
}

pub fn chunk_audio_path(work_dir: &str, index: usize) -> (p: String)
    ensures
        p@ == chunk_audio_path_spec(work_dir@, index as nat),
{
    let mut p = work_dir.to_owned();
    p.append("/audio_chunk_");
    let digits = u64_to_string(index as u64);
    p.append(digits.as_str());
    p.append(".mp3");
    p
}

pub fn segment_path(work_dir: &str, index: usize) -> (p: String)
    ensures
        p@ == segment_path_spec(work_dir@, index as nat),
{
    let mut p = work_dir.to_owned();
    p.append("/segment_");
    let digits = u64_to_string(index as u64);
    p.append(digits.as_str());
    p.append(".mp4");
    p
}

/// The ordered transient chunk-audio paths for `n` chunks.
pub open spec fn chunk_paths_spec(work_dir: Seq<char>, n: nat) -> Seq<Seq<char>>
    decreases n,
{
    if n == 0 {
        Seq::empty()
    } else {
        chunk_paths_spec(work_dir, (n - 1) as nat).push(
            chunk_audio_path_spec(work_dir, (n - 1) as nat),
        )
    }
}

/// Builds the ordered transient chunk-audio path list for `n` chunks.
pub fn chunk_paths(work_dir: &str, n: usize) -> (v: Vec<String>)
    ensures
        v.deep_view() == chunk_paths_spec(work_dir@, n as nat),
{
    let mut v: Vec<String> = Vec::new();
    let mut i: usize = 0;
    proof {
        assert(v.deep_view() =~= chunk_paths_spec(work_dir@, 0));
    }
    while i < n
        invariant
            i <= n,
            v.deep_view() =~= chunk_paths_spec(work_dir@, i as nat),
        decreases n - i,
    {
        let ghost old_dv = v.deep_view();
        v.push(chunk_audio_path(work_dir, i));
        proof {
            assert(v.deep_view() =~= old_dv.push(chunk_audio_path_spec(work_dir@, i as nat)));
        }
        i = i + 1;
    }
    v
}

pub fn merged_path(work_dir: &str) -> (p: String)
    ensures
        p@ == merged_path_spec(work_dir@),
{
    let mut p = work_dir.to_owned();
    p.append("/merged.mp4");
    p
}

} // verus!
