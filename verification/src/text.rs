//! Text chunking for the narration service's input-size cap, and the
//! narration script built from scene subtitles.
//!
//! Lengths are counted in characters, not bytes, matching the unit of the
//! remote size cap; a chunk boundary therefore never falls inside a
//! multi-byte character. Chunking is deterministic, pieces are non-empty,
//! each piece is at most the cap long, and the pieces concatenate back to
//! the original text exactly.

use vstd::prelude::*;
use vstd::string::*;
use crate::scene::Scene;

verus! {

/// The chunk plan of `text` under `cap`: greedy pieces of `cap` characters,
/// the last piece shorter where the text runs out. Empty text has an empty
/// plan; text no longer than the cap has a single-piece plan.
pub open spec fn chunk_plan(text: Seq<char>, cap: nat) -> Seq<Seq<char>>
    decreases text.len(),
{
    if cap == 0 {
        Seq::empty()
    } else if text.len() == 0 {
        Seq::empty()
    } else if text.len() <= cap {
        seq![text]
    } else {
        seq![text.take(cap as int)] + chunk_plan(text.skip(cap as int), cap)
    }
}

/// The concatenation, in order and with nothing inserted, of a sequence of
/// pieces.
pub open spec fn concat_all(pieces: Seq<Seq<char>>) -> Seq<char>
    decreases pieces.len(),
{
    if pieces.len() == 0 {
        Seq::empty()
    } else {
        pieces[0] + concat_all(pieces.drop_first())
    }
}

/// Reassembly law: for every text and every positive cap, concatenating the
/// chunk plan's pieces in order yields the original text exactly.
pub proof fn lemma_chunk_plan_reassembles(text: Seq<char>, cap: nat)
    requires
        cap >= 1,
    ensures
        concat_all(chunk_plan(text, cap)) == text,
    decreases text.len(),
{
    if text.len() == 0 {
        assert(concat_all(chunk_plan(text, cap)) =~= text);
    } else if text.len() <= cap {
        let plan = chunk_plan(text, cap);
        assert(plan =~= seq![text]);
        assert(plan.drop_first() =~= Seq::<Seq<char>>::empty());
        assert(concat_all(plan) == plan[0] + concat_all(plan.drop_first()));
        assert(concat_all(plan.drop_first()) == Seq::<char>::empty());
        assert(text + Seq::<char>::empty() =~= text);
    } else {
        let head = text.take(cap as int);
        let tail = text.skip(cap as int);
        lemma_chunk_plan_reassembles(tail, cap);
        let plan = chunk_plan(text, cap);
        assert(plan =~= seq![head] + chunk_plan(tail, cap));
        assert(plan[0] == head);
        assert(plan.drop_first() =~= chunk_plan(tail, cap));
        assert(concat_all(plan) == plan[0] + concat_all(plan.drop_first()));
        assert(head + tail =~= text);
    }
}

/// Bounds law: every piece of a chunk plan under a positive cap is
/// non-empty and at most `cap` characters long.
pub proof fn lemma_chunk_plan_bounds(text: Seq<char>, cap: nat)
    requires
        cap >= 1,
    ensures
        forall|i: int|
            0 <= i < chunk_plan(text, cap).len()
                ==> 0 < (#[trigger] chunk_plan(text, cap)[i]).len() <= cap,
    decreases text.len(),
{
    if text.len() == 0 {
    } else if text.len() <= cap {
    } else {
        let tail = text.skip(cap as int);
        lemma_chunk_plan_bounds(tail, cap);
        assert forall|i: int|
            0 <= i < chunk_plan(text, cap).len()
                implies 0 < (#[trigger] chunk_plan(text, cap)[i]).len() <= cap by {
            if i > 0 {
                assert(chunk_plan(text, cap)[i] == chunk_plan(tail, cap)[i - 1]);
            }
        }
    }
}

/// A text no longer than a positive cap, and not empty, is planned as a
/// single piece holding the whole text: the common case pays no chunking
/// overhead.
pub proof fn lemma_chunk_plan_single_piece(text: Seq<char>, cap: nat)
    requires
        cap >= 1,
        0 < text.len() <= cap,
    ensures
        chunk_plan(text, cap) == seq![text],
{
}

/// Splits `text` into the pieces of its chunk plan under `cap`. The result
/// is exactly `chunk_plan(text@, cap)`: deterministic, every piece
/// non-empty and at most `cap` characters, concatenating to `text`.
pub fn split_chunks(text: &str, cap: usize) -> (pieces: Vec<String>)
    requires
        cap >= 1,
    ensures
        pieces.deep_view() == chunk_plan(text@, cap as nat),
{
    let n = text.unicode_len();
    let mut pieces: Vec<String> = Vec::new();
    let mut start: usize = 0;
    proof {
        assert(text@.skip(0) =~= text@);
        assert(pieces.deep_view() =~= Seq::<Seq<char>>::empty());
        assert(Seq::<Seq<char>>::empty() + chunk_plan(text@, cap as nat)
            =~= chunk_plan(text@, cap as nat));
    }
    while start < n
        invariant
            cap >= 1,
            n == text@.len(),
            start <= n,
            pieces.deep_view() + chunk_plan(text@.skip(start as int), cap as nat)
                =~= chunk_plan(text@, cap as nat),
        decreases n - start,
    {
        let end = if n - start > cap { start + cap } else { n };
        let piece: String = text.substring_char(start, end).to_owned();
        proof {
            let rest = text@.skip(start as int);
            assert(piece@ =~= rest.take((end - start) as int));
            if n - start > cap {
                assert(rest.skip(cap as int) =~= text@.skip(end as int));
                assert(chunk_plan(rest, cap as nat)
                    =~= seq![piece@] + chunk_plan(text@.skip(end as int), cap as nat));
            } else {
                assert(piece@ =~= rest);
                assert(chunk_plan(text@.skip(end as int), cap as nat) =~= Seq::<Seq<char>>::empty());
                assert(chunk_plan(rest, cap as nat)
                    =~= seq![piece@] + chunk_plan(text@.skip(end as int), cap as nat));
            }
        }
        let ghost old_dv = pieces.deep_view();
        pieces.push(piece);
        proof {
            assert(pieces.deep_view() =~= old_dv.push(piece@));
            assert(old_dv.push(piece@) + chunk_plan(text@.skip(end as int), cap as nat)
                =~= old_dv + (seq![piece@] + chunk_plan(text@.skip(end as int), cap as nat)));
        }
        start = end;
    }
    proof {
        assert(chunk_plan(text@.skip(start as int), cap as nat) =~= Seq::<Seq<char>>::empty());
        assert(pieces.deep_view() + Seq::<Seq<char>>::empty() =~= pieces.deep_view());
    }
    pieces
}

/// Joins pieces back in order with no separator; the inverse of
/// `split_chunks` by `lemma_chunk_plan_reassembles`.
pub fn join_chunks(pieces: &Vec<String>) -> (joined: String)
    ensures
        joined@ == concat_all(pieces.deep_view()),
{
    let mut joined = String::new();
    let mut i: usize = 0;
    proof {
        assert(pieces.deep_view().skip(0) =~= pieces.deep_view());
        assert(Seq::<char>::empty() + concat_all(pieces.deep_view()) =~= concat_all(pieces.deep_view()));
    }
    while i < pieces.len()
        invariant
            i <= pieces@.len(),
            joined@ + concat_all(pieces.deep_view().skip(i as int)) =~= concat_all(pieces.deep_view()),
        decreases pieces@.len() - i,
    {
        proof {
            let dv = pieces.deep_view();
            let rest = dv.skip(i as int);
            assert(rest[0] == dv[i as int]);
            assert(rest.drop_first() =~= dv.skip(i as int + 1));
        }
        joined.append(pieces[i].as_str());
        i = i + 1;
    }
    proof {
        assert(concat_all(pieces.deep_view().skip(i as int)) =~= Seq::<char>::empty());
        assert(joined@ + Seq::<char>::empty() =~= joined@);
    }
    joined
}

/// The narration script of a scene sequence: every subtitle, in index
/// order, joined with the fixed sentence separator; nothing trailing.
pub open spec fn script_of(scenes: Seq<Scene>) -> Seq<char>
    decreases scenes.len(),
{
    if scenes.len() == 0 {
        Seq::empty()
    } else if scenes.len() == 1 {
        scenes[0].subtitle@
    } else {
        scenes[0].subtitle@ + "\u{3002}"@ + script_of(scenes.drop_first())
    }
}

/// Builds the narration script of `scenes`: subtitles joined in order with
/// the sentence separator.
pub fn build_script(scenes: &Vec<Scene>) -> (script: String)
    ensures
        script@ == script_of(scenes@),
{
    let mut script = String::new();
    let mut i: usize = 0;
    while i < scenes.len()
        invariant
            i <= scenes@.len(),
            i == 0 ==> script@ =~= Seq::<char>::empty(),
            i > 0 ==> script@ + tail_script_of(scenes@.skip(i as int)) =~= script_of(scenes@),
        decreases scenes@.len() - i,
    {
        if i > 0 {
            proof {
                let rest = scenes@.skip(i as int);
                assert(rest[0] == scenes@[i as int]);
                assert(rest.drop_first() =~= scenes@.skip(i as int + 1));
            }
            script.append("\u{3002}");
            script.append(scenes[i].subtitle.as_str());
        } else {
            proof {
                let rest = scenes@.skip(0);
                assert(rest =~= scenes@);
                lemma_script_unfold(scenes@);
            }
            script.append(scenes[i].subtitle.as_str());
        }
        proof {
            assert(scenes@.skip(i as int).drop_first() =~= scenes@.skip(i as int + 1));
        }
        i = i + 1;
    }
    proof {
        if scenes@.len() == 0 {
        } else {
            assert(tail_script_of(scenes@.skip(i as int)) =~= Seq::<char>::empty());
            assert(script@ + Seq::<char>::empty() =~= script@);
        }
    }
    script
}

/// The trailing part of a script: a leading separator before each further
/// subtitle.
pub open spec fn tail_script_of(scenes: Seq<Scene>) -> Seq<char>
    decreases scenes.len(),
{
    if scenes.len() == 0 {
        Seq::empty()
    } else {
        "\u{3002}"@ + scenes[0].subtitle@ + tail_script_of(scenes.drop_first())
    }
}

/// The script is the first subtitle followed by the separator-led tail.
pub proof fn lemma_script_unfold(scenes: Seq<Scene>)
    requires
        scenes.len() > 0,
    ensures
        script_of(scenes) == scenes[0].subtitle@ + tail_script_of(scenes.drop_first()),
    decreases scenes.len(),
{
    if scenes.len() == 1 {
        assert(tail_script_of(scenes.drop_first()) =~= Seq::<char>::empty());
        assert(scenes[0].subtitle@ + Seq::<char>::empty() =~= scenes[0].subtitle@);
    } else {
        lemma_script_unfold(scenes.drop_first());
        assert(scenes[0].subtitle@ + ("\u{3002}"@ + scenes.drop_first()[0].subtitle@
            + tail_script_of(scenes.drop_first().drop_first()))
            =~= scenes[0].subtitle@ + "\u{3002}"@ + script_of(scenes.drop_first()));
    }
}

} // verus!
