use vstd::prelude::*;

use crate::classify::{classify, classify_spec};
use crate::color::{color_of_rules, ColorCode};
use crate::frame::{encode_assignment, frame_spec};
use crate::observation::Observation;

verus! {

/// The frames one refresh tick writes, given the completed fetch results
/// in iteration order: one frame per classifiable observation, in order,
/// and nothing for an observation whose classification fails.
pub open spec fn tick_frames_spec(results: Seq<(u16, Observation)>) -> Seq<Seq<u8>>
    decreases results.len(),
{
    if results.len() == 0 {
        Seq::<Seq<u8>>::empty()
    } else {
        let rest = tick_frames_spec(results.drop_last());
        let last = results.last();
        match classify_spec(last.1) {
            Ok(fr) => rest.push(frame_spec(last.0, color_of_rules(fr))),
            Err(_) => rest,
        }
    }
}

/// Computes the frames to write for one refresh tick from the completed
/// `(LED index, observation)` results. An observation whose classification
/// fails yields no frame and does not disturb the others.
pub fn tick_frames(results: &Vec<(u16, Observation)>) -> (r: Vec<Vec<u8>>)
    ensures
        r@.map_values(|f: Vec<u8>| f@) == tick_frames_spec(results@),
{
    let mut out: Vec<Vec<u8>> = Vec::new();
    let n = results.len();
    for i in 0..n
        invariant
            n == results@.len(),
            out@.map_values(|f: Vec<u8>| f@) == tick_frames_spec(results@.take(i as int)),
    {
        let pair = &results[i];
        proof {
            assert(results@.take(i + 1).drop_last() =~= results@.take(i as int));
            assert(results@.take(i + 1).last() == results@[i as int]);
        }
        match classify(&pair.1) {
            Ok(fr) => {
                let frame = encode_assignment(pair.0, ColorCode::from(fr));
                let ghost prev = out@;
                out.push(frame);
                proof {
                    assert(out@.map_values(|f: Vec<u8>| f@) =~= prev.map_values(
                        |f: Vec<u8>| f@,
                    ).push(frame@));
                }
            },
            Err(_) => {},
        }
    }
    proof {
        assert(results@.take(n as int) =~= results@);
    }
    out
}

/// The tick-level error policy: a result whose classification fails is
/// skipped, and every other result's frame is still written, unchanged and
/// in order — inserting a failing result anywhere changes nothing.
pub proof fn lemma_tick_skips_failures(
    results: Seq<(u16, Observation)>,
    i: int,
    bad: (u16, Observation),
)
    requires
        0 <= i <= results.len(),
        classify_spec(bad.1) is Err,
    ensures
        tick_frames_spec(results.insert(i, bad)) == tick_frames_spec(results),
    decreases results.len(),
{
    let s = results.insert(i, bad);
    if i == results.len() {
        assert(s.drop_last() =~= results);
        assert(s.last() == bad);
    } else {
        assert(s.last() == results.last());
        assert(s.drop_last() =~= results.drop_last().insert(i, bad));
        lemma_tick_skips_failures(results.drop_last(), i, bad);
    }
}

} // verus!
