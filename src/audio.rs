use vstd::prelude::*;
use crate::text::{decimal, to_decimal};

verus! {

/// The number of adjacent pairs in `signs` whose entries differ.
pub open spec fn crossings_in(signs: Seq<bool>) -> nat
    decreases signs.len(),
{
    if signs.len() < 2 {
        0
    } else {
        let rest = crossings_in(signs.drop_last());
        if signs[signs.len() - 2] != signs.last() { rest + 1 } else { rest }
    }
}

/// The zero-crossing count of a signal, given for each sample whether it is
/// non-negative: the number of adjacent samples on opposite sides of zero.
pub fn zero_crossings(non_negative: &Vec<bool>) -> (r: usize)
    ensures
        r == crossings_in(non_negative@),
        r == flip_positions(non_negative@).len(),
{
    proof {
        lemma_crossings_are_flips(non_negative@);
    }
    let n = non_negative.len();
    if n < 2 {
        return 0;
    }
    let mut count: usize = 0;
    let mut i: usize = 1;
    while i < n
        invariant
            n == non_negative@.len(),
            1 <= i <= n,
            count == crossings_in(non_negative@.subrange(0, i as int)),
            count < i,
        decreases n - i,
    {
        proof {
            let t = non_negative@.subrange(0, i + 1);
            assert(t.drop_last() =~= non_negative@.subrange(0, i as int));
        }
        if non_negative[i - 1] != non_negative[i] {
            count += 1;
        }
        i += 1;
    }
    assert(non_negative@.subrange(0, n as int) =~= non_negative@);
    count
}

/// The positions `i` where the samples `i` and `i + 1` lie on opposite sides of zero.
pub open spec fn flip_positions(signs: Seq<bool>) -> Set<int> {
    Set::new(|i: int| 0 <= i < signs.len() - 1 && signs[i] != signs[i + 1])
}

/// The zero-crossing count is the number of positions whose sample and the next
/// one lie on opposite sides of zero.
pub proof fn lemma_crossings_are_flips(signs: Seq<bool>)
    ensures
        flip_positions(signs).finite(),
        crossings_in(signs) == flip_positions(signs).len(),
    decreases signs.len(),
{
    if signs.len() < 2 {
        assert(flip_positions(signs) =~= Set::empty());
    } else {
        let prev = signs.drop_last();
        lemma_crossings_are_flips(prev);
        let k = signs.len() - 2;
        assert(!flip_positions(prev).contains(k));
        if signs[k] != signs.last() {
            assert(flip_positions(signs) =~= flip_positions(prev).insert(k));
        } else {
            assert(flip_positions(signs) =~= flip_positions(prev));
        }
    }
}

/// The analysis request for a signal, given its rendered average and peak
/// amplitudes, its zero-crossing and sample counts, and rendered metadata.
pub open spec fn audio_prompt_of(
    average: Seq<char>,
    peak: Seq<char>,
    crossings: nat,
    samples: nat,
    metadata: Seq<char>,
) -> Seq<char> {
    "Analyze this audio data:\n- Average amplitude: "@ + average
        + "\n- Peak amplitude: "@ + peak
        + "\n- Zero crossings: "@ + decimal(crossings)
        + "\n- Sample count: "@ + decimal(samples)
        + "\n- Metadata: "@ + metadata
        + "\n\nProvide a detailed analysis of what this audio might contain, potential sounds or speech patterns, and any security-relevant observations."@
}

/// Renders the analysis request for a signal's statistics.
pub fn audio_prompt(average: &str, peak: &str, crossings: usize, samples: usize, metadata: &str) -> (r: String)
    ensures
        r@ == audio_prompt_of(average@, peak@, crossings as nat, samples as nat, metadata@),
{
    let mut s = String::from_str("Analyze this audio data:\n- Average amplitude: ");
    s.append(average);
    s.append("\n- Peak amplitude: ");
    s.append(peak);
    s.append("\n- Zero crossings: ");
    let c = to_decimal(crossings);
    s.append(c.as_str());
    s.append("\n- Sample count: ");
    let n = to_decimal(samples);
    s.append(n.as_str());
    s.append("\n- Metadata: ");
    s.append(metadata);
    s.append("\n\nProvide a detailed analysis of what this audio might contain, potential sounds or speech patterns, and any security-relevant observations.");
    s
}

} // verus!
