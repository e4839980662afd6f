use vstd::prelude::*;

verus! {

/// Whether a GL configuration, described as (supports transparency,
/// number of samples), replaces the one picked so far: it adds
/// transparency, or it has fewer samples.
pub open spec fn prefers(cand: (bool, u8), best: (bool, u8)) -> bool {
    (cand.0 && !best.0) || cand.1 < best.1
}

/// Index of the configuration picked from `s`, scanning it in order and
/// keeping the earlier pick unless the next one is preferred.
pub open spec fn pick(s: Seq<(bool, u8)>) -> int
    decreases s.len(),
{
    if s.len() <= 1 {
        0
    } else {
        let p = pick(s.drop_last());
        if 0 <= p < s.len() - 1 && prefers(s.last(), s[p]) {
            s.len() - 1
        } else {
            p
        }
    }
}

/// Picks among the offered GL configurations; `None` when none is offered.
pub fn choose_config(cands: &Vec<(bool, u8)>) -> (r: Option<usize>)
    ensures
        cands@.len() == 0 ==> r is None,
        cands@.len() > 0 ==> r == Some(pick(cands@) as usize) && pick(cands@) < cands@.len(),
{
    if cands.len() == 0 {
        return None;
    }
    let mut best: usize = 0;
    let mut i: usize = 1;
    assert(cands@.subrange(0, 1).len() == 1);
    while i < cands.len()
        invariant
            1 <= i <= cands@.len(),
            best < i,
            best == pick(cands@.subrange(0, i as int)),
        decreases cands@.len() - i,
    {
        let c = cands[i];
        let b = cands[best];
        let ghost prev = cands@.subrange(0, i as int);
        let ghost next = cands@.subrange(0, i + 1);
        assert(next.drop_last() =~= prev);
        assert(next.last() == c && next[best as int] == b);
        if (c.0 && !b.0) || c.1 < b.1 {
            best = i;
        }
        i += 1;
    }
    assert(cands@.subrange(0, cands@.len() as int) =~= cands@);
    Some(best)
}

} // verus!
