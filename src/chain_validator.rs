use vstd::prelude::*;

verus! {

/// The most tokens a certificate chain may hold.
pub const MAX_CHAIN_LINKS: u32 = 3;

/// How far the walk along a certificate chain has come: the tokens seen, and how many of them
/// verified against the key in force (the root key first, then the key each verified token
/// hands on).
#[derive(Clone, Copy, Debug, PartialEq, Eq, Structural)]
pub struct ChainProgress {
    pub links: u32,
    pub verified: u32,
}

/// The walk before the first token.
pub open spec fn chain_start() -> ChainProgress {
    ChainProgress { links: 0, verified: 0 }
}

/// The walk after one more token that did (`ok`) or did not verify; `None` rejects the chain.
/// A chain is rejected once it holds more than three tokens, once a token follows the second
/// verified one, and once a token fails after one has verified; tokens that fail before the
/// first verified one are passed over.
pub open spec fn chain_after(p: ChainProgress, ok: bool) -> Option<ChainProgress> {
    if p.links >= MAX_CHAIN_LINKS || p.verified >= 2 {
        None
    } else if ok {
        Some(ChainProgress { links: (p.links + 1) as u32, verified: (p.verified + 1) as u32 })
    } else if p.verified > 0 {
        None
    } else {
        Some(ChainProgress { links: (p.links + 1) as u32, verified: p.verified })
    }
}

/// Whether the chain handed the key on exactly twice (root to intermediate, intermediate to
/// the client key), so that the client token can be checked.
pub open spec fn chain_complete(p: ChainProgress) -> bool {
    p.verified == 2
}

impl ChainProgress {
    /// The walk before the first token.
    pub fn start() -> (r: ChainProgress)
        ensures
            r == chain_start(),
    {
        ChainProgress { links: 0, verified: 0 }
    }

    /// Takes one more token into account; see `chain_after`.
    pub fn next_link(&self, ok: bool) -> (r: Option<ChainProgress>)
        ensures
            r == chain_after(*self, ok),
    {
        if self.links >= MAX_CHAIN_LINKS || self.verified >= 2 {
            None
        } else if ok {
            Some(ChainProgress { links: self.links + 1, verified: self.verified + 1 })
        } else if self.verified > 0 {
            None
        } else {
            Some(ChainProgress { links: self.links + 1, verified: self.verified })
        }
    }

    /// Whether the client token may now be checked; see `chain_complete`.
    pub fn is_complete(&self) -> (r: bool)
        ensures
            r == chain_complete(*self),
    {
        self.verified == 2
    }
}

/// The walk over tokens that verified or not as `oks` says; `None` once the chain is rejected.
pub open spec fn chain_walk(oks: Seq<bool>) -> Option<ChainProgress>
    decreases oks.len(),
{
    if oks.len() == 0 {
        Some(chain_start())
    } else {
        match chain_walk(oks.drop_last()) {
            Some(p) => chain_after(p, oks.last()),
            None => None,
        }
    }
}

proof fn lemma_walk_bounds(oks: Seq<bool>)
    ensures
        chain_walk(oks) matches Some(p) ==> p.links == oks.len() && p.verified <= p.links && p.links <= MAX_CHAIN_LINKS
            && p.verified <= 2,
    decreases oks.len(),
{
    if oks.len() > 0 {
        lemma_walk_bounds(oks.drop_last());
    }
}

/// A chain that completes holds two or three tokens, its verified tokens come last and in a
/// row, and at most one token before them failed.
pub proof fn lemma_complete_chain_shape(oks: Seq<bool>)
    requires
        chain_walk(oks) matches Some(p) && chain_complete(p),
    ensures
        2 <= oks.len() <= 3,
        oks[oks.len() - 1] && oks[oks.len() - 2],
        oks.len() == 3 ==> !oks[0],
    decreases oks.len(),
{
    let n = oks.len();
    lemma_walk_bounds(oks);
    lemma_walk_bounds(oks.drop_last());
    let prev = chain_walk(oks.drop_last())->Some_0;
    assert(oks.last());
    lemma_walk_bounds(oks.drop_last().drop_last());
    assert(oks.drop_last().last() == oks[n - 2]);
    if n == 3 {
        let first = oks.drop_last().drop_last();
        assert(first.len() == 1);
        assert(first.drop_last().len() == 0);
        assert(first.last() == oks[0]);
    }
}

} // verus!
