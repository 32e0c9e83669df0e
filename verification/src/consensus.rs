//! A proof-of-work header chain with a pluggable acceptance policy.
//!
//! Headers are linked by digest, accumulate a running state, and are
//! admitted by a threshold proof of work. A chain is checked by walking
//! it from a known ancestor, holding every header to the structural rules
//! and to a chosen [`Policy`].

use vstd::prelude::*;
use crate::digest::{words_digest, digest_words};
use rand::Rng;

verus! {

/// Upper bound a header's digest must fall below to satisfy proof of work.
/// About one candidate in a hundred is accepted.
pub const THRESHOLD: u64 = u64::MAX / 100;

/// Height above which the parity policies begin enforcing their condition.
pub const FORK_HEIGHT: u64 = 2;

/// One block's metadata, linked to its parent by digest.
#[derive(Clone, Copy, Debug, PartialEq, Eq, Hash, Structural)]
pub struct Header {
    /// Digest of the immediately preceding header; zero for genesis.
    pub parent: u64,
    /// Strictly increases by one from parent to child; genesis is zero.
    pub height: u64,
    /// Integer payload applied to the running state.
    pub extrinsic: u64,
    /// Running state: the parent's state plus this header's extrinsic.
    pub state: u64,
    /// Nonce varied during mining until the digest falls below `THRESHOLD`.
    pub consensus_digest: u64,
}

/// A pluggable acceptance rule, checked on each header beyond the
/// structural linkage and proof-of-work rules.
#[derive(Clone, Copy, Debug, PartialEq, Eq, Structural)]
pub enum Policy {
    /// Accept every header.
    Unconditional,
    /// Beyond the given height, accept only headers with an even state.
    EvenAfter(u64),
    /// Beyond the given height, accept only headers with an odd state.
    OddAfter(u64),
}

impl Policy {
    /// Which headers this policy accepts.
    pub open spec fn spec_accepts(self, h: Header) -> bool {
        match self {
            Policy::Unconditional => true,
            Policy::EvenAfter(activation) => h.height > activation ==> h.state % 2 == 0,
            Policy::OddAfter(activation) => h.height > activation ==> h.state % 2 == 1,
        }
    }

    /// Whether this policy accepts the given header.
    pub fn accepts(&self, h: &Header) -> (r: bool)
        ensures
            r == self.spec_accepts(*h),
    {
        match self {
            Policy::Unconditional => true,
            Policy::EvenAfter(activation) => h.height <= *activation || h.state % 2 == 0,
            Policy::OddAfter(activation) => h.height <= *activation || h.state % 2 == 1,
        }
    }
}

/// The checks a child must pass against its parent: linkage by digest,
/// height increment, state accumulation, proof of work, and the policy's
/// acceptance.
pub open spec fn spec_valid_child(parent: Header, child: Header, policy: Policy) -> bool {
    &&& child.parent == parent.spec_digest()
    &&& child.height == parent.height + 1
    &&& child.state == parent.state + child.extrinsic
    &&& child.spec_digest() < THRESHOLD
    &&& policy.spec_accepts(child)
}

/// A chain rooted at `ancestor` is valid when every header is a valid
/// child of its predecessor. The empty chain is valid.
pub open spec fn spec_chain_valid(ancestor: Header, chain: Seq<Header>, policy: Policy) -> bool
    decreases chain.len(),
{
    chain.len() == 0 || (spec_valid_child(ancestor, chain[0], policy)
        && spec_chain_valid(chain[0], chain.skip(1), policy))
}

/// The candidate child of `parent` carrying `extrinsic`, before or during
/// mining: every field but the nonce is already fixed.
pub open spec fn spec_candidate(parent: Header, extrinsic: u64, nonce: u64) -> Header {
    Header {
        parent: parent.spec_digest(),
        height: (parent.height + 1) as u64,
        extrinsic,
        state: (parent.state + extrinsic) as u64,
        consensus_digest: nonce,
    }
}

/// Whether some nonce makes the candidate's digest fall below `THRESHOLD`.
/// Nonce zero is left aside: it marks an unmined header.
pub open spec fn spec_mineable(parent: Header, extrinsic: u64) -> bool {
    exists|n: u64| 1 <= n && spec_candidate(parent, extrinsic, n).spec_digest() < THRESHOLD
}

impl Header {
    /// The digest of a header: its five fields, hashed in order.
    pub open spec fn spec_digest(self) -> u64 {
        words_digest(
            seq![self.parent, self.height, self.extrinsic, self.state, self.consensus_digest],
        )
    }

    /// Compute this header's digest.
    pub fn digest(&self) -> (r: u64)
        ensures
            r == self.spec_digest(),
    {
        digest_words(self.parent, self.height, self.extrinsic, self.state, self.consensus_digest)
    }

    /// The genesis header: zero in every field.
    pub open spec fn spec_genesis() -> Header {
        Header { parent: 0, height: 0, extrinsic: 0, state: 0, consensus_digest: 0 }
    }

    /// Returns the genesis header. It is exempt from proof of work; by
    /// convention its nonce is zero.
    pub fn genesis() -> (g: Header)
        ensures
            g == Header::spec_genesis(),
    {
        Header { parent: 0, height: 0, extrinsic: 0, state: 0, consensus_digest: 0 }
    }

    /// Mine a valid child of this header carrying the given extrinsic: the
    /// nonce is incremented until the candidate's digest falls below
    /// `THRESHOLD`. Should the whole nonce space be exhausted without a
    /// hit — with this threshold, a possibility in principle only — the
    /// search gives up and hands back the unmined candidate, whose nonce
    /// is zero.
    pub fn child(&self, extrinsic: u64) -> (c: Header)
        requires
            self.height < u64::MAX,
            self.state + extrinsic <= u64::MAX,
        ensures
            c.parent == self.spec_digest(),
            c.height == self.height + 1,
            c.extrinsic == extrinsic,
            c.state == self.state + extrinsic,
            c == spec_candidate(*self, extrinsic, c.consensus_digest),
            spec_mineable(*self, extrinsic) ==> spec_valid_child(
                *self,
                c,
                Policy::Unconditional,
            ) && 1 <= c.consensus_digest,
            !spec_mineable(*self, extrinsic) ==> c == spec_candidate(*self, extrinsic, 0),
            spec_mineable(*self, extrinsic) ==> c.spec_digest() < THRESHOLD,
            c.spec_digest() < THRESHOLD ==> spec_valid_child(*self, c, Policy::Unconditional),
            forall|m: u64|
                1 <= m < c.consensus_digest ==> spec_candidate(
                    *self,
                    extrinsic,
                    m,
                ).spec_digest() >= THRESHOLD,
    {
        let mut candidate = Header {
            parent: self.digest(),
            height: self.height + 1,
            extrinsic,
            state: self.state + extrinsic,
            consensus_digest: 1,
        };
        loop
            invariant
                self.height < u64::MAX,
                self.state + extrinsic <= u64::MAX,
                candidate == spec_candidate(*self, extrinsic, candidate.consensus_digest),
                1 <= candidate.consensus_digest,
                forall|m: u64|
                    1 <= m < candidate.consensus_digest ==> spec_candidate(
                        *self,
                        extrinsic,
                        m,
                    ).spec_digest() >= THRESHOLD,
            decreases u64::MAX - candidate.consensus_digest,
        {
            if candidate.digest() < THRESHOLD {
                proof {
                    assert(spec_mineable(*self, extrinsic)) by {
                        assert(1 <= candidate.consensus_digest && spec_candidate(
                            *self,
                            extrinsic,
                            candidate.consensus_digest,
                        ).spec_digest() < THRESHOLD);
                    }
                }
                return candidate;
            }
            if candidate.consensus_digest == u64::MAX {
                proof {
                    assert(!spec_mineable(*self, extrinsic));
                }
                return Header { consensus_digest: 0, ..candidate };
            }
            candidate.consensus_digest = candidate.consensus_digest + 1;
        }
    }

    /// Whether this header satisfies the proof of work: its digest falls
    /// below `THRESHOLD`.
    pub fn verify_pow(&self) -> (r: bool)
        ensures
            r == (self.spec_digest() < THRESHOLD),
    {
        self.digest() < THRESHOLD
    }

    /// Check a single child header against this header under the policy.
    pub fn verify_child(&self, child: &Header, policy: &Policy) -> (r: bool)
        ensures
            r == spec_valid_child(*self, *child, *policy),
    {
        child.parent == self.digest() && self.height < u64::MAX && child.height == self.height + 1
            && (child.state as u128) == (self.state as u128) + (child.extrinsic as u128)
            && child.verify_pow() && policy.accepts(child)
    }

    /// Walk the chain left to right from this header, checking every link
    /// with [`Header::verify_child`]; `true` exactly when the whole chain
    /// is valid. An empty chain verifies under every policy.
    pub fn verify_from(&self, chain: &Vec<Header>, policy: &Policy) -> (r: bool)
        ensures
            r == spec_chain_valid(*self, chain@, *policy),
            chain@.len() == 0 ==> r,
    {
        proof {
            assert(chain@.skip(0) =~= chain@);
        }
        let mut parent: Header = *self;
        let mut i: usize = 0;
        while i < chain.len()
            invariant
                i <= chain@.len(),
                parent == (if i == 0 { *self } else { chain@[i as int - 1] }),
                spec_chain_valid(*self, chain@, *policy) == spec_chain_valid(
                    parent,
                    chain@.skip(i as int),
                    *policy,
                ),
            decreases chain@.len() - i,
        {
            let current = chain[i];
            if !parent.verify_child(&current, policy) {
                return false;
            }
            proof {
                assert(chain@.skip(i as int).skip(1) =~= chain@.skip(i as int + 1));
            }
            parent = current;
            i = i + 1;
        }
        proof {
            assert(chain@.skip(i as int) =~= Seq::<Header>::empty());
        }
        true
    }

    /// Verify that the given headers form a valid chain from this header,
    /// under the linkage and proof-of-work rules alone.
    pub fn verify_sub_chain(&self, chain: &Vec<Header>) -> (r: bool)
        ensures
            r == spec_chain_valid(*self, chain@, Policy::Unconditional),
    {
        self.verify_from(chain, &Policy::Unconditional)
    }

    /// Verify the chain under the rule set whose states must be even
    /// beyond `FORK_HEIGHT`.
    pub fn verify_sub_chain_even(&self, chain: &Vec<Header>) -> (r: bool)
        ensures
            r == spec_chain_valid(*self, chain@, Policy::EvenAfter(FORK_HEIGHT)),
    {
        self.verify_from(chain, &Policy::EvenAfter(FORK_HEIGHT))
    }

    /// Verify the chain under the rule set whose states must be odd
    /// beyond `FORK_HEIGHT`.
    pub fn verify_sub_chain_odd(&self, chain: &Vec<Header>) -> (r: bool)
        ensures
            r == spec_chain_valid(*self, chain@, Policy::OddAfter(FORK_HEIGHT)),
    {
        self.verify_from(chain, &Policy::OddAfter(FORK_HEIGHT))
    }
}

/// The tip a chain hands to its continuation: the last header, or the
/// ancestor itself when the chain is empty.
pub open spec fn spec_tip(ancestor: Header, chain: Seq<Header>) -> Header {
    if chain.len() == 0 {
        ancestor
    } else {
        chain.last()
    }
}

/// Growing a valid chain by one valid child keeps it valid: a chain built
/// by repeated mining therefore verifies as a whole.
pub proof fn lemma_chain_extend(ancestor: Header, chain: Seq<Header>, child: Header, policy: Policy)
    requires
        spec_chain_valid(ancestor, chain, policy),
        spec_valid_child(spec_tip(ancestor, chain), child, policy),
    ensures
        spec_chain_valid(ancestor, chain.push(child), policy),
    decreases chain.len(),
{
    if chain.len() == 0 {
        assert(chain.push(child)[0] == child);
        assert(chain.push(child).skip(1) =~= Seq::<Header>::empty());
        assert(spec_chain_valid(child, Seq::<Header>::empty(), policy));
    } else {
        assert(chain.skip(1).len() == chain.len() - 1);
        if chain.len() > 1 {
            assert(chain.skip(1).last() == chain.last());
        }
        lemma_chain_extend(chain[0], chain.skip(1), child, policy);
        assert(chain.push(child)[0] == chain[0]);
        assert(chain.push(child).skip(1) =~= chain.skip(1).push(child));
    }
}

/// A chain may be verified in two parts: the whole verifies exactly when
/// the front does and the back does, taken up from the front's tip.
pub proof fn lemma_chain_valid_concat(
    ancestor: Header,
    front: Seq<Header>,
    back: Seq<Header>,
    policy: Policy,
)
    ensures
        spec_chain_valid(ancestor, front + back, policy) == (spec_chain_valid(
            ancestor,
            front,
            policy,
        ) && spec_chain_valid(spec_tip(ancestor, front), back, policy)),
    decreases front.len(),
{
    if front.len() == 0 {
        assert(front + back =~= back);
    } else {
        lemma_chain_valid_concat(front[0], front.skip(1), back, policy);
        assert((front + back)[0] == front[0]);
        assert((front + back).skip(1) =~= front.skip(1) + back);
        if front.len() > 1 {
            assert(front.skip(1).last() == front.last());
        }
    }
}

/// Verifying two headers at once is the same as verifying each link on
/// its own.
pub proof fn lemma_verify_two(ancestor: Header, h1: Header, h2: Header, policy: Policy)
    ensures
        spec_chain_valid(ancestor, seq![h1, h2], policy) == (spec_valid_child(ancestor, h1, policy)
            && spec_valid_child(h1, h2, policy)),
{
    assert(seq![h1, h2].skip(1) =~= seq![h2]);
    assert(seq![h2].skip(1) =~= Seq::<Header>::empty());
    assert(spec_chain_valid(h2, Seq::<Header>::empty(), policy));
    assert(spec_chain_valid(h1, seq![h2], policy) == spec_valid_child(h1, h2, policy));
}

/// Tampering with a mined header's linkage fields is always detected: a
/// header that differs from a valid child in its parent digest, in its
/// height, or in its state alone never verifies against the same parent.
/// The nonce is the one field whose tampering only the proof-of-work
/// threshold itself can catch.
pub proof fn lemma_tamper_detected(parent: Header, child: Header, bad: Header, policy: Policy)
    requires
        spec_valid_child(parent, child, policy),
        bad.parent != child.parent || bad.height != child.height || (bad.state != child.state
            && bad.extrinsic == child.extrinsic),
    ensures
        !spec_valid_child(parent, bad, policy),
{
}

/// The structural link between a parent and its child, without the
/// proof-of-work and policy checks: correct parent digest, height
/// increment, and state accumulation.
pub open spec fn spec_linked(parent: Header, child: Header) -> bool {
    &&& child.parent == parent.spec_digest()
    &&& child.height == parent.height + 1
    &&& child.state == parent.state + child.extrinsic
}

/// What the fork builder's mining owes of every link on every outcome:
/// the structural link always, an extrinsic of at most 100, and the
/// proof of work whenever some nonce can meet the threshold at all.
pub open spec fn spec_mined_link(parent: Header, child: Header) -> bool {
    &&& spec_linked(parent, child)
    &&& child.extrinsic <= 100
    &&& (spec_mineable(parent, child.extrinsic) ==> child.spec_digest() < THRESHOLD)
}

/// Relies on rand's `thread_rng` and `Rng::gen_range`: a sample drawn from
/// the range `0..100` lies below 100, whatever the thread's generator
/// returns.
#[verifier::external_body]
fn random_extrinsic() -> (r: u64)
    ensures
        r < 100,
{
    rand::thread_rng().gen_range(0..100)
}

/// Mine a child of `tip` whose state has the asked-for parity: an
/// extrinsic below 100 is drawn at random, and bumped by one when the
/// state it would produce has the wrong parity.
fn mine_parity_child(tip: &Header, want_even: bool) -> (c: Header)
    requires
        tip.height < u64::MAX,
        tip.state + 100 <= u64::MAX,
    ensures
        spec_mined_link(*tip, c),
        c.state <= tip.state + 100,
        (c.state % 2 == 0) == want_even,
        c.spec_digest() < THRESHOLD ==> spec_valid_child(*tip, c, Policy::Unconditional),
{
    let mut extrinsic = random_extrinsic();
    let state_parity = (tip.state % 2 + extrinsic % 2) % 2;
    if (want_even && state_parity == 1) || (!want_even && state_parity == 0) {
        extrinsic = extrinsic + 1;
    }
    tip.child(extrinsic)
}

/// Build two chains that share a genesis-rooted prefix and diverge after
/// `FORK_HEIGHT`: a suffix of even states and a suffix of odd states,
/// each two headers long. On every outcome the seven headers link up from
/// genesis and the suffixes carry the promised parities; every link also
/// carries its proof of work whenever some nonce can meet the threshold
/// at all, and then both full chains verify under the plain rules while
/// each verifies only under its own parity policy.
pub fn build_contentious_forked_chain() -> (r: (Vec<Header>, Vec<Header>, Vec<Header>))
    ensures
        r.0@.len() == 3 && r.1@.len() == 2 && r.2@.len() == 2,
        r.0@[0] == Header::spec_genesis(),
        spec_mined_link(r.0@[0], r.0@[1]),
        spec_mined_link(r.0@[1], r.0@[2]),
        spec_mined_link(r.0@[2], r.1@[0]),
        spec_mined_link(r.1@[0], r.1@[1]),
        spec_mined_link(r.0@[2], r.2@[0]),
        spec_mined_link(r.2@[0], r.2@[1]),
        r.1@[0].state % 2 == 0 && r.1@[1].state % 2 == 0,
        r.2@[0].state % 2 == 1 && r.2@[1].state % 2 == 1,
        spec_mineable(r.0@[0], r.0@[1].extrinsic) && spec_mineable(r.0@[1], r.0@[2].extrinsic)
            && spec_mineable(r.0@[2], r.1@[0].extrinsic) && spec_mineable(
            r.1@[0],
            r.1@[1].extrinsic,
        ) ==> spec_chain_valid(r.0@[0], r.0@.skip(1) + r.1@, Policy::Unconditional)
            && spec_chain_valid(r.0@[0], r.0@.skip(1) + r.1@, Policy::EvenAfter(FORK_HEIGHT)),
        spec_mineable(r.0@[0], r.0@[1].extrinsic) && spec_mineable(r.0@[1], r.0@[2].extrinsic)
            && spec_mineable(r.0@[2], r.2@[0].extrinsic) && spec_mineable(
            r.2@[0],
            r.2@[1].extrinsic,
        ) ==> spec_chain_valid(r.0@[0], r.0@.skip(1) + r.2@, Policy::Unconditional)
            && spec_chain_valid(r.0@[0], r.0@.skip(1) + r.2@, Policy::OddAfter(FORK_HEIGHT)),
        !spec_chain_valid(r.0@[0], r.0@.skip(1) + r.1@, Policy::OddAfter(FORK_HEIGHT)),
        !spec_chain_valid(r.0@[0], r.0@.skip(1) + r.2@, Policy::EvenAfter(FORK_HEIGHT)),
{
    let g = Header::genesis();
    let b1 = g.child(random_extrinsic());
    let b2 = b1.child(random_extrinsic());

    let even1 = mine_parity_child(&b2, true);
    let even2 = mine_parity_child(&even1, true);
    let odd1 = mine_parity_child(&b2, false);
    let odd2 = mine_parity_child(&odd1, false);

    let mut prefix: Vec<Header> = Vec::new();
    prefix.push(g);
    prefix.push(b1);
    prefix.push(b2);
    let mut even_suffix: Vec<Header> = Vec::new();
    even_suffix.push(even1);
    even_suffix.push(even2);
    let mut odd_suffix: Vec<Header> = Vec::new();
    odd_suffix.push(odd1);
    odd_suffix.push(odd2);

    proof {
        let tail = seq![b1, b2];
        let se = seq![even1, even2];
        let so = seq![odd1, odd2];
        assert(prefix@.skip(1) =~= tail);
        assert(even_suffix@ =~= se);
        assert(odd_suffix@ =~= so);

        if spec_mineable(g, b1.extrinsic) && spec_mineable(b1, b2.extrinsic) && spec_mineable(
            b2,
            even1.extrinsic,
        ) && spec_mineable(even1, even2.extrinsic) {
            lemma_verify_two(g, b1, b2, Policy::Unconditional);
            lemma_verify_two(b2, even1, even2, Policy::Unconditional);
            lemma_chain_valid_concat(g, tail, se, Policy::Unconditional);
            lemma_verify_two(g, b1, b2, Policy::EvenAfter(FORK_HEIGHT));
            lemma_verify_two(b2, even1, even2, Policy::EvenAfter(FORK_HEIGHT));
            lemma_chain_valid_concat(g, tail, se, Policy::EvenAfter(FORK_HEIGHT));
        }
        if spec_mineable(g, b1.extrinsic) && spec_mineable(b1, b2.extrinsic) && spec_mineable(
            b2,
            odd1.extrinsic,
        ) && spec_mineable(odd1, odd2.extrinsic) {
            lemma_verify_two(g, b1, b2, Policy::Unconditional);
            lemma_verify_two(b2, odd1, odd2, Policy::Unconditional);
            lemma_chain_valid_concat(g, tail, so, Policy::Unconditional);
            lemma_verify_two(g, b1, b2, Policy::OddAfter(FORK_HEIGHT));
            lemma_verify_two(b2, odd1, odd2, Policy::OddAfter(FORK_HEIGHT));
            lemma_chain_valid_concat(g, tail, so, Policy::OddAfter(FORK_HEIGHT));
        }

        // The first header past the fork height bears the wrong parity
        // for the opposite policy, so neither cross pairing verifies.
        assert(!Policy::OddAfter(FORK_HEIGHT).spec_accepts(even1));
        assert(!spec_valid_child(b2, even1, Policy::OddAfter(FORK_HEIGHT)));
        lemma_verify_two(b2, even1, even2, Policy::OddAfter(FORK_HEIGHT));
        lemma_chain_valid_concat(g, tail, se, Policy::OddAfter(FORK_HEIGHT));
        assert(!Policy::EvenAfter(FORK_HEIGHT).spec_accepts(odd1));
        assert(!spec_valid_child(b2, odd1, Policy::EvenAfter(FORK_HEIGHT)));
        lemma_verify_two(b2, odd1, odd2, Policy::EvenAfter(FORK_HEIGHT));
        lemma_chain_valid_concat(g, tail, so, Policy::EvenAfter(FORK_HEIGHT));
    }
    (prefix, even_suffix, odd_suffix)
}

} // verus!
