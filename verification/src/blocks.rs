//! Complete blocks: a header that commits to a batch of extrinsics.
//!
//! The extrinsics no longer sit in the header itself; the header carries
//! a digest root of the batch and the state reached after executing it.
//! Header checks therefore cover linkage and proof of work alone, while
//! execution is checked at the block level, where the batch is at hand.

use vstd::prelude::*;
use crate::digest::{words_digest, digest_words, bytes_digest, digest_bytes};
use crate::consensus::THRESHOLD;

verus! {

/// The header of a complete block. It commits to its extrinsics through
/// `extrinsics_root` and carries the state reached by executing them.
#[derive(Clone, Copy, Debug, PartialEq, Eq, Hash, Structural)]
pub struct Header {
    /// Digest of the immediately preceding header; zero for genesis.
    pub parent: u64,
    /// Strictly increases by one from parent to child; genesis is zero.
    pub height: u64,
    /// Digest of the block's batch of extrinsics.
    pub extrinsics_root: u64,
    /// State reached after executing the batch; genesis is zero.
    pub state: u64,
    /// Nonce varied during mining until the digest falls below `THRESHOLD`.
    pub consensus_digest: u64,
}

/// The candidate child header with the given root and state, before or
/// during mining: every field but the nonce is already fixed.
pub open spec fn spec_candidate(parent: Header, extrinsics_root: u64, state: u64, nonce: u64) -> Header {
    Header {
        parent: parent.spec_digest(),
        height: (parent.height + 1) as u64,
        extrinsics_root,
        state,
        consensus_digest: nonce,
    }
}

/// Whether some nonce makes the candidate's digest fall below `THRESHOLD`.
/// Nonce zero is left aside: it marks an unmined header.
pub open spec fn spec_mineable(parent: Header, extrinsics_root: u64, state: u64) -> bool {
    exists|n: u64|
        1 <= n && spec_candidate(parent, extrinsics_root, state, n).spec_digest() < THRESHOLD
}

/// The checks a child header must pass against its parent: linkage by
/// digest, height increment, and proof of work. Without the extrinsics at
/// hand, neither root nor state can be checked here.
pub open spec fn spec_valid_child(parent: Header, child: Header) -> bool {
    &&& child.parent == parent.spec_digest()
    &&& child.height == parent.height + 1
    &&& child.spec_digest() < THRESHOLD
}

/// A chain of headers rooted at `ancestor` is valid when every header is
/// a valid child of its predecessor. The empty chain is valid.
pub open spec fn spec_chain_valid(ancestor: Header, chain: Seq<Header>) -> bool
    decreases chain.len(),
{
    chain.len() == 0 || (spec_valid_child(ancestor, chain[0]) && spec_chain_valid(
        chain[0],
        chain.skip(1),
    ))
}

impl Header {
    /// The digest of a header: its five fields, hashed in order.
    pub open spec fn spec_digest(self) -> u64 {
        words_digest(
            seq![self.parent, self.height, self.extrinsics_root, self.state, self.consensus_digest],
        )
    }

    /// Compute this header's digest.
    pub fn digest(&self) -> (r: u64)
        ensures
            r == self.spec_digest(),
    {
        digest_words(
            self.parent,
            self.height,
            self.extrinsics_root,
            self.state,
            self.consensus_digest,
        )
    }

    /// The genesis header: zero in every field.
    pub open spec fn spec_genesis() -> Header {
        Header { parent: 0, height: 0, extrinsics_root: 0, state: 0, consensus_digest: 0 }
    }

    /// Returns the genesis header. It is exempt from proof of work; by
    /// convention its nonce is zero.
    pub fn genesis() -> (g: Header)
        ensures
            g == Header::spec_genesis(),
    {
        Header { parent: 0, height: 0, extrinsics_root: 0, state: 0, consensus_digest: 0 }
    }

    /// Mine a valid child of this header. The final state cannot be
    /// computed without the extrinsics, so root and state are passed in.
    /// Should the whole nonce space be exhausted without a hit — with
    /// this threshold, a possibility in principle only — the search gives
    /// up and hands back the unmined candidate, whose nonce is zero.
    pub fn child(&self, extrinsic_root: u64, state: u64) -> (c: Header)
        requires
            self.height < u64::MAX,
        ensures
            c.parent == self.spec_digest(),
            c.height == self.height + 1,
            c.extrinsics_root == extrinsic_root,
            c.state == state,
            c == spec_candidate(*self, extrinsic_root, state, c.consensus_digest),
            spec_mineable(*self, extrinsic_root, state) ==> spec_valid_child(*self, c) && 1
                <= c.consensus_digest,
            !spec_mineable(*self, extrinsic_root, state) ==> c == spec_candidate(
                *self,
                extrinsic_root,
                state,
                0,
            ),
            c.spec_digest() < THRESHOLD ==> spec_valid_child(*self, c),
            forall|m: u64|
                1 <= m < c.consensus_digest ==> spec_candidate(
                    *self,
                    extrinsic_root,
                    state,
                    m,
                ).spec_digest() >= THRESHOLD,
    {
        let mut candidate = Header {
            parent: self.digest(),
            height: self.height + 1,
            extrinsics_root: extrinsic_root,
            state,
            consensus_digest: 1,
        };
        loop
            invariant
                self.height < u64::MAX,
                candidate == spec_candidate(*self, extrinsic_root, state, candidate.consensus_digest),
                1 <= candidate.consensus_digest,
                forall|m: u64|
                    1 <= m < candidate.consensus_digest ==> spec_candidate(
                        *self,
                        extrinsic_root,
                        state,
                        m,
                    ).spec_digest() >= THRESHOLD,
            decreases u64::MAX - candidate.consensus_digest,
        {
            if candidate.digest() < THRESHOLD {
                proof {
                    assert(spec_mineable(*self, extrinsic_root, state)) by {
                        assert(1 <= candidate.consensus_digest && spec_candidate(
                            *self,
                            extrinsic_root,
                            state,
                            candidate.consensus_digest,
                        ).spec_digest() < THRESHOLD);
                    }
                }
                return candidate;
            }
            if candidate.consensus_digest == u64::MAX {
                proof {
                    assert(!spec_mineable(*self, extrinsic_root, state));
                }
                return Header { consensus_digest: 0, ..candidate };
            }
            candidate.consensus_digest = candidate.consensus_digest + 1;
        }
    }

    /// Check a single child header against this header.
    pub fn verify_child(&self, child: &Header) -> (r: bool)
        ensures
            r == spec_valid_child(*self, *child),
    {
        child.parent == self.digest() && self.height < u64::MAX && child.height == self.height + 1
            && child.digest() < THRESHOLD
    }

    /// Verify that the given headers form a valid chain from this header
    /// to the tip, by checking each link with [`Header::verify_child`].
    pub fn verify_sub_chain(&self, chain: &Vec<Header>) -> (r: bool)
        ensures
            r == spec_chain_valid(*self, chain@),
    {
        proof {
            assert(chain@.skip(0) =~= chain@);
        }
        let mut parent: Header = *self;
        let mut i: usize = 0;
        while i < chain.len()
            invariant
                i <= chain@.len(),
                parent == (if i == 0 { *self } else { chain@[i as int - 1] }),
                spec_chain_valid(*self, chain@) == spec_chain_valid(parent, chain@.skip(i as int)),
            decreases chain@.len() - i,
        {
            let current = chain[i];
            if !parent.verify_child(&current) {
                return false;
            }
            proof {
                assert(chain@.skip(i as int).skip(1) =~= chain@.skip(i as int + 1));
            }
            parent = current;
            i = i + 1;
        }
        proof {
            assert(chain@.skip(i as int) =~= Seq::<Header>::empty());
        }
        true
    }
}

/// Sum of a batch of byte-sized extrinsics.
pub open spec fn spec_sum_bytes(s: Seq<u8>) -> int
    decreases s.len(),
{
    if s.len() == 0 {
        0
    } else {
        spec_sum_bytes(s.drop_last()) + s.last()
    }
}

/// Sum of a block body's extrinsics.
pub open spec fn spec_sum_words(s: Seq<u64>) -> int
    decreases s.len(),
{
    if s.len() == 0 {
        0
    } else {
        spec_sum_words(s.drop_last()) + s.last()
    }
}

/// A prefix never sums to more than the whole batch.
proof fn lemma_sum_bytes_take_le(s: Seq<u8>, i: int)
    requires
        0 <= i <= s.len(),
    ensures
        spec_sum_bytes(s.take(i)) <= spec_sum_bytes(s),
    decreases s.len() - i,
{
    if i == s.len() {
        assert(s.take(i) =~= s);
    } else {
        lemma_sum_bytes_take_le(s, i + 1);
        assert(s.take(i + 1).drop_last() =~= s.take(i));
        assert(s.take(i + 1).last() == s[i]);
    }
}

/// A prefix never sums to more than the whole body.
proof fn lemma_sum_words_take_le(s: Seq<u64>, i: int)
    requires
        0 <= i <= s.len(),
    ensures
        spec_sum_words(s.take(i)) <= spec_sum_words(s),
    decreases s.len() - i,
{
    if i == s.len() {
        assert(s.take(i) =~= s);
    } else {
        lemma_sum_words_take_le(s, i + 1);
        assert(s.take(i + 1).drop_last() =~= s.take(i));
        assert(s.take(i + 1).last() == s[i]);
    }
}

/// Widening each byte of a batch to a word keeps its sum.
proof fn lemma_sum_words_of_bytes(s: Seq<u8>)
    ensures
        spec_sum_words(s.map_values(|x: u8| x as u64)) == spec_sum_bytes(s),
    decreases s.len(),
{
    let widened = s.map_values(|x: u8| x as u64);
    if s.len() > 0 {
        lemma_sum_words_of_bytes(s.drop_last());
        assert(widened.drop_last() =~= s.drop_last().map_values(|x: u8| x as u64));
        assert(widened.last() == s.last());
    }
}

/// Execute a batch of extrinsics on some existing state: each is added
/// to the running total.
pub fn execute(state: u64, extrinsics: &Vec<u8>) -> (r: u64)
    requires
        state + spec_sum_bytes(extrinsics@) <= u64::MAX,
    ensures
        r == state + spec_sum_bytes(extrinsics@),
{
    let mut acc = state;
    let mut i: usize = 0;
    while i < extrinsics.len()
        invariant
            i <= extrinsics@.len(),
            state + spec_sum_bytes(extrinsics@) <= u64::MAX,
            acc == state + spec_sum_bytes(extrinsics@.take(i as int)),
        decreases extrinsics@.len() - i,
    {
        proof {
            lemma_sum_bytes_take_le(extrinsics@, i as int + 1);
            assert(extrinsics@.take(i as int + 1).drop_last() =~= extrinsics@.take(i as int));
            assert(extrinsics@.take(i as int + 1).last() == extrinsics@[i as int]);
        }
        acc = acc + extrinsics[i] as u64;
        i = i + 1;
    }
    proof {
        assert(extrinsics@.take(i as int) =~= extrinsics@);
    }
    acc
}

/// Whether every extrinsic of a body fits the byte-sized form the batch
/// was committed in.
pub open spec fn spec_body_ok(body: Seq<u64>) -> bool {
    forall|i: int| 0 <= i < body.len() ==> body[i] <= 255
}

/// The byte form of a body whose extrinsics all fit a byte.
pub open spec fn spec_body_bytes(body: Seq<u64>) -> Seq<u8> {
    body.map_values(|x: u64| x as u8)
}

/// The validity of a complete block against its parent's header: the
/// header checks, the root commits to the body, and the state is the one
/// reached by executing the body on the parent's state.
pub open spec fn spec_block_valid_child(parent: Header, b: Block) -> bool {
    &&& spec_valid_child(parent, b.header)
    &&& spec_body_ok(b.body@)
    &&& b.header.extrinsics_root == bytes_digest(spec_body_bytes(b.body@))
    &&& b.header.state == parent.state + spec_sum_words(b.body@)
}

/// A chain of blocks rooted at `ancestor`'s header is valid when every
/// block is a valid child of its predecessor. The empty chain is valid.
pub open spec fn spec_block_chain_valid(ancestor: Header, chain: Seq<Block>) -> bool
    decreases chain.len(),
{
    chain.len() == 0 || (spec_block_valid_child(ancestor, chain[0]) && spec_block_chain_valid(
        chain[0].header,
        chain.skip(1),
    ))
}

/// A complete block: a header and the batch of extrinsics it commits to.
#[derive(Clone, Debug, PartialEq, Eq, Hash)]
pub struct Block {
    /// The block's header.
    pub header: Header,
    /// The batch of extrinsics, widened to words.
    pub body: Vec<u64>,
}

/// The byte form of a body, or nothing when some extrinsic does not fit
/// a byte.
fn body_bytes(body: &Vec<u64>) -> (r: Option<Vec<u8>>)
    ensures
        match r {
            Some(bs) => spec_body_ok(body@) && bs@ == spec_body_bytes(body@),
            None => !spec_body_ok(body@),
        },
{
    let mut bytes: Vec<u8> = Vec::new();
    let mut i: usize = 0;
    while i < body.len()
        invariant
            i <= body@.len(),
            bytes@ =~= body@.take(i as int).map_values(|x: u64| x as u8),
            forall|j: int| 0 <= j < i ==> body@[j] <= 255,
        decreases body@.len() - i,
    {
        let w = body[i];
        if w > 255 {
            return None;
        }
        bytes.push(w as u8);
        proof {
            assert(body@.take(i as int + 1).drop_last() =~= body@.take(i as int));
            assert(bytes@ =~= body@.take(i as int + 1).map_values(|x: u64| x as u8));
        }
        i = i + 1;
    }
    proof {
        assert(body@.take(i as int) =~= body@);
    }
    Some(bytes)
}

/// The sum of a body's extrinsics, or nothing on overflow.
fn sum_words(body: &Vec<u64>) -> (r: Option<u64>)
    ensures
        match r {
            Some(s) => s == spec_sum_words(body@),
            None => spec_sum_words(body@) > u64::MAX,
        },
{
    let mut acc: u64 = 0;
    let mut i: usize = 0;
    while i < body.len()
        invariant
            i <= body@.len(),
            acc == spec_sum_words(body@.take(i as int)),
        decreases body@.len() - i,
    {
        proof {
            lemma_sum_words_take_le(body@, i as int + 1);
            assert(body@.take(i as int + 1).drop_last() =~= body@.take(i as int));
            assert(body@.take(i as int + 1).last() == body@[i as int]);
        }
        let w = body[i];
        if acc > u64::MAX - w {
            return None;
        }
        acc = acc + w;
        i = i + 1;
    }
    proof {
        assert(body@.take(i as int) =~= body@);
    }
    Some(acc)
}

impl Block {
    /// Returns the genesis block. By convention it has no extrinsics.
    pub fn genesis() -> (g: Block)
        ensures
            g.header == Header::spec_genesis(),
            g.body@ == Seq::<u64>::empty(),
    {
        Block { header: Header::genesis(), body: Vec::new() }
    }

    /// Create a child block from a batch of extrinsics: the batch is
    /// executed on the current state and a header is mined committing to
    /// its digest root and the reached state.
    pub fn child(&self, extrinsics: Vec<u8>) -> (b: Block)
        requires
            self.header.height < u64::MAX,
            self.header.state + spec_sum_bytes(extrinsics@) <= u64::MAX,
        ensures
            b.header.parent == self.header.spec_digest(),
            b.header.height == self.header.height + 1,
            b.header.extrinsics_root == bytes_digest(extrinsics@),
            b.header.state == self.header.state + spec_sum_bytes(extrinsics@),
            b.body@ == extrinsics@.map_values(|x: u8| x as u64),
            b.header.spec_digest() < THRESHOLD ==> spec_block_valid_child(self.header, b),
            b.header == spec_candidate(
                self.header,
                b.header.extrinsics_root,
                b.header.state,
                b.header.consensus_digest,
            ),
            spec_mineable(self.header, b.header.extrinsics_root, b.header.state)
                ==> spec_valid_child(self.header, b.header) && 1 <= b.header.consensus_digest,
            !spec_mineable(self.header, b.header.extrinsics_root, b.header.state)
                ==> b.header.consensus_digest == 0,
            forall|m: u64|
                1 <= m < b.header.consensus_digest ==> spec_candidate(
                    self.header,
                    b.header.extrinsics_root,
                    b.header.state,
                    m,
                ).spec_digest() >= THRESHOLD,
    {
        let state = execute(self.header.state, &extrinsics);
        let root = digest_bytes(&extrinsics);
        let header = self.header.child(root, state);
        let mut body: Vec<u64> = Vec::new();
        let mut i: usize = 0;
        while i < extrinsics.len()
            invariant
                i <= extrinsics@.len(),
                body@ =~= extrinsics@.take(i as int).map_values(|x: u8| x as u64),
            decreases extrinsics@.len() - i,
        {
            body.push(extrinsics[i] as u64);
            proof {
                assert(extrinsics@.take(i as int + 1).drop_last() =~= extrinsics@.take(i as int));
                assert(body@ =~= extrinsics@.take(i as int + 1).map_values(|x: u8| x as u64));
            }
            i = i + 1;
        }
        proof {
            assert(extrinsics@.take(i as int) =~= extrinsics@);
        }
        let b = Block { header, body };
        proof {
            lemma_sum_words_of_bytes(extrinsics@);
            assert(spec_body_bytes(b.body@) =~= extrinsics@);
        }
        b
    }

    /// Verify that the given blocks form a valid chain from this block
    /// to the tip: each header must check out, and each body must
    /// execute to the state its header claims.
    pub fn verify_sub_chain(&self, chain: &Vec<Block>) -> (r: bool)
        ensures
            r == spec_block_chain_valid(self.header, chain@),
    {
        proof {
            assert(chain@.skip(0) =~= chain@);
        }
        let mut parent: Header = self.header;
        let mut i: usize = 0;
        while i < chain.len()
            invariant
                i <= chain@.len(),
                parent == (if i == 0 {
                    self.header
                } else {
                    chain@[i as int - 1].header
                }),
                spec_block_chain_valid(self.header, chain@) == spec_block_chain_valid(
                    parent,
                    chain@.skip(i as int),
                ),
            decreases chain@.len() - i,
        {
            let current = &chain[i];
            if !self.check_block(&parent, current) {
                return false;
            }
            proof {
                assert(chain@.skip(i as int).skip(1) =~= chain@.skip(i as int + 1));
            }
            parent = current.header;
            i = i + 1;
        }
        proof {
            assert(chain@.skip(i as int) =~= Seq::<Block>::empty());
        }
        true
    }

    /// Check one block against its parent's header.
    fn check_block(&self, parent: &Header, b: &Block) -> (r: bool)
        ensures
            r == spec_block_valid_child(*parent, *b),
    {
        if !parent.verify_child(&b.header) {
            return false;
        }
        let bytes = match body_bytes(&b.body) {
            Some(bytes) => bytes,
            None => {
                return false;
            },
        };
        if b.header.extrinsics_root != digest_bytes(&bytes) {
            return false;
        }
        let sum = match sum_words(&b.body) {
            Some(sum) => sum,
            None => {
                return false;
            },
        };
        (b.header.state as u128) == (parent.state as u128) + (sum as u128)
    }
}

/// Create a child block of the given header that no execution check can
/// accept, under a header that checks out on its own: the header claims
/// a state one past what its empty batch reaches.
pub fn build_invalid_child_block_with_valid_header(parent: &Header) -> (b: Block)
    requires
        parent.height < u64::MAX,
        parent.state < u64::MAX,
    ensures
        b.header.parent == parent.spec_digest(),
        b.header.height == parent.height + 1,
        b.header.extrinsics_root == bytes_digest(Seq::<u8>::empty()),
        b.header.state == parent.state + 1,
        b.body@ == Seq::<u64>::empty(),
        spec_mineable(*parent, b.header.extrinsics_root, b.header.state) ==> spec_valid_child(
            *parent,
            b.header,
        ),
        b.header.spec_digest() < THRESHOLD ==> spec_valid_child(*parent, b.header),
        !spec_block_valid_child(*parent, b),
{
    let body: Vec<u8> = Vec::new();
    let root = digest_bytes(&body);
    let header = parent.child(root, parent.state + 1);
    let b = Block { header, body: Vec::new() };
    proof {
        assert(spec_sum_words(b.body@) == 0);
        assert(b.header.state != parent.state + spec_sum_words(b.body@));
    }
    b
}

} // verus!
