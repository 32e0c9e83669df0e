use chaincore::consensus::{build_contentious_forked_chain, Header, Policy, THRESHOLD};

#[test]
fn part_3_genesis_block_height() {
    let g = Header::genesis();
    assert_eq!(g.height, 0);
}

#[test]
fn part_3_genesis_block_parent() {
    let g = Header::genesis();
    assert_eq!(g.parent, 0);
}

#[test]
fn part_3_genesis_block_extrinsic() {
    // Genesis blocks carry no extrinsics; by convention the field is 0.
    let g = Header::genesis();
    assert_eq!(g.extrinsic, 0);
}

#[test]
fn part_3_genesis_block_state() {
    let g = Header::genesis();
    assert_eq!(g.state, 0);
}

#[test]
fn part_3_genesis_consensus_digest() {
    // Genesis is exempt from proof of work; its nonce is defined to be 0.
    let g = Header::genesis();
    assert_eq!(g.consensus_digest, 0);
}

#[test]
fn part_3_child_block_height() {
    let g = Header::genesis();
    let b1 = g.child(0);
    assert_eq!(b1.height, 1);
}

#[test]
fn part_3_child_block_parent() {
    let g = Header::genesis();
    let b1 = g.child(0);
    assert_eq!(b1.parent, g.digest());
}

#[test]
fn part_3_child_block_extrinsic() {
    let g = Header::genesis();
    let b1 = g.child(7);
    assert_eq!(b1.extrinsic, 7);
}

#[test]
fn part_3_child_block_state() {
    let g = Header::genesis();
    let b1 = g.child(7);
    assert_eq!(b1.state, 7);
}

#[test]
fn part_3_child_block_consensus_digest() {
    let g = Header::genesis();
    let b1 = g.child(7);
    assert!(b1.digest() < THRESHOLD);
}

#[test]
fn part_3_verify_genesis_only() {
    let g = Header::genesis();

    assert!(g.verify_sub_chain(&vec![]));
}

#[test]
fn part_3_verify_three_blocks() {
    let g = Header::genesis();
    let b1 = g.child(5);
    let b2 = b1.child(6);

    assert_eq!(b2.state, 11);
    assert!(g.verify_sub_chain(&vec![b1, b2]));
}

#[test]
fn part_3_cant_verify_invalid_parent() {
    let g = Header::genesis();
    let mut b1 = g.child(5);
    b1.parent = 10;

    assert!(!g.verify_sub_chain(&vec![b1]));
}

#[test]
fn part_3_cant_verify_invalid_number() {
    let g = Header::genesis();
    let mut b1 = g.child(5);
    b1.height = 10;

    assert!(!g.verify_sub_chain(&vec![b1]));
}

#[test]
fn part_3_cant_verify_invalid_state() {
    let g = Header::genesis();
    let mut b1 = g.child(5);
    b1.state = 10;

    assert!(!g.verify_sub_chain(&vec![b1]));
}

#[test]
fn part_3_cant_verify_invalid_pow() {
    let g = Header::genesis();
    let mut b1 = g.child(5);
    // It is possible that this test will pass with a false positive because
    // the PoW difficulty is relatively low.
    b1.consensus_digest = 10;

    assert!(!g.verify_sub_chain(&vec![b1]));
}

#[test]
fn part_3_even_chain_valid() {
    let g = Header::genesis(); // 0
    let b1 = g.child(2); // 2
    let b2 = b1.child(1); // 3

    // It's all about the states, not the extrinsics. So once the state is
    // even we need to keep it that way. So add evens.

    let b3 = b2.child(1); // 4
    let b4 = b3.child(2); // 6

    assert!(g.verify_sub_chain_even(&vec![b1, b2, b3, b4]));
}

#[test]
fn part_3_even_chain_invalid_first_block_after_fork() {
    let g = Header::genesis(); // 0
    let b1 = g.child(2); // 2
    let b2 = b1.child(1); // 3
    let b3 = b2.child(2); // 5 - invalid
    let b4 = b3.child(1); // 6

    assert!(!g.verify_sub_chain_even(&vec![b1, b2, b3, b4]));
}

#[test]
fn part_3_even_chain_invalid_second_block_after_fork() {
    let g = Header::genesis(); // 0
    let b1 = g.child(2); // 2
    let b2 = b1.child(1); // 3
    let b3 = b2.child(1); // 4
    let b4 = b3.child(1); // 5 - invalid

    assert!(!g.verify_sub_chain_even(&vec![b1, b2, b3, b4]));
}

#[test]
fn part_3_odd_chain_valid() {
    let g = Header::genesis(); // 0
    let b1 = g.child(2); // 2
    let b2 = b1.child(1); // 3
                          // It's all about the states, not the extrinsics. So once the state is odd
                          // we need to keep it that way. So add evens.
    let b3 = b2.child(2); // 5
    let b4 = b3.child(2); // 7

    assert!(g.verify_sub_chain_odd(&vec![b1, b2, b3, b4]));
}

#[test]
fn part_3_odd_chain_invalid_first_block_after_fork() {
    let g = Header::genesis(); // 0
    let b1 = g.child(2); // 2
    let b2 = b1.child(1); // 3
    let b3 = b2.child(1); // 4 - invalid
    let b4 = b3.child(1); // 5

    assert!(!g.verify_sub_chain_odd(&vec![b1, b2, b3, b4]));
}

#[test]
fn part_3_odd_chain_invalid_second_block_after_fork() {
    let g = Header::genesis(); // 0
    let b1 = g.child(2); // 2
    let b2 = b1.child(1); // 3
    let b3 = b2.child(2); // 5
    let b4 = b3.child(1); // 6 - invalid

    assert!(!g.verify_sub_chain_odd(&vec![b1, b2, b3, b4]));
}

#[test]
fn part_3_verify_forked_chain() {
    let (prefix, even, odd) = build_contentious_forked_chain();

    let g = &prefix[0];
    let full_even_chain = [&prefix[1..], &even[..]].concat();
    let full_odd_chain = [&prefix[1..], &odd[..]].concat();

    // Both chains are individually valid according to the original rules.
    assert!(g.verify_sub_chain(&full_even_chain));
    assert!(g.verify_sub_chain(&full_odd_chain));

    // Only the even chain is valid according to the even rules
    assert!(g.verify_sub_chain_even(&full_even_chain));
    assert!(!g.verify_sub_chain_even(&full_odd_chain));

    // Only the odd chain is valid according to the odd rules
    assert!(!g.verify_sub_chain_odd(&full_even_chain));
    assert!(g.verify_sub_chain_odd(&full_odd_chain));
}

#[test]
fn mined_chain_verifies_under_every_policy_prefix() {
    // A freshly mined chain passes the unconditional rules, and any parity
    // rule whose activation height it has not yet crossed.
    let g = Header::genesis();
    let b1 = g.child(4); // 4
    let b2 = b1.child(2); // 6
    let b3 = b2.child(8); // 14
    let chain = vec![b1, b2, b3];

    assert!(g.verify_from(&chain, &Policy::Unconditional));
    assert!(g.verify_from(&chain, &Policy::EvenAfter(3)));
    assert!(g.verify_from(&chain, &Policy::OddAfter(3)));
}

#[test]
fn empty_chain_verifies_under_every_policy() {
    let g = Header::genesis();

    assert!(g.verify_from(&vec![], &Policy::Unconditional));
    assert!(g.verify_from(&vec![], &Policy::EvenAfter(0)));
    assert!(g.verify_from(&vec![], &Policy::OddAfter(0)));
}

#[test]
fn verify_from_equals_repeated_verify_child() {
    let g = Header::genesis();
    let b1 = g.child(5);
    let b2 = b1.child(6);
    // States are 5 and 11: both odd, so the odd rule passes the chain.
    let policy = Policy::OddAfter(1);
    let whole = g.verify_from(&vec![b1, b2], &policy);
    let stepwise = g.verify_child(&b1, &policy) && b1.verify_child(&b2, &policy);
    assert_eq!(whole, stepwise);
    assert!(whole);

    // The same equality on a chain whose second link fails the policy.
    let policy = Policy::EvenAfter(1);
    let whole = g.verify_from(&vec![b1, b2], &policy);
    let stepwise = g.verify_child(&b1, &policy) && b1.verify_child(&b2, &policy);
    assert_eq!(whole, stepwise);
    assert!(!whole);
}

#[test]
fn parity_policy_ignores_headers_at_activation_height() {
    // A header exactly at the activation height is accepted whatever its
    // state's parity; only heights strictly beyond it are constrained.
    let g = Header::genesis();
    let b1 = g.child(1); // state 1, height 1

    assert!(g.verify_from(&vec![b1], &Policy::EvenAfter(1)));
    assert!(!g.verify_from(&vec![b1], &Policy::EvenAfter(0)));
}

#[test]
fn mined_headers_pass_the_pow_check() {
    let g = Header::genesis();
    let b1 = g.child(9);
    let b2 = b1.child(0);
    assert!(b1.verify_pow());
    assert!(b2.verify_pow());
}

#[test]
fn digest_is_deterministic() {
    let g = Header::genesis();
    let b1 = g.child(3);
    assert_eq!(g.digest(), g.digest());
    assert_eq!(b1.digest(), b1.digest());
}
