use keystone_vertex::errors::CommonError;
use keystone_vertex::launchpad::whitelist_leaf;
use keystone_vertex::merkle::{assert_merkle_proof, hash_nodes, verify_merkle_proof};
use keystone_vertex::pubkey::Pubkey;

fn hex(bytes: &[u8]) -> String {
    let mut out = String::new();
    for b in bytes {
        out.push_str(&format!("{:02x}", b));
    }
    out
}

#[test]
fn hash_nodes_is_keccak_of_the_concatenation() {
    let left = [1u8; 32];
    let right = [2u8; 32];
    let mut data = [0u8; 64];
    data[..32].copy_from_slice(&left);
    data[32..].copy_from_slice(&right);
    let expected = solana_program::keccak::hash(&data).to_bytes();
    let got = hash_nodes(&left, &right);
    assert_eq!(got, expected);
    assert_ne!(got, left);
    assert_ne!(got, right);
    assert_ne!(hash_nodes(&right, &left), got);
}

#[test]
fn hash_nodes_known_digest() {
    // Keccak-256 of 64 zero bytes.
    let zero = [0u8; 32];
    assert_eq!(
        hex(&hash_nodes(&zero, &zero)),
        "ad3228b676f7d3cd4284a5443f17f1962b36e491b30a40b2405849e597ba5fb5"
    );
}

#[test]
fn whitelist_leaf_is_keccak_of_the_address() {
    let wallet = Pubkey::new_from_array([7u8; 32]);
    let expected = solana_program::keccak::hashv(&[&[7u8; 32][..]]).to_bytes();
    assert_eq!(whitelist_leaf(&wallet), expected);
    assert_ne!(whitelist_leaf(&wallet), [7u8; 32]);
}

#[test]
fn empty_proof_holds_only_for_the_root_itself() {
    let leaf = [9u8; 32];
    assert!(verify_merkle_proof(leaf, &[], leaf));
    assert!(!verify_merkle_proof(leaf, &[], [8u8; 32]));
}

#[test]
fn proof_folds_smaller_first() {
    let a = [1u8; 32];
    let b = [2u8; 32];
    let root = hash_nodes(&a, &b);
    // both leaves prove against the same root, whatever side they stand on
    assert!(verify_merkle_proof(a, &[b], root));
    assert!(verify_merkle_proof(b, &[a], root));
    assert!(!verify_merkle_proof(a, &[b], hash_nodes(&b, &a)));
}

#[test]
fn byte_order_is_decided_at_the_first_difference() {
    let mut a = [0u8; 32];
    let mut b = [0u8; 32];
    a[5] = 1;
    a[31] = 0;
    b[5] = 0;
    b[31] = 255;
    // b < a because they first differ at index 5
    let root = hash_nodes(&b, &a);
    assert!(verify_merkle_proof(a, &[b], root));
    assert!(verify_merkle_proof(b, &[a], root));
}

#[test]
fn two_level_proof() {
    let l0 = [10u8; 32];
    let l1 = [20u8; 32];
    let l2 = [30u8; 32];
    let l3 = [40u8; 32];
    let order = |x: [u8; 32], y: [u8; 32]| if x <= y { hash_nodes(&x, &y) } else { hash_nodes(&y, &x) };
    let n01 = order(l0, l1);
    let n23 = order(l2, l3);
    let root = order(n01, n23);
    assert!(verify_merkle_proof(l0, &[l1, n23], root));
    assert!(verify_merkle_proof(l3, &[l2, n01], root));
    assert!(!verify_merkle_proof(l0, &[n23, l1], root));
    assert!(!verify_merkle_proof(l0, &[l1], root));
    assert_eq!(assert_merkle_proof(l2, &[l3, n01], root), Ok(()));
    assert_eq!(
        assert_merkle_proof(l2, &[l3, n01], [0u8; 32]),
        Err(CommonError::InvalidMerkleProof)
    );
}
