use alloy_primitives::{keccak256, PrimitiveSignature, U256};
use poi::fees::{compute_balance_needed, compute_blob_fee, compute_fee};
use poi::headers::{judge_headers, read_header};
use poi::inclusion::{judge_inclusion, ProvenTx};
use poi::public_values::encode;
use poi::signing::{judge_underwriter, read_signature, write_signature};
use poi::slot::{check_slot, get_slot_from_timestamp};
use poi::sponsorship::{
    check_sponsorship, find_sponsored, is_listed, read_sponsor_call, SPONSOR_ETH_BATCH_SELECTOR,
};
use poi::trie::{is_decodable_node, is_walkable, walk};
use poi::types::{PoiError, PublicValues, Signature, Transaction};
use poi::{create_public_values, types};

fn transaction() -> Transaction {
    Transaction {
        hash: [1; 32],
        is_eip4844: false,
        chain_id: Some(1),
        nonce: 0,
        gas_limit: 10,
        max_priority_fee_per_gas: Some(3),
        blob_versioned_hashes: Some(vec![[1; 32]; 2]),
        to: Some([9; 20]),
        input: vec![],
        signature_hash: [3; 32],
        signature: Signature { r: [1; 32], s: [2; 32], y_parity: false },
    }
}

fn header_json(excess_blob_gas: Option<u64>, base_fee_per_gas: Option<u64>) -> String {
    serde_json::to_string(&alloy_consensus::Header {
        excess_blob_gas,
        base_fee_per_gas,
        number: 17,
        timestamp: 18,
        ..Default::default()
    })
    .unwrap()
}

#[test]
fn slots_last_twelve_seconds() {
    assert_eq!(get_slot_from_timestamp(0, 0), 0);
    assert_eq!(get_slot_from_timestamp(11, 0), 0);
    assert_eq!(get_slot_from_timestamp(12, 0), 1);
    assert_eq!(get_slot_from_timestamp(1_606_824_023 + 35, 1_606_824_023), 2);
    assert_eq!(get_slot_from_timestamp(u64::MAX, 0), u64::MAX / 12);
}

#[test]
fn the_slot_has_to_be_the_target() {
    assert_eq!(check_slot(100, 40, 5), None);
    assert_eq!(check_slot(99, 40, 5), Some(PoiError::SlotMismatch { expected: 5, got: 4 }));
    assert_eq!(
        check_slot(39, 40, 0),
        Some(PoiError::TimestampBeforeGenesis { timestamp: 39, genesis_timestamp: 40 })
    );
}

#[test]
fn fees_add_up() {
    assert_eq!(compute_fee(7, 2, 1_000, 3, 21_000), Some(7 * 131_072 * 2 + 1_003 * 21_000));
    assert_eq!(compute_fee(0, 0, 0, 0, 0), Some(0));
    assert_eq!(compute_fee(0, 0, u64::MAX, 0, 1), Some(u64::MAX as u128));
    assert_eq!(compute_fee(0, 0, u64::MAX, 0, 2), None);
    assert_eq!(compute_fee(0, 0, 0, u128::MAX, 1), Some(u128::MAX));
    assert_eq!(compute_fee(0, 0, 1, u128::MAX, 1), None);
    assert_eq!(compute_fee(u128::MAX, 0, 0, 0, 0), None);
    assert_eq!(compute_fee(u128::MAX / 131_072, 1, 0, 0, 0), Some(u128::MAX / 131_072 * 131_072));
    assert_eq!(compute_fee(u128::MAX / 131_072, 2, 0, 0, 0), None);
}

#[test]
fn blob_fees_grow_with_the_excess() {
    let fee = |excess| compute_blob_fee(&read_header(&header_json(excess, None)).unwrap());
    assert_eq!(fee(Some(0)), Some(1));
    assert_eq!(fee(Some(5_007_716)), Some(2));
    assert_eq!(fee(Some(10_000_000)), Some(7));
    assert_eq!(fee(Some(284_284_038)), Some(4_513_889_219_352_594_568_141_843));
    assert_eq!(fee(Some(284_284_039)), None);
    assert_eq!(fee(None), None);
}

#[test]
fn the_balance_needed_depends_on_the_type() {
    let block = read_header(&header_json(Some(0), Some(5))).unwrap();
    let mut tx = transaction();
    assert_eq!(compute_balance_needed(0, &tx, &block, Some(1)), Ok(80));
    tx.is_eip4844 = true;
    assert_eq!(compute_balance_needed(0, &tx, &block, Some(1)), Ok(80 + 2 * 131_072));
    tx.blob_versioned_hashes = None;
    assert_eq!(compute_balance_needed(0, &tx, &block, Some(1)), Ok(80));
    assert_eq!(
        compute_balance_needed(1, &tx, &block, None),
        Err(PoiError::FeeOverflow { index: 1 })
    );
    tx.max_priority_fee_per_gas = None;
    assert_eq!(
        compute_balance_needed(2, &tx, &block, Some(1)),
        Err(PoiError::MissingPriorityFee { index: 2 })
    );
}

#[test]
fn amounts_compare_over_all_limbs() {
    let amount = |limbs| types::U256 { limbs };
    assert!(amount([5, 0, 0, 0]).covers(5));
    assert!(!amount([4, 0, 0, 0]).covers(5));
    assert!(amount([0, 1, 0, 0]).covers(u64::MAX as u128 + 1));
    assert!(!amount([u64::MAX, 0, 0, 0]).covers(u64::MAX as u128 + 1));
    assert!(amount([0, 0, 1, 0]).covers(u128::MAX));
    assert!(amount([0, 0, 0, 1]).covers(u128::MAX));
    assert!(amount([u64::MAX, u64::MAX, 0, 0]).covers(u128::MAX));
    assert!(!amount([u64::MAX - 1, u64::MAX, 0, 0]).covers(u128::MAX));
}

#[test]
fn signatures_are_read_from_hex() {
    let bytes: Vec<u8> = (0..64).collect();
    let text: String = bytes.iter().map(|byte| format!("{byte:02x}")).collect();
    let mut r = [0; 32];
    let mut s = [0; 32];
    r.copy_from_slice(&bytes[..32]);
    s.copy_from_slice(&bytes[32..]);
    let even = Some(Signature { r, s, y_parity: false });
    let odd = Some(Signature { r, s, y_parity: true });
    assert_eq!(read_signature(&format!("0x{text}1b")), even);
    assert_eq!(read_signature(&format!("{text}1c")), odd);
    assert_eq!(read_signature(&format!("0x{}1C", text.to_uppercase())), odd);
    assert_eq!(read_signature(&format!("{text}00")), even);
    assert_eq!(read_signature(&format!("{text}01")), odd);
    assert_eq!(read_signature(&format!("{text}23")), even);
    assert_eq!(read_signature(&format!("{text}ff")), even);
    assert_eq!(read_signature(&format!("{text}24")), odd);
    assert_eq!(read_signature(&format!("{text}02")), None);
    assert_eq!(read_signature(&format!("{text}1d")), None);
    assert_eq!(read_signature(&format!("{text}22")), None);
    assert_eq!(read_signature(&text), None);
    assert_eq!(read_signature(&format!("0X{text}1b")), None);
    assert_eq!(read_signature(&format!("{text}1g")), None);
    assert_eq!(read_signature(&format!(" {text}1b")), None);
    assert_eq!(read_signature(""), None);
}

#[test]
fn signatures_read_back() {
    let signature = PrimitiveSignature::test_signature();
    for parity in [false, true] {
        let signature = signature.with_parity(parity);
        let read = read_signature(&signature.to_string()).unwrap();
        assert_eq!(write_signature(&read), signature.as_bytes().to_vec());
        let text: String =
            write_signature(&read).iter().map(|byte| format!("{byte:02x}")).collect();
        assert_eq!(read_signature(&text), Some(read));
    }
}

#[test]
fn the_underwriter_is_the_recovered_address() {
    assert_eq!(judge_underwriter(Some([1; 20]), &[1; 20]), None);
    assert_eq!(judge_underwriter(None, &[1; 20]), Some(PoiError::UnrecoverableUnderwriter));
    assert_eq!(
        judge_underwriter(Some([2; 20]), &[1; 20]),
        Some(PoiError::UnderwriterMismatch { expected: [1; 20], recovered: [2; 20] })
    );
}

#[test]
fn headers_are_judged_in_order() {
    let (a, b, c) = ([1; 32], [2; 32], [3; 32]);
    assert_eq!(judge_headers(&b, &a, &a, &b, &b), None);
    assert_eq!(
        judge_headers(&c, &a, &c, &b, &c),
        Some(PoiError::InclusionHashMismatch { computed: a, expected: c })
    );
    assert_eq!(
        judge_headers(&c, &a, &a, &b, &c),
        Some(PoiError::PreviousHashMismatch { computed: b, expected: c })
    );
    assert_eq!(
        judge_headers(&c, &a, &a, &b, &b),
        Some(PoiError::BrokenChain { parent: c, previous: b })
    );
}

#[test]
fn headers_are_read_from_json() {
    let header = read_header(&header_json(Some(3), Some(4))).unwrap();
    assert_eq!(header.number, 17);
    assert_eq!(header.timestamp, 18);
    assert_eq!(header.excess_blob_gas, Some(3));
    assert_eq!(header.base_fee_per_gas, Some(4));
    assert_eq!(header.withdrawals_root, None);
    assert_eq!(read_header("{\"number\": 17}"), None);
}

#[test]
fn inclusion_is_judged_on_given_facts() {
    let root = [7; 32];
    let judge = |proven| judge_inclusion(2, &root, &root, proven, &[1; 32]);
    assert_eq!(judge(ProvenTx::Hash([1; 32])), None);
    assert_eq!(judge(ProvenTx::InvalidProof), Some(PoiError::InvalidProof { index: 2 }));
    assert_eq!(judge(ProvenTx::NoValue), Some(PoiError::ProofWithoutValue { index: 2 }));
    assert_eq!(
        judge(ProvenTx::Undecodable),
        Some(PoiError::UndecodableTransaction { index: 2 })
    );
    assert_eq!(
        judge(ProvenTx::Hash([3; 32])),
        Some(PoiError::TransactionHashMismatch { index: 2, expected: [1; 32], got: [3; 32] })
    );
    assert_eq!(
        judge_inclusion(2, &[8; 32], &root, ProvenTx::Hash([1; 32]), &[1; 32]),
        Some(PoiError::ProofRootMismatch { index: 2, expected: root, got: [8; 32] })
    );
}

#[test]
fn the_selector_is_that_of_the_batch_sponsorship() {
    let hash = keccak256("sponsorEthBatch(address[],uint256[])");
    assert_eq!(SPONSOR_ETH_BATCH_SELECTOR, hash.0[..4]);
}

fn batch(recipients: &[[u8; 20]], amounts: &[u8]) -> Vec<u8> {
    let word = |n: usize| U256::from(n).to_be_bytes::<32>();
    let mut data = SPONSOR_ETH_BATCH_SELECTOR.to_vec();
    data.extend(word(64));
    data.extend(word(96 + 32 * recipients.len()));
    data.extend(word(recipients.len()));
    for recipient in recipients {
        data.extend([0; 12]);
        data.extend(recipient);
    }
    data.extend(word(amounts.len()));
    for amount in amounts {
        data.extend([*amount; 32]);
    }
    data
}

#[test]
fn batch_sponsorships_read_back() {
    for (recipients, amounts) in [
        (vec![], vec![]),
        (vec![[1; 20]], vec![9]),
        (vec![[1; 20], [2; 20], [1; 20]], vec![]),
        (vec![[1; 20]], vec![4, 5, 6]),
    ] {
        let (to, values) = read_sponsor_call(&batch(&recipients, &amounts)).unwrap();
        assert_eq!(to, recipients);
        let words: Vec<[u8; 32]> = amounts.iter().map(|amount| [*amount; 32]).collect();
        assert_eq!(values, words);
    }
}

#[test]
fn other_calldata_is_no_batch_sponsorship() {
    let good = batch(&[[1; 20]], &[9]);
    assert!(read_sponsor_call(&good).is_some());
    for i in 0..good.len() - 32 {
        // The bytes of the recipient may be any.
        if !(112..132).contains(&i) {
            let mut bad = good.clone();
            bad[i] ^= 1;
            assert_eq!(read_sponsor_call(&bad), None, "byte {}", i);
        }
    }
    for length in 0..good.len() {
        assert_eq!(read_sponsor_call(&good[..length].to_vec()), None);
    }
}

#[test]
fn recipients_count_up_to_the_amounts() {
    let mut tx = transaction();
    tx.input = batch(&[[1; 20], [2; 20]], &[1]);
    assert_eq!(find_sponsored(&tx, &[9; 20]), Ok(vec![[1; 20]]));
    tx.input = batch(&[[1; 20], [2; 20]], &[1, 2, 3]);
    assert_eq!(find_sponsored(&tx, &[9; 20]), Ok(vec![[1; 20], [2; 20]]));
    tx.input.clear();
    assert_eq!(find_sponsored(&tx, &[9; 20]), Err(PoiError::SponsorCallFormat));
    tx.to = Some([8; 20]);
    assert_eq!(
        find_sponsored(&tx, &[9; 20]),
        Err(PoiError::RecipientMismatch { expected: [9; 20], got: [8; 20] })
    );
    tx.to = None;
    assert_eq!(find_sponsored(&tx, &[9; 20]), Err(PoiError::MissingRecipient));
}

#[test]
fn sponsorship_is_counted_by_sender() {
    let (a, b, c) = ([1; 20], [2; 20], [3; 20]);
    assert_eq!(check_sponsorship(&vec![b, a], &vec![a, b, a]), None);
    assert_eq!(check_sponsorship(&vec![], &vec![]), None);
    assert_eq!(
        check_sponsorship(&vec![b, b, b], &vec![a, b, c, c]),
        Some(PoiError::UnsponsoredSenders { found: 1, expected: 3 })
    );
    assert!(is_listed(&vec![a, b], &b));
    assert!(!is_listed(&vec![a, b], &c));
}

#[test]
fn public_values_are_laid_out_in_words() {
    let values = PublicValues {
        proof_block_timestamp: 0x0102,
        proof_block_hash: [0xaa; 32],
        proof_block_number: 7,
        underwriter_address: [0xbb; 20],
        proof_signature: vec![0xcc; 65],
        genesis_timestamp: 9,
        taiyi_core: [0xdd; 20],
    };
    let word = |n: u64| U256::from(n).to_be_bytes::<32>().to_vec();
    let mut expected = word(0x0102);
    expected.extend([0xaa; 32]);
    expected.extend(word(7));
    expected.extend([0; 12]);
    expected.extend([0xbb; 20]);
    expected.extend(word(224));
    expected.extend(word(9));
    expected.extend([0; 12]);
    expected.extend([0xdd; 20]);
    expected.extend(word(65));
    expected.extend([0xcc; 65]);
    expected.extend([0; 31]);
    assert_eq!(encode(&values), expected);
    let mut full = values.clone();
    full.proof_signature = vec![1; 64];
    assert_eq!(encode(&full).len(), 256 + 64);
    full.proof_signature = vec![];
    assert_eq!(encode(&full).len(), 256);
}

#[test]
fn public_values_are_collected() {
    let header = read_header(&header_json(None, None)).unwrap();
    let signature = Signature { r: [1; 32], s: [2; 32], y_parity: true };
    let values = create_public_values(&header, &[3; 32], &[4; 20], &signature, 5, &[6; 20]);
    let mut bytes = vec![1; 32];
    bytes.extend([2; 32]);
    bytes.push(28);
    assert_eq!(
        values,
        PublicValues {
            proof_block_timestamp: 18,
            proof_block_hash: [3; 32],
            proof_block_number: 17,
            underwriter_address: [4; 20],
            proof_signature: bytes,
            genesis_timestamp: 5,
            taiyi_core: [6; 20],
        }
    );
}

#[test]
fn trie_nodes_are_told_from_other_bytes() {
    let decodable = |bytes: &[u8]| is_decodable_node(bytes);
    let hash = [vec![0xa0], vec![7; 32]].concat();
    assert!(decodable(&[0x80]));
    assert!(decodable(&hash));
    assert!(!decodable(&[hash.clone(), vec![0]].concat()));
    assert!(!decodable(&[]));
    assert!(!decodable(&[0x05]));
    assert!(!decodable(&[0xc0]));
    // A leaf, with and without a path.
    assert!(decodable(&[0xc2, 0x20, 0x01]));
    assert!(decodable(&[0xc2, 0x31, 0x01]));
    // Extensions of a hash: one nibble, none, and an unknown flag.
    let extension = |flag: u8| [vec![0xe2, flag], hash.clone()].concat();
    assert!(decodable(&extension(0x1a)));
    assert!(!decodable(&extension(0x00)));
    assert!(!decodable(&extension(0x40)));
    // A branch of hashes, and one with a child that is no node.
    let branch = |child: &[u8]| {
        let payload = [child.to_vec(), vec![0x80; 16]].concat();
        [vec![0xc0 + payload.len() as u8], payload].concat()
    };
    assert!(decodable(&branch(&hash)));
    assert!(!decodable(&branch(&[0x05])));
    assert!(decodable(&branch(&[0xc2, 0x20, 0x01])));
    // A list of one short byte, which is no node.
    assert!(!decodable(&branch(&[0xc1, 0x05])));
    // Long lengths: a leaf with 56 bytes, the same with a length of two bytes, and one
    // with a byte missing.
    let long = [vec![0xf8, 59, 0x20, 0xb8, 56], vec![1; 56]].concat();
    assert!(decodable(&long));
    assert!(!decodable(&[vec![0xf9, 0, 59], long[2..].to_vec()].concat()));
    assert!(!decodable(&long[..60]));
}

/// A branch with one child.
fn branch_at(index: usize, child: &[u8]) -> Vec<u8> {
    let payload = [vec![0x80; index], child.to_vec(), vec![0x80; 16 - index]].concat();
    if payload.len() < 56 {
        [vec![0xc0 + payload.len() as u8], payload].concat()
    } else {
        [vec![0xf8, payload.len() as u8], payload].concat()
    }
}

/// An extension of one nibble.
fn extension_of(child: &[u8]) -> Vec<u8> {
    [vec![0xc1 + child.len() as u8, 0x11], child.to_vec()].concat()
}

#[test]
fn walks_follow_the_key() {
    // The nibbles of the key are 0, 1, 2 and so on, over and over.
    let mut key = [0; 32];
    for (i, byte) in [0x01, 0x23, 0x45, 0x67, 0x89, 0xab, 0xcd, 0xef].iter().cycle().enumerate().take(32) {
        key[i] = *byte;
    }
    let leaf = [0xc2, 0x31, 0x01];
    let hash = [vec![0xa0], vec![7; 32]].concat();
    let odd = extension_of(&leaf);
    assert_eq!(walk(&[0x80], &key, 0), Some(0));
    assert_eq!(walk(&leaf, &key, 5), Some(6));
    assert_eq!(walk(&leaf, &key, 64), Some(64));
    assert_eq!(walk(&[0xc4, 0x82, 0x20, 0xab, 0x01], &key, 63), Some(64));
    assert_eq!(walk(&[0xc4, 0x82, 0x00, 0xab, 0x80], &key, 1), Some(3));
    assert_eq!(walk(&odd, &key, 0), Some(1));
    // Of a branch only the child at the next nibble matters.
    assert_eq!(walk(&branch_at(3, &hash), &key, 3), Some(4));
    assert_eq!(walk(&branch_at(3, &leaf), &key, 3), Some(5));
    assert_eq!(walk(&branch_at(3, &odd), &key, 3), None);
    assert_eq!(walk(&branch_at(3, &odd), &key, 4), Some(5));
    assert_eq!(walk(&branch_at(3, &odd), &key, 64), Some(64));
    assert_eq!(walk(&branch_at(15, &odd), &key, 63), None);
    assert_eq!(walk(&branch_at(3, &extension_of(&[0x80])), &key, 3), None);
    assert_eq!(walk(&branch_at(3, &extension_of(&hash)), &key, 3), None);
    // Embedded branches and extensions are walked through.
    let inner = branch_at(5, &odd);
    assert_eq!(walk(&branch_at(4, &inner), &key, 4), None);
    assert_eq!(walk(&branch_at(3, &inner), &key, 3), Some(5));
    assert_eq!(walk(&branch_at(3, &extension_of(&inner)), &key, 3), None);
    assert_eq!(walk(&branch_at(2, &extension_of(&inner)), &key, 2), Some(5));
    // A child of 33 bytes is not looked into, whatever it is.
    let child = [vec![0xe0, 0x11, 0xde, 0x31, 0x9c], vec![1; 28]].concat();
    assert_eq!(child.len(), 33);
    assert_eq!(walk(&branch_at(3, &child), &key, 3), Some(4));
    // The position is carried from node to node.
    assert!(is_walkable(&vec![], &key));
    assert!(is_walkable(&vec![leaf.to_vec(), branch_at(0, &odd)], &key));
    assert!(!is_walkable(&vec![leaf.to_vec(), branch_at(1, &odd)], &key));
    assert!(!is_walkable(&vec![branch_at(0, &hash), branch_at(1, &odd)], &key));
    assert!(!is_walkable(&vec![branch_at(0, &odd), leaf.to_vec()], &key));
}

#[test]
fn different_public_values_are_encoded_differently() {
    let values = PublicValues {
        proof_block_timestamp: 1,
        proof_block_hash: [2; 32],
        proof_block_number: 3,
        underwriter_address: [4; 20],
        proof_signature: vec![5],
        genesis_timestamp: 6,
        taiyi_core: [7; 20],
    };
    let mut others = vec![values.clone(); 8];
    others[0].proof_block_timestamp = 0;
    others[1].proof_block_hash[31] = 0;
    others[2].proof_block_number = 1 << 40;
    others[3].underwriter_address[0] = 0;
    others[4].proof_signature = vec![5, 0];
    others[5].proof_signature = vec![];
    others[6].genesis_timestamp = u64::MAX;
    others[7].taiyi_core[19] = 0;
    for other in others {
        assert_ne!(encode(&other), encode(&values));
    }
}

#[test]
fn different_signatures_are_written_differently() {
    let one = Signature { r: [1; 32], s: [2; 32], y_parity: false };
    for other in [
        Signature { r: [2; 32], s: [1; 32], y_parity: false },
        Signature { r: [1; 32], s: [3; 32], y_parity: false },
        Signature { r: [1; 32], s: [2; 32], y_parity: true },
    ] {
        assert_ne!(write_signature(&one), write_signature(&other));
    }
}
