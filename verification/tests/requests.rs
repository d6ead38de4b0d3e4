use std::sync::Arc;

use alloy_consensus::{
    SignableTransaction, TxEip1559, TxEip2930, TxEip4844, TxEip4844Variant,
    TxEip4844WithSidecar, TxEip7702, TxEnvelope, TxLegacy,
};
use alloy_eips::eip2718::Encodable2718;
use alloy_primitives::{keccak256, Bytes, PrimitiveSignature, TxKind, B256, U256};
use alloy_sol_types::SolValue;
use eth_trie::{EthTrie, MemoryDB, Trie};
use poi::accounts::{
    check_account, check_account_proof, judge_account, recover_signer, AccountVerdict,
};
use poi::inclusion::{follow_proof, judge_inclusion, ProvenTx};
use poi::types::{
    AccountMerkleProof, BlockHeader, EncodedTx, PoiError, PreconfRequest, PreconfTypeA,
    PreconfTypeB, Signature, Transaction, TxMerkleProof, VerificationResult,
};
use poi::transactions::{read_optional_transaction, read_transaction, read_transactions};
use poi::verification::{find_type_a_chain, find_type_b_chain, judge_type_a, judge_type_b};
use poi::{run_poi_verification, verify_and_commit};

const CORE: [u8; 20] = [0xc0; 20];
const GENESIS: u64 = 1_606_824_023;
const SLOT: u64 = 11_500_000;
const DIGEST: [u8; 32] = [0xd1; 32];
const SELECTOR: [u8; 4] = [0x28, 0x11, 0x24, 0x8f];

fn sample_signature() -> PrimitiveSignature {
    PrimitiveSignature::test_signature()
}

fn plain_signature(signature: &PrimitiveSignature) -> Signature {
    Signature {
        r: signature.r().to_be_bytes(),
        s: signature.s().to_be_bytes(),
        y_parity: signature.v(),
    }
}

fn plain(envelope: &TxEnvelope) -> EncodedTx {
    EncodedTx { hash: envelope.tx_hash().0, bytes: envelope.encoded_2718() }
}

fn decoded(envelope: &TxEnvelope) -> Transaction {
    read_transaction(&plain(envelope)).unwrap()
}

fn block(header: &alloy_consensus::Header) -> BlockHeader {
    poi::headers::read_header(&serde_json::to_string(header).unwrap()).unwrap()
}

/// A transaction of the oldest type.
fn legacy(chain_id: Option<u64>) -> TxEnvelope {
    TxLegacy {
        chain_id,
        nonce: 3,
        gas_price: 5_000_000_000,
        gas_limit: 21_000,
        to: TxKind::Call([0x11; 20].into()),
        ..Default::default()
    }
    .into_signed(sample_signature())
    .into()
}

fn transfer(nonce: u64) -> TxEnvelope {
    TxEip1559 {
        chain_id: 1,
        nonce,
        gas_limit: 21_000,
        max_fee_per_gas: 100_000_000_000,
        max_priority_fee_per_gas: 2_000_000_000,
        to: TxKind::Call([0x11; 20].into()),
        value: U256::from(5u64),
        ..Default::default()
    }
    .into_signed(sample_signature())
    .into()
}

fn blob_transfer(blobs: usize) -> TxEnvelope {
    let tx = TxEip4844 {
        chain_id: 1,
        nonce: 3,
        gas_limit: 21_000,
        max_fee_per_gas: 100_000_000_000,
        max_priority_fee_per_gas: 2_000_000_000,
        to: [0x11; 20].into(),
        max_fee_per_blob_gas: 100,
        blob_versioned_hashes: vec![B256::repeat_byte(1); blobs],
        ..Default::default()
    };
    let tx: TxEip4844Variant = tx.into();
    tx.into_signed(sample_signature()).into()
}

fn calldata(recipients: &[[u8; 20]], amounts: usize) -> Vec<u8> {
    let recipients: Vec<alloy_primitives::Address> =
        recipients.iter().map(|recipient| (*recipient).into()).collect();
    let amounts: Vec<U256> = (0..amounts).map(|i| U256::from(i)).collect();
    let mut data = SELECTOR.to_vec();
    data.extend((recipients, amounts).abi_encode_sequence());
    data
}

fn sponsor(to: TxKind, input: Vec<u8>) -> TxEnvelope {
    TxEip1559 {
        chain_id: 1,
        nonce: 77,
        gas_limit: 500_000,
        max_fee_per_gas: 100_000_000_000,
        max_priority_fee_per_gas: 2_000_000_000,
        to,
        input: Bytes::from(input),
        ..Default::default()
    }
    .into_signed(sample_signature())
    .into()
}

fn signer_of(envelope: &TxEnvelope) -> [u8; 20] {
    envelope.recover_signer().unwrap().into_array()
}

/// The transactions trie with these transactions, and a proof for each.
fn tx_trie(envelopes: &[TxEnvelope]) -> (B256, Vec<TxMerkleProof>) {
    let mut trie = EthTrie::new(Arc::new(MemoryDB::new(true)));
    for (i, envelope) in envelopes.iter().enumerate() {
        trie.insert(&alloy_rlp::encode(i as u64), &envelope.encoded_2718()).unwrap();
    }
    let root = trie.root_hash().unwrap();
    let proofs = (0..envelopes.len())
        .map(|i| {
            let key = alloy_rlp::encode(i as u64);
            let proof = trie.get_proof(&key).unwrap();
            TxMerkleProof { root: root.0, key, proof }
        })
        .collect();
    (root, proofs)
}

fn account(address: [u8; 20], nonce: u64, balance: u128) -> AccountMerkleProof {
    AccountMerkleProof {
        address,
        nonce,
        balance: poi::types::U256 { limbs: U256::from(balance).into_limbs() },
        storage_hash: [0x51; 32],
        code_hash: [0xce; 32],
        account_proof: vec![],
    }
}

/// The state trie with these accounts among others, and the proofs filled in.
fn state_trie(accounts: &mut [AccountMerkleProof]) -> B256 {
    let mut trie = EthTrie::new(Arc::new(MemoryDB::new(true)));
    for filler in 0..40u8 {
        let other = account([filler; 20], 1, 1);
        trie.insert(keccak256(other.address).as_slice(), &account_rlp(&other)).unwrap();
    }
    for entry in accounts.iter() {
        trie.insert(keccak256(entry.address).as_slice(), &account_rlp(entry)).unwrap();
    }
    let root = trie.root_hash().unwrap();
    for entry in accounts.iter_mut() {
        entry.account_proof = trie.get_proof(keccak256(entry.address).as_slice()).unwrap();
    }
    root
}

fn account_rlp(entry: &AccountMerkleProof) -> Vec<u8> {
    alloy_rlp::encode(alloy_trie::TrieAccount {
        nonce: entry.nonce,
        balance: U256::from_limbs(entry.balance.limbs),
        storage_root: entry.storage_hash.into(),
        code_hash: entry.code_hash.into(),
    })
}

struct Case {
    request: Option<PreconfRequest>,
    signature: String,
    inclusion: alloy_consensus::Header,
    previous: alloy_consensus::Header,
    underwriter: [u8; 20],
    genesis: u64,
    core: [u8; 20],
}

fn headers(tx_root: B256, state_root: B256) -> (alloy_consensus::Header, alloy_consensus::Header) {
    let previous = alloy_consensus::Header {
        number: 99,
        state_root,
        base_fee_per_gas: Some(7),
        extra_data: Bytes::from_static(b"parent"),
        ..Default::default()
    };
    let inclusion = alloy_consensus::Header {
        number: 100,
        parent_hash: previous.hash_slow(),
        transactions_root: tx_root,
        timestamp: GENESIS + 12 * SLOT + 5,
        base_fee_per_gas: Some(1_000_000_000),
        blob_gas_used: Some(131_072),
        excess_blob_gas: Some(10_000_000),
        withdrawals_root: Some(B256::repeat_byte(9)),
        parent_beacon_block_root: Some(B256::repeat_byte(8)),
        requests_hash: Some(B256::repeat_byte(7)),
        difficulty: U256::from(3u64),
        gas_limit: 30_000_000,
        gas_used: 21_000,
        ..Default::default()
    };
    (inclusion, previous)
}

fn underwriter() -> [u8; 20] {
    sample_signature().recover_address_from_prehash(&B256::from(DIGEST)).unwrap().into_array()
}

const RICH: u128 = 1_000_000_000_000_000_000;

/// Three transactions of three senders behind an anchor that sponsors them all.
fn case_a() -> Case {
    let transactions = vec![transfer(3), transfer(4), blob_transfer(2)];
    let senders: Vec<[u8; 20]> = transactions.iter().map(signer_of).collect();
    case_a_with(transactions, &senders, 3, 3)
}

fn case_a_with(
    transactions: Vec<TxEnvelope>,
    sponsored: &[[u8; 20]],
    amounts: usize,
    nonce: u64,
) -> Case {
    let anchor = sponsor(TxKind::Call(CORE.into()), calldata(sponsored, amounts));
    let mut in_block = vec![anchor.clone()];
    in_block.extend(transactions.iter().cloned());
    let (tx_root, tx_merkle_proof) = tx_trie(&in_block);
    let mut accounts: Vec<AccountMerkleProof> =
        transactions.iter().map(|tx| account(signer_of(tx), nonce, RICH)).collect();
    let state_root = state_trie(&mut accounts);
    let (inclusion, previous) = headers(tx_root, state_root);
    Case {
        request: Some(PreconfRequest::TypeA(PreconfTypeA {
            transactions: transactions.iter().map(plain).collect(),
            target_slot: SLOT,
            digest: DIGEST,
            account_merkle_proof: accounts,
            tx_merkle_proof,
            anchor_tx: plain(&anchor),
        })),
        signature: sample_signature().to_string(),
        inclusion,
        previous,
        underwriter: underwriter(),
        genesis: GENESIS,
        core: CORE,
    }
}

/// One transaction and the sponsorship of its sender.
fn case_b() -> Case {
    case_b_with(transfer(3), None, 3, RICH)
}

fn case_b_with(tx: TxEnvelope, sponsored: Option<[u8; 20]>, nonce: u64, balance: u128) -> Case {
    let sponsored = sponsored.unwrap_or_else(|| signer_of(&tx));
    let sponsorship = sponsor(TxKind::Call(CORE.into()), calldata(&[[1; 20], sponsored], 2));
    let (tx_root, tx_merkle_proof) = tx_trie(&[tx.clone(), sponsorship.clone()]);
    let mut accounts = vec![account(signer_of(&tx), nonce, balance)];
    let state_root = state_trie(&mut accounts);
    let (inclusion, previous) = headers(tx_root, state_root);
    Case {
        request: Some(PreconfRequest::TypeB(PreconfTypeB {
            transaction: Some(plain(&tx)),
            target_slot: SLOT,
            digest: DIGEST,
            account_merkle_proof: accounts.remove(0),
            tx_merkle_proof,
            sponsorship_tx: plain(&sponsorship),
        })),
        signature: sample_signature().to_string(),
        inclusion,
        previous,
        underwriter: underwriter(),
        genesis: GENESIS,
        core: CORE,
    }
}

fn type_a(case: &mut Case) -> &mut PreconfTypeA {
    match case.request.as_mut().unwrap() {
        PreconfRequest::TypeA(request) => request,
        PreconfRequest::TypeB(_) => panic!("a request of type A was expected"),
    }
}

fn type_b(case: &mut Case) -> &mut PreconfTypeB {
    match case.request.as_mut().unwrap() {
        PreconfRequest::TypeB(request) => request,
        PreconfRequest::TypeA(_) => panic!("a request of type B was expected"),
    }
}

fn run(case: &Case) -> Result<VerificationResult, PoiError> {
    run_poi_verification(
        &case.request,
        &case.signature,
        &serde_json::to_string(&case.inclusion).unwrap(),
        &case.inclusion.hash_slow().0,
        &serde_json::to_string(&case.previous).unwrap(),
        &case.previous.hash_slow().0,
        &case.underwriter,
        case.genesis,
        &case.core,
    )
}

#[test]
fn type_a_succeeds() {
    assert_eq!(run(&case_a()), Ok(VerificationResult::Success));
}

#[test]
fn type_b_succeeds() {
    assert_eq!(run(&case_b()), Ok(VerificationResult::Success));
}

#[test]
fn type_b_blob_transaction_succeeds() {
    let case = case_b_with(blob_transfer(6), None, 3, RICH);
    assert_eq!(run(&case), Ok(VerificationResult::Success));
}

#[test]
fn a_used_nonce_is_a_failure() {
    let senders: Vec<[u8; 20]> = vec![signer_of(&transfer(3))];
    let case = case_a_with(vec![transfer(3)], &senders, 1, 4);
    assert_eq!(run(&case), Ok(VerificationResult::Failed));
    assert_eq!(run(&case_b_with(transfer(3), None, 4, RICH)), Ok(VerificationResult::Failed));
}

#[test]
fn the_balance_has_to_cover_the_fees() {
    let needed: u128 = 1_000_000_000 * 21_000 + 2_000_000_000 * 21_000;
    let exact = case_b_with(transfer(3), None, 3, needed);
    assert_eq!(run(&exact), Ok(VerificationResult::Success));
    let short = case_b_with(transfer(3), None, 3, needed - 1);
    assert_eq!(run(&short), Ok(VerificationResult::Failed));
}

#[test]
fn the_balance_has_to_cover_the_blobs() {
    // With an excess of 10_000_000 the blob fee is 7.
    let needed: u128 = 7 * 131_072 * 2 + 1_000_000_000 * 21_000 + 2_000_000_000 * 21_000;
    let exact = case_b_with(blob_transfer(2), None, 3, needed);
    assert_eq!(run(&exact), Ok(VerificationResult::Success));
    let short = case_b_with(blob_transfer(2), None, 3, needed - 1);
    assert_eq!(run(&short), Ok(VerificationResult::Failed));
}

#[test]
fn the_first_account_that_ends_the_verification_decides() {
    let mut case = case_a();
    let request = type_a(&mut case);
    request.account_merkle_proof[1].address = [0xee; 20];
    request.account_merkle_proof[2].account_proof.clear();
    let signer = signer_of(&transfer(4));
    assert_eq!(
        run(&case),
        Err(PoiError::AccountKeyMismatch { index: 1, account: [0xee; 20], signer })
    );
}

#[test]
fn headers_have_to_be_headers() {
    let case = case_a();
    let inclusion = serde_json::to_string(&case.inclusion).unwrap();
    let previous = serde_json::to_string(&case.previous).unwrap();
    let run_texts = |inclusion: &str, previous: &str| {
        run_poi_verification(
            &case.request,
            &case.signature,
            inclusion,
            &case.inclusion.hash_slow().0,
            previous,
            &case.previous.hash_slow().0,
            &case.underwriter,
            case.genesis,
            &case.core,
        )
    };
    assert_eq!(run_texts(&inclusion, &previous), Ok(VerificationResult::Success));
    assert_eq!(run_texts("{}", "{}"), Err(PoiError::InclusionHeaderFormat));
    assert_eq!(run_texts(&inclusion, "header"), Err(PoiError::PreviousHeaderFormat));
}

#[test]
fn headers_have_to_have_the_expected_hashes() {
    let case = case_b();
    let run_hashes = |inclusion: [u8; 32], previous: [u8; 32]| {
        run_poi_verification(
            &case.request,
            &case.signature,
            &serde_json::to_string(&case.inclusion).unwrap(),
            &inclusion,
            &serde_json::to_string(&case.previous).unwrap(),
            &previous,
            &case.underwriter,
            case.genesis,
            &case.core,
        )
    };
    let inclusion = case.inclusion.hash_slow().0;
    let previous = case.previous.hash_slow().0;
    assert_eq!(
        run_hashes([1; 32], [2; 32]),
        Err(PoiError::InclusionHashMismatch { computed: inclusion, expected: [1; 32] })
    );
    assert_eq!(
        run_hashes(inclusion, [2; 32]),
        Err(PoiError::PreviousHashMismatch { computed: previous, expected: [2; 32] })
    );
}

#[test]
fn the_blocks_have_to_be_linked() {
    let mut case = case_b();
    case.inclusion.parent_hash = B256::repeat_byte(3);
    let previous = case.previous.hash_slow().0;
    assert_eq!(run(&case), Err(PoiError::BrokenChain { parent: [3; 32], previous }));
}

#[test]
fn the_signature_has_to_be_one() {
    let mut case = case_b();
    case.signature = "0x1234".to_string();
    assert_eq!(run(&case), Err(PoiError::SignatureFormat));
}

#[test]
fn the_request_has_to_be_one() {
    let mut case = case_b();
    case.request = None;
    assert_eq!(run(&case), Err(PoiError::RequestFormat));
}

#[test]
fn a_request_needs_a_transaction_with_a_chain() {
    let mut empty = case_a();
    type_a(&mut empty).transactions.clear();
    assert_eq!(run(&empty), Err(PoiError::NoTransactions));
    let mut chainless = case_a();
    type_a(&mut chainless).transactions[0] = plain(&legacy(None));
    assert_eq!(run(&chainless), Err(PoiError::MissingChainId));
    let mut absent = case_b();
    type_b(&mut absent).transaction = None;
    assert_eq!(run(&absent), Err(PoiError::MissingTransaction));
    let mut case = case_b();
    type_b(&mut case).transaction = Some(plain(&legacy(None)));
    assert_eq!(run(&case), Err(PoiError::MissingChainId));
}

#[test]
fn only_the_first_transaction_needs_a_chain() {
    let mut case = case_a();
    let request = type_a(&mut case).clone();
    let anchor = read_transaction(&request.anchor_tx).unwrap();
    let mut transactions = read_transactions(&request.transactions).unwrap();
    let judge = |transactions: &Vec<Transaction>| {
        judge_type_a(
            &request,
            transactions,
            &anchor,
            &block(&case.inclusion),
            &block(&case.previous),
            &plain_signature(&sample_signature()),
            &case.underwriter,
            case.genesis,
            &case.core,
        )
    };
    transactions[1].chain_id = None;
    assert_eq!(judge(&transactions), Ok(VerificationResult::Success));
    transactions[0].chain_id = None;
    assert_eq!(judge(&transactions), Err(PoiError::MissingChainId));
}

#[test]
fn decoded_requests_are_judged() {
    let mut case = case_b();
    let request = type_b(&mut case).clone();
    let mut sponsorship = read_transaction(&request.sponsorship_tx).unwrap();
    let mut tx = read_optional_transaction(&request.transaction).unwrap();
    let judge = |tx: &Option<Transaction>, sponsorship: &Transaction| {
        judge_type_b(
            &request,
            tx,
            sponsorship,
            &block(&case.inclusion),
            &block(&case.previous),
            &plain_signature(&sample_signature()),
            &case.underwriter,
            case.genesis,
            &case.core,
        )
    };
    assert_eq!(judge(&tx, &sponsorship), Ok(VerificationResult::Success));
    assert_eq!(judge(&None, &sponsorship), Err(PoiError::MissingTransaction));
    sponsorship.to = None;
    assert_eq!(judge(&tx, &sponsorship), Err(PoiError::MissingRecipient));
    tx.as_mut().unwrap().nonce = 2;
    assert_eq!(judge(&tx, &sponsorship), Ok(VerificationResult::Failed));
}

#[test]
fn the_chain_of_a_request() {
    let one = decoded(&transfer(1));
    let mut none = one.clone();
    none.chain_id = None;
    assert_eq!(find_type_a_chain(&vec![one.clone(), none.clone()]), Ok(1));
    assert_eq!(find_type_a_chain(&vec![none.clone(), one.clone()]), Err(PoiError::MissingChainId));
    assert_eq!(find_type_a_chain(&vec![]), Err(PoiError::NoTransactions));
    assert_eq!(find_type_b_chain(&Some(one)), Ok(1));
    assert_eq!(find_type_b_chain(&Some(none)), Err(PoiError::MissingChainId));
    assert_eq!(find_type_b_chain(&None), Err(PoiError::MissingTransaction));
}

#[test]
fn transactions_are_read_from_their_encoding() {
    let sidecar = TxEip4844WithSidecar {
        tx: TxEip4844 {
            chain_id: 5,
            nonce: 6,
            gas_limit: 7,
            max_priority_fee_per_gas: 8,
            to: [9; 20].into(),
            blob_versioned_hashes: vec![B256::repeat_byte(3)],
            ..Default::default()
        },
        sidecar: Default::default(),
    };
    let variant: TxEip4844Variant = sidecar.into();
    let bare = TxEip2930 { chain_id: 5, nonce: 6, gas_limit: 7, ..Default::default() };
    let delegating = TxEip7702 {
        chain_id: 5,
        nonce: 6,
        gas_limit: 7,
        max_priority_fee_per_gas: 8,
        to: [9; 20].into(),
        ..Default::default()
    };
    let envelopes: Vec<TxEnvelope> = vec![
        legacy(None),
        legacy(Some(1)),
        legacy(Some(u64::MAX)),
        bare.into_signed(sample_signature()).into(),
        transfer(6),
        blob_transfer(3),
        variant.into_signed(sample_signature()).into(),
        delegating.into_signed(sample_signature()).into(),
        sponsor(TxKind::Create, vec![1, 2, 3]),
    ];
    for envelope in &envelopes {
        let expected = Transaction {
            hash: envelope.tx_hash().0,
            is_eip4844: envelope.is_eip4844(),
            chain_id: alloy_consensus::Transaction::chain_id(envelope),
            nonce: alloy_consensus::Transaction::nonce(envelope),
            gas_limit: alloy_consensus::Transaction::gas_limit(envelope),
            max_priority_fee_per_gas: alloy_consensus::Transaction::max_priority_fee_per_gas(
                envelope,
            ),
            blob_versioned_hashes: alloy_consensus::Transaction::blob_versioned_hashes(envelope)
                .map(|hashes| hashes.iter().map(|hash| hash.0).collect()),
            to: alloy_consensus::Transaction::to(envelope).map(|to| to.into_array()),
            input: alloy_consensus::Transaction::input(envelope).to_vec(),
            signature_hash: envelope.signature_hash().0,
            signature: plain_signature(envelope.signature()),
        };
        assert_eq!(decoded(envelope), expected);
        assert_eq!(recover_signer(&expected), Some(signer_of(envelope)));
    }
    let blobs = decoded(&blob_transfer(3));
    assert_eq!(blobs.nonce, 3);
    assert_eq!(blobs.blob_versioned_hashes, Some(vec![[1; 32]; 3]));
    assert_eq!(blobs.max_priority_fee_per_gas, Some(2_000_000_000));
    assert_eq!(decoded(&legacy(None)).chain_id, None);
    assert_eq!(decoded(&legacy(Some(u64::MAX))).chain_id, Some(u64::MAX));
    assert_eq!(decoded(&envelopes[8]).to, None);
    assert_eq!(read_transaction(&EncodedTx { hash: [0; 32], bytes: vec![] }), None);
    assert_eq!(read_optional_transaction(&None), Some(None));
    let all: Vec<EncodedTx> = envelopes.iter().map(plain).collect();
    assert_eq!(read_transactions(&all), Some(envelopes.iter().map(decoded).collect()));
}

#[test]
fn a_request_has_to_hold_transactions() {
    let junk = EncodedTx { hash: [0; 32], bytes: vec![0x02, 0xc0] };
    let mut case = case_a();
    type_a(&mut case).transactions[2] = junk.clone();
    assert_eq!(run(&case), Err(PoiError::RequestFormat));
    let mut anchor = case_a();
    type_a(&mut anchor).anchor_tx = junk.clone();
    type_a(&mut anchor).transactions.clear();
    assert_eq!(run(&anchor), Err(PoiError::RequestFormat));
    let mut user = case_b();
    type_b(&mut user).transaction = Some(junk.clone());
    assert_eq!(run(&user), Err(PoiError::RequestFormat));
    let mut sponsorship = case_b();
    type_b(&mut sponsorship).sponsorship_tx = junk;
    type_b(&mut sponsorship).transaction = None;
    assert_eq!(run(&sponsorship), Err(PoiError::RequestFormat));
}

#[test]
fn a_request_claims_the_hashes_of_its_transactions() {
    let mut case = case_b();
    let request = type_b(&mut case);
    let got = request.transaction.as_ref().unwrap().hash;
    request.transaction.as_mut().unwrap().hash = [0xaa; 32];
    assert_eq!(
        run(&case),
        Err(PoiError::TransactionHashMismatch { index: 0, expected: [0xaa; 32], got })
    );
}

#[test]
fn the_underwriter_has_to_have_signed() {
    let mut case = case_b();
    case.underwriter = [0xab; 20];
    assert_eq!(
        run(&case),
        Err(PoiError::UnderwriterMismatch { expected: [0xab; 20], recovered: underwriter() })
    );
    let mut other = case_a();
    type_a(&mut other).digest = [0xd2; 32];
    let recovered =
        sample_signature().recover_address_from_prehash(&B256::from([0xd2; 32])).unwrap();
    assert_eq!(
        run(&other),
        Err(PoiError::UnderwriterMismatch {
            expected: underwriter(),
            recovered: recovered.into_array(),
        })
    );
}

#[test]
fn a_signature_of_nobody_is_rejected() {
    let mut case = case_b();
    case.signature = format!("0x{}1b", "0".repeat(128));
    assert_eq!(run(&case), Err(PoiError::UnrecoverableUnderwriter));
}

#[test]
fn the_block_has_to_be_that_of_the_slot() {
    let mut case = case_a();
    type_a(&mut case).target_slot = SLOT + 1;
    assert_eq!(run(&case), Err(PoiError::SlotMismatch { expected: SLOT + 1, got: SLOT }));
    let mut early = case_b();
    early.genesis = u64::MAX;
    assert_eq!(
        run(&early),
        Err(PoiError::TimestampBeforeGenesis {
            timestamp: GENESIS + 12 * SLOT + 5,
            genesis_timestamp: u64::MAX,
        })
    );
}

#[test]
fn every_transaction_needs_an_account_proof() {
    let mut case = case_a();
    type_a(&mut case).account_merkle_proof.pop();
    assert_eq!(run(&case), Err(PoiError::MissingAccountProof { index: 2 }));
}

#[test]
fn account_proofs_beyond_the_transactions_are_not_read() {
    let mut case = case_a();
    type_a(&mut case).account_merkle_proof.push(account([0; 20], 0, 0));
    assert_eq!(run(&case), Ok(VerificationResult::Success));
}

#[test]
fn every_transaction_needs_a_signer() {
    let mut case = case_a();
    let nobody = PrimitiveSignature::new(U256::ZERO, U256::from(1u64), false);
    let tx = TxEip1559 { chain_id: 1, nonce: 4, ..Default::default() };
    type_a(&mut case).transactions[1] = plain(&tx.into_signed(nobody).into());
    assert_eq!(run(&case), Err(PoiError::UnrecoverableSigner { index: 1 }));
}

#[test]
fn an_account_has_to_be_in_the_previous_state() {
    let mut case = case_a();
    type_a(&mut case).account_merkle_proof[2].nonce = 2;
    assert_eq!(run(&case), Err(PoiError::AccountProof { index: 2 }));
    let mut richer = case_b();
    type_b(&mut richer).account_merkle_proof.balance.limbs[3] = 1;
    assert_eq!(run(&richer), Err(PoiError::AccountProof { index: 0 }));
    let mut cut = case_b();
    type_b(&mut cut).account_merkle_proof.account_proof.pop();
    assert_eq!(run(&cut), Err(PoiError::AccountProof { index: 0 }));
}

/// An RLP list of encoded items.
fn rlp_list(items: &[Vec<u8>]) -> Vec<u8> {
    let payload = items.concat();
    let mut list = vec![];
    alloy_rlp::Header { list: true, payload_length: payload.len() }.encode(&mut list);
    list.extend(payload);
    list
}

/// An RLP string.
fn rlp_string(bytes: &[u8]) -> Vec<u8> {
    alloy_rlp::encode(bytes)
}

/// A branch with the given children and no value.
fn branch(children: &[(usize, Vec<u8>)]) -> Vec<u8> {
    let mut items = vec![vec![0x80]; 17];
    for (index, child) in children {
        items[*index] = child.clone();
    }
    rlp_list(&items)
}

/// An extension of one nibble that leads to a leaf, which no trie embeds.
const ODD_CHILD: [u8; 5] = [0xc4, 0x11, 0xc2, 0x31, 0x01];

/// A state trie with one account and an odd child elsewhere in the root, whose nodes
/// are put into the account proof.
fn odd_state(entry: &mut AccountMerkleProof, offset: usize) -> B256 {
    let key = keccak256(entry.address);
    let mut path = vec![0x30 + key[0] % 16];
    path.extend(&key[1..]);
    let leaf = rlp_list(&[rlp_string(&path), rlp_string(&account_rlp(entry))]);
    let first = (key[0] / 16) as usize;
    let root = branch(&[
        ((first + offset) % 16, ODD_CHILD.to_vec()),
        (first, rlp_string(keccak256(&leaf).as_slice())),
    ]);
    entry.account_proof = vec![root.clone(), leaf];
    keccak256(&root)
}

/// The case on top of another state.
fn on_state(mut case: Case, state_root: B256) -> Case {
    case.previous.state_root = state_root;
    case.inclusion.parent_hash = case.previous.hash_slow();
    case
}

#[test]
fn an_odd_child_off_the_path_does_not_matter() {
    for offset in [1, 7, 15] {
        let mut good = case_b();
        let root = odd_state(&mut type_b(&mut good).account_merkle_proof, offset);
        assert_eq!(run(&on_state(good, root)), Ok(VerificationResult::Success));
        let mut used = case_b_with(transfer(3), None, 4, RICH);
        let root = odd_state(&mut type_b(&mut used).account_merkle_proof, offset);
        assert_eq!(run(&on_state(used, root)), Ok(VerificationResult::Failed));
        let sender = signer_of(&transfer(3));
        let mut good = case_a_with(vec![transfer(3)], &[sender], 1, 3);
        let root = odd_state(&mut type_a(&mut good).account_merkle_proof[0], offset);
        assert_eq!(run(&on_state(good, root)), Ok(VerificationResult::Success));
        let mut used = case_a_with(vec![transfer(3)], &[sender], 1, 4);
        let root = odd_state(&mut type_a(&mut used).account_merkle_proof[0], offset);
        assert_eq!(run(&on_state(used, root)), Ok(VerificationResult::Failed));
    }
}

#[test]
fn an_odd_child_on_the_path_is_no_proof() {
    let mut entry = account([5; 20], 0, 0);
    let first = (keccak256(entry.address)[0] / 16) as usize;
    let node = branch(&[(first, ODD_CHILD.to_vec())]);
    entry.account_proof = vec![node.clone()];
    assert!(!check_account_proof(&entry, &keccak256(&node).0));
    let mut case = case_b();
    type_b(&mut case).account_merkle_proof.account_proof.clear();
    let first = (keccak256(type_b(&mut case).account_merkle_proof.address)[0] / 16) as usize;
    let node = branch(&[(first, ODD_CHILD.to_vec())]);
    type_b(&mut case).account_merkle_proof.account_proof.push(node.clone());
    let case = on_state(case, keccak256(&node));
    assert_eq!(run(&case), Err(PoiError::AccountProof { index: 0 }));
}

#[test]
fn deeply_nested_children_off_the_path_do_not_matter() {
    let mut case = case_b();
    let mut chain = vec![0xc2, 0x31, 0x01];
    for _ in 0..300 {
        chain = rlp_list(&[vec![0x11], chain]);
    }
    // The key of the first transaction is 80, that of the second 01.
    let first = rlp_list(&[vec![0x30], rlp_string(&transfer(3).encoded_2718())]);
    let second_tx = sponsor(
        TxKind::Call(CORE.into()),
        calldata(&[[1; 20], signer_of(&transfer(3))], 2),
    );
    let second = rlp_list(&[vec![0x31], rlp_string(&second_tx.encoded_2718())]);
    let root = branch(&[
        (8, rlp_string(keccak256(&first).as_slice())),
        (0, rlp_string(keccak256(&second).as_slice())),
        (5, chain),
    ]);
    let hash = keccak256(&root);
    let proofs = &mut type_b(&mut case).tx_merkle_proof;
    assert_eq!(proofs[0].key, [0x80]);
    assert_eq!(proofs[1].key, [0x01]);
    for (proof, leaf) in proofs.iter_mut().zip([first, second]) {
        proof.root = hash.0;
        proof.proof = vec![root.clone(), leaf];
    }
    case.inclusion.transactions_root = hash;
    assert_eq!(run(&case), Ok(VerificationResult::Success));
}

#[test]
fn the_block_needs_the_fees() {
    let mut blobless = case_a();
    blobless.inclusion.excess_blob_gas = None;
    blobless.inclusion.blob_gas_used = None;
    assert_eq!(run(&blobless), Err(PoiError::MissingBlobFee { index: 2 }));
    let mut baseless = case_b();
    baseless.inclusion.base_fee_per_gas = None;
    assert_eq!(run(&baseless), Err(PoiError::MissingBaseFee { index: 0 }));
}

#[test]
fn a_transaction_needs_a_priority_fee() {
    let case = case_b_with(legacy(Some(1)), None, 3, RICH);
    assert_eq!(run(&case), Err(PoiError::MissingPriorityFee { index: 0 }));
}

#[test]
fn fees_out_of_range_are_rejected() {
    let mut case = case_b();
    case.inclusion.base_fee_per_gas = Some(u64::MAX);
    assert_eq!(run(&case), Err(PoiError::FeeOverflow { index: 0 }));
    let mut blobs = case_b_with(blob_transfer(1), None, 3, RICH);
    blobs.inclusion.excess_blob_gas = Some(284_284_039);
    assert_eq!(run(&blobs), Err(PoiError::FeeOverflow { index: 0 }));
    blobs.inclusion.excess_blob_gas = Some(284_284_038);
    assert_eq!(run(&blobs), Ok(VerificationResult::Failed));
}

#[test]
fn there_has_to_be_one_proof_for_each_transaction() {
    let mut case = case_a();
    type_a(&mut case).tx_merkle_proof.pop();
    assert_eq!(run(&case), Err(PoiError::ProofCount { transactions: 3, proofs: 3 }));
    let mut more = case_b();
    let extra = type_b(&mut more).tx_merkle_proof[0].clone();
    type_b(&mut more).tx_merkle_proof.push(extra);
    assert_eq!(run(&more), Err(PoiError::ProofCount { transactions: 1, proofs: 3 }));
}

#[test]
fn proofs_have_to_be_of_the_block() {
    let mut case = case_a();
    type_a(&mut case).tx_merkle_proof[1].root = [0; 32];
    let expected = case.inclusion.transactions_root.0;
    assert_eq!(
        run(&case),
        Err(PoiError::ProofRootMismatch { index: 1, expected, got: [0; 32] })
    );
}

#[test]
fn proofs_have_to_hold() {
    let mut case = case_b();
    type_b(&mut case).tx_merkle_proof[1].proof.clear();
    assert_eq!(run(&case), Err(PoiError::InvalidProof { index: 1 }));
    let mut absent = case_a();
    type_a(&mut absent).tx_merkle_proof[2].key = alloy_rlp::encode(9u64);
    assert_eq!(run(&absent), Err(PoiError::ProofWithoutValue { index: 2 }));
}

#[test]
fn byte_strings_that_are_no_nodes_do_not_matter() {
    let mut case = case_a();
    let mut junk = vec![0xe1, 0x40];
    junk.extend([0xa0]);
    junk.extend([7; 32]);
    type_a(&mut case).tx_merkle_proof[0].proof.insert(0, junk);
    type_a(&mut case).tx_merkle_proof[0].proof.push(vec![]);
    assert_eq!(run(&case), Ok(VerificationResult::Success));
}

#[test]
fn a_root_that_is_no_node_proves_nothing() {
    // A list of a path with an unknown flag and a hash.
    let mut node = vec![0xe2, 0x40, 0xa0];
    node.extend([7; 32]);
    let proof = TxMerkleProof { root: keccak256(&node).0, key: vec![0x80], proof: vec![node] };
    assert_eq!(follow_proof(&proof), ProvenTx::InvalidProof);
}

#[test]
fn values_have_to_be_transactions() {
    let mut trie = EthTrie::new(Arc::new(MemoryDB::new(true)));
    let key = alloy_rlp::encode(0u64);
    trie.insert(&key, &[0x02; 40]).unwrap();
    let root = trie.root_hash().unwrap().0;
    let proof = trie.get_proof(&key).unwrap();
    let proven = follow_proof(&TxMerkleProof { root, key, proof });
    assert_eq!(proven, ProvenTx::Undecodable);
    assert_eq!(
        judge_inclusion(4, &root, &root, proven, &[0; 32]),
        Some(PoiError::UndecodableTransaction { index: 4 })
    );
}

#[test]
fn proofs_lead_to_the_transaction_hash() {
    let envelope = transfer(9);
    let (_, proofs) = tx_trie(&[envelope.clone(), transfer(10)]);
    assert_eq!(follow_proof(&proofs[0]), ProvenTx::Hash(keccak256(envelope.encoded_2718()).0));
}

#[test]
fn proofs_come_in_the_order_of_the_transactions() {
    let mut case = case_a();
    let request = type_a(&mut case);
    request.tx_merkle_proof.swap(1, 2);
    let expected = request.transactions[0].hash;
    let got = request.transactions[1].hash;
    assert_eq!(
        run(&case),
        Err(PoiError::TransactionHashMismatch { index: 1, expected, got })
    );
    let mut reversed = case_b();
    let request = type_b(&mut reversed);
    request.tx_merkle_proof.swap(0, 1);
    let expected = request.transaction.as_ref().unwrap().hash;
    let got = request.sponsorship_tx.hash;
    assert_eq!(
        run(&reversed),
        Err(PoiError::TransactionHashMismatch { index: 0, expected, got })
    );
}

#[test]
fn the_sponsorship_has_to_call_the_core_contract() {
    let mut creation = case_a();
    type_a(&mut creation).anchor_tx.bytes = sponsor(TxKind::Create, vec![]).encoded_2718();
    assert_eq!(run(&creation), Err(PoiError::MissingRecipient));
    let mut other = case_b();
    other.core = [0xc1; 20];
    assert_eq!(
        run(&other),
        Err(PoiError::RecipientMismatch { expected: [0xc1; 20], got: CORE })
    );
}

#[test]
fn the_sponsorship_has_to_be_a_batch() {
    let mut other = calldata(&[[1; 20]], 1);
    other[0] = 0x29;
    let mut case = case_b();
    type_b(&mut case).sponsorship_tx.bytes =
        sponsor(TxKind::Call(CORE.into()), other).encoded_2718();
    assert_eq!(run(&case), Err(PoiError::SponsorCallFormat));
    let mut longer = calldata(&[[1; 20]], 1);
    longer.push(0);
    let mut case = case_a();
    type_a(&mut case).anchor_tx.bytes = sponsor(TxKind::Call(CORE.into()), longer).encoded_2718();
    assert_eq!(run(&case), Err(PoiError::SponsorCallFormat));
}

#[test]
fn every_sender_has_to_be_sponsored() {
    let transactions = vec![transfer(3), transfer(4)];
    let first = signer_of(&transactions[0]);
    let case = case_a_with(transactions.clone(), &[first, [1; 20], first], 3, 3);
    assert_eq!(run(&case), Err(PoiError::UnsponsoredSenders { found: 1, expected: 2 }));
    let stranger = case_b_with(transfer(3), Some([0x77; 20]), 3, RICH);
    assert_eq!(run(&stranger), Err(PoiError::UnsponsoredSender));
}

#[test]
fn recipients_without_an_amount_are_not_sponsored() {
    let transactions = vec![transfer(3), transfer(4)];
    let senders: Vec<[u8; 20]> = transactions.iter().map(signer_of).collect();
    let case = case_a_with(transactions.clone(), &senders, 1, 3);
    assert_eq!(run(&case), Err(PoiError::UnsponsoredSenders { found: 1, expected: 2 }));
    let more = case_a_with(transactions, &senders, 5, 3);
    assert_eq!(run(&more), Ok(VerificationResult::Success));
}

#[test]
fn a_sender_of_two_transactions_counts_once() {
    let transactions = vec![transfer(3), transfer(3)];
    let sender = signer_of(&transactions[0]);
    let case = case_a_with(transactions, &[sender], 1, 3);
    assert_eq!(run(&case), Ok(VerificationResult::Success));
}

#[test]
fn signers_are_recovered_from_the_signed_hash() {
    for envelope in [transfer(1), transfer(2), blob_transfer(1)] {
        assert_eq!(recover_signer(&decoded(&envelope)), Some(signer_of(&envelope)));
    }
    let mut nobody = decoded(&transfer(1));
    nobody.signature.s = [0; 32];
    assert_eq!(recover_signer(&nobody), None);
}

#[test]
fn accounts_are_judged_on_given_facts() {
    let tx = decoded(&transfer(3));
    let entry = account([5; 20], 3, RICH);
    let (inclusion, _) = headers(B256::ZERO, B256::ZERO);
    let block = block(&inclusion);
    let judge = |signer, proven| judge_account(6, &tx, &entry, &block, signer, proven, Some(7));
    assert_eq!(
        judge(None, true),
        AccountVerdict::Rejected(PoiError::UnrecoverableSigner { index: 6 })
    );
    assert_eq!(
        judge(Some([5; 20]), false),
        AccountVerdict::Rejected(PoiError::AccountProof { index: 6 })
    );
    assert_eq!(judge(Some([5; 20]), true), AccountVerdict::Payable([5; 20]));
    assert_eq!(
        judge(Some([6; 20]), true),
        AccountVerdict::Rejected(PoiError::AccountKeyMismatch {
            index: 6,
            account: [5; 20],
            signer: [6; 20],
        })
    );
}

#[test]
fn accounts_are_checked_against_a_state_root() {
    let envelope = transfer(3);
    let mut entries = vec![account(signer_of(&envelope), 0, RICH)];
    let root = state_trie(&mut entries).0;
    let (inclusion, _) = headers(B256::ZERO, B256::ZERO);
    let block = block(&inclusion);
    assert!(check_account_proof(&entries[0], &root));
    assert!(!check_account_proof(&entries[0], &[0; 32]));
    assert_eq!(
        check_account(0, &decoded(&envelope), &entries[0], &block, &root),
        AccountVerdict::Payable(signer_of(&envelope))
    );
}

#[test]
fn both_findings_commit_the_same_public_values() {
    let commit = |case: &Case| {
        verify_and_commit(
            &case.request,
            &case.signature,
            &serde_json::to_string(&case.inclusion).unwrap(),
            &case.inclusion.hash_slow().0,
            &serde_json::to_string(&case.previous).unwrap(),
            &case.previous.hash_slow().0,
            &case.underwriter,
            case.genesis,
            &case.core,
        )
    };
    let case = case_b();
    let (found, committed) = commit(&case).unwrap();
    assert_eq!(found, VerificationResult::Success);
    let expected = (
        case.inclusion.timestamp,
        case.inclusion.hash_slow(),
        case.inclusion.number,
        alloy_primitives::Address::from(case.underwriter),
        Bytes::from(sample_signature().as_bytes().to_vec()),
        case.genesis,
        alloy_primitives::Address::from(case.core),
    )
        .abi_encode_sequence();
    assert_eq!(committed, expected);
    let mut poor = case_b_with(transfer(3), None, 4, RICH);
    poor.inclusion.number = 100;
    let (found, committed) = commit(&poor).unwrap();
    assert_eq!(found, VerificationResult::Failed);
    assert_eq!(committed.len(), expected.len());
    assert_eq!(committed[..32], expected[..32]);
    assert_eq!(committed[64..], expected[64..]);
}

#[test]
fn nothing_is_committed_without_a_finding() {
    let mut case = case_b();
    case.signature = "".to_string();
    let r = verify_and_commit(
        &case.request,
        &case.signature,
        &serde_json::to_string(&case.inclusion).unwrap(),
        &case.inclusion.hash_slow().0,
        "",
        &case.previous.hash_slow().0,
        &case.underwriter,
        case.genesis,
        &case.core,
    );
    assert_eq!(r, Err(PoiError::SignatureFormat));
    let r = verify_and_commit(
        &case.request,
        &case.signature,
        "",
        &[0; 32],
        "",
        &[0; 32],
        &case.underwriter,
        case.genesis,
        &case.core,
    );
    assert_eq!(r, Err(PoiError::InclusionHeaderFormat));
    case.signature = sample_signature().to_string();
    case.request = None;
    let r = verify_and_commit(
        &case.request,
        &case.signature,
        &serde_json::to_string(&case.inclusion).unwrap(),
        &case.inclusion.hash_slow().0,
        &serde_json::to_string(&case.previous).unwrap(),
        &case.previous.hash_slow().0,
        &case.underwriter,
        case.genesis,
        &case.core,
    );
    assert_eq!(r, Err(PoiError::RequestFormat));
}
