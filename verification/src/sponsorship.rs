//! Whether the senders of preconfirmed transactions are sponsored: the sponsoring
//! transaction calls `sponsorEthBatch(address[],uint256[])` of the core contract.

use vstd::prelude::*;
use vstd::slice::slice_subrange;

use crate::bytes::{address_word, array_eq, be_value, word, word_of_u64};
use crate::ethereum::{batch_params, concat, decode_batch_params};
use crate::types::{Address, PoiError, Transaction, TransactionView, B256};

verus! {

/// The first four bytes of the hash of `sponsorEthBatch(address[],uint256[])`.
pub const SPONSOR_ETH_BATCH_SELECTOR: [u8; 4] = [0x28, 0x11, 0x24, 0x8f];

/// The calldata of a batch sponsorship.
pub open spec fn sponsor_calldata(recipients: Seq<Address>, amounts: Seq<B256>) -> Seq<u8> {
    SPONSOR_ETH_BATCH_SELECTOR@ + batch_params(recipients, amounts)
}

/// The recipients and the amounts of the batch sponsorship with this calldata, if it
/// is that of one.
pub open spec fn sponsor_call(calldata: Seq<u8>) -> Option<(Seq<Address>, Seq<B256>)> {
    if exists|recipients: Seq<Address>, amounts: Seq<B256>|
        calldata == #[trigger] sponsor_calldata(recipients, amounts) {
        Some(
            choose|recipients: Seq<Address>, amounts: Seq<B256>|
                calldata == #[trigger] sponsor_calldata(recipients, amounts),
        )
    } else {
        None
    }
}

/// The recipients that have an amount.
pub open spec fn with_amount(recipients: Seq<Address>, amounts: Seq<B256>) -> Seq<Address> {
    recipients.take(
        if recipients.len() <= amounts.len() {
            recipients.len() as int
        } else {
            amounts.len() as int
        },
    )
}

/// The addresses that a transaction sponsors through the core contract, or why it is
/// no sponsorship.
pub open spec fn sponsored_by(tx: TransactionView, taiyi_core: Address) -> Result<
    Seq<Address>,
    PoiError,
> {
    match tx.to {
        None => Err(PoiError::MissingRecipient),
        Some(to) => if to != taiyi_core {
            Err(PoiError::RecipientMismatch { expected: taiyi_core, got: to })
        } else {
            match sponsor_call(tx.input) {
                None => Err(PoiError::SponsorCallFormat),
                Some((recipients, amounts)) => Ok(with_amount(recipients, amounts)),
            }
        },
    }
}

/// Each 32-byte part can be found in the concatenation.
proof fn part_of_concat(parts: Seq<Seq<u8>>, i: int)
    requires
        forall|j: int| 0 <= j < parts.len() ==> (#[trigger] parts[j]).len() == 32,
    ensures
        concat(parts).len() == 32 * parts.len(),
        0 <= i < parts.len() ==> concat(parts).subrange(32 * i, 32 * i + 32) == parts[i],
    decreases parts.len(),
{
    if parts.len() > 0 {
        let front = parts.drop_last();
        part_of_concat(front, i);
        assert(concat(parts) == concat(front) + parts.last());
        if 0 <= i < front.len() {
            assert(concat(parts).subrange(32 * i, 32 * i + 32) =~= concat(front).subrange(
                32 * i,
                32 * i + 32,
            ));
        } else if i == front.len() {
            assert(concat(parts).subrange(32 * i, 32 * i + 32) =~= parts.last());
        }
    }
}

/// The words of a list of addresses.
pub open spec fn address_words(list: Seq<Address>) -> Seq<Seq<u8>> {
    list.map_values(|address: Address| address_word(address))
}

/// The bytes of a list of words.
pub open spec fn plain_words(list: Seq<B256>) -> Seq<Seq<u8>> {
    list.map_values(|word: B256| word@)
}

/// Where the parts of the encoded parameters lie.
proof fn batch_params_parts(recipients: Seq<Address>, amounts: Seq<B256>)
    requires
        batch_params(recipients, amounts).len() <= u64::MAX,
    ensures
        ({
            let data = batch_params(recipients, amounts);
            let n = recipients.len() as int;
            let m = amounts.len() as int;
            &&& data.len() == 128 + 32 * n + 32 * m
            &&& be_value(data.subrange(64, 96)) == n
            &&& data.subrange(96, 96 + 32 * n) == concat(address_words(recipients))
            &&& be_value(data.subrange(96 + 32 * n, 128 + 32 * n)) == m
            &&& data.subrange(128 + 32 * n, 128 + 32 * n + 32 * m) == concat(plain_words(amounts))
        }),
{
    let data = batch_params(recipients, amounts);
    let n = recipients.len() as int;
    let m = amounts.len() as int;
    let to = concat(address_words(recipients));
    let value = concat(plain_words(amounts));
    part_of_concat(address_words(recipients), 0);
    part_of_concat(plain_words(amounts), 0);
    assert(address_words(recipients) =~= recipients.map_values(
        |recipient: Address| address_word(recipient),
    ));
    assert(plain_words(amounts) =~= amounts.map_values(|amount: B256| amount@));
    assert(data == word(64) + word((96 + 32 * n) as nat) + word(n as nat) + to + word(m as nat)
        + value);
    assert(data.len() >= 32 * n + 32 * m);
    word_of_u64(64);
    word_of_u64(n as u64);
    word_of_u64(m as u64);
    assert(data.len() >= 96 + 32 * n + 32 * m);
    word_of_u64((96 + 32 * n) as u64);
    assert(data.subrange(64, 96) =~= word(n as nat));
    assert(data.subrange(96, 96 + 32 * n) =~= to);
    assert(data.subrange(96 + 32 * n, 128 + 32 * n) =~= word(m as nat));
    assert(data.subrange(128 + 32 * n, 128 + 32 * n + 32 * m) =~= value);
}

/// No two batches have the same encoding, up to the length of a byte string.
proof fn batch_params_injective(
    recipients: Seq<Address>,
    amounts: Seq<B256>,
    recipients2: Seq<Address>,
    amounts2: Seq<B256>,
)
    requires
        batch_params(recipients, amounts) == batch_params(recipients2, amounts2),
        batch_params(recipients, amounts).len() <= u64::MAX,
    ensures
        recipients == recipients2,
        amounts == amounts2,
{
    batch_params_parts(recipients, amounts);
    batch_params_parts(recipients2, amounts2);
    assert(recipients.len() == recipients2.len());
    assert(amounts.len() == amounts2.len());
    assert forall|i: int| 0 <= i < recipients.len() implies recipients[i] == recipients2[i] by {
        part_of_concat(address_words(recipients), i);
        part_of_concat(address_words(recipients2), i);
        let one = address_words(recipients)[i];
        let other = address_words(recipients2)[i];
        assert(one == other);
        assert(recipients[i]@ =~= one.skip(12));
        assert(recipients2[i]@ =~= other.skip(12));
        assert(recipients[i] =~= recipients2[i]);
    }
    assert forall|i: int| 0 <= i < amounts.len() implies amounts[i] == amounts2[i] by {
        part_of_concat(plain_words(amounts), i);
        part_of_concat(plain_words(amounts2), i);
        assert(amounts[i]@ == plain_words(amounts)[i]);
        assert(amounts2[i]@ == plain_words(amounts2)[i]);
        assert(amounts[i] =~= amounts2[i]);
    }
    assert(recipients =~= recipients2);
    assert(amounts =~= amounts2);
}

/// The calldata of a batch sponsorship is read as that sponsorship.
pub proof fn sponsor_call_reads_back(recipients: Seq<Address>, amounts: Seq<B256>)
    requires
        sponsor_calldata(recipients, amounts).len() <= u64::MAX,
    ensures
        sponsor_call(sponsor_calldata(recipients, amounts)) == Some((recipients, amounts)),
{
    let calldata = sponsor_calldata(recipients, amounts);
    let (recipients2, amounts2) = choose|recipients2: Seq<Address>, amounts2: Seq<B256>|
        calldata == #[trigger] sponsor_calldata(recipients2, amounts2);
    assert(calldata == sponsor_calldata(recipients2, amounts2));
    assert(calldata.skip(4) =~= batch_params(recipients, amounts));
    assert(calldata.skip(4) =~= batch_params(recipients2, amounts2));
    batch_params_injective(recipients, amounts, recipients2, amounts2);
}

/// Reads the recipients and the amounts of a batch sponsorship.
pub fn read_sponsor_call(calldata: &Vec<u8>) -> (call: Option<(Vec<Address>, Vec<B256>)>)
    ensures
        match call {
            Some((recipients, amounts)) => sponsor_call(calldata@) == Some(
                (recipients@, amounts@),
            ),
            None => sponsor_call(calldata@) is None,
        },
{
    let length: usize = calldata.len();
    if length < 4 {
        return None;
    }
    for i in 0..4usize
        invariant
            length == calldata.len() >= 4,
            forall|j: int| 0 <= j < i ==> calldata[j] == SPONSOR_ETH_BATCH_SELECTOR[j],
    {
        if calldata[i] != SPONSOR_ETH_BATCH_SELECTOR[i] {
            assert forall|recipients: Seq<Address>, amounts: Seq<B256>|
                calldata@ != #[trigger] sponsor_calldata(recipients, amounts) by {
                assert(sponsor_calldata(recipients, amounts)[i as int]
                    == SPONSOR_ETH_BATCH_SELECTOR[i as int]);
            }
            return None;
        }
    }
    let params = slice_subrange(calldata.as_slice(), 4, length);
    match decode_batch_params(params) {
        Ok((recipients, amounts)) => {
            proof {
                assert(calldata@ =~= sponsor_calldata(recipients@, amounts@));
                sponsor_call_reads_back(recipients@, amounts@);
            }
            Some((recipients, amounts))
        },
        Err(_) => {
            assert forall|recipients: Seq<Address>, amounts: Seq<B256>|
                calldata@ != #[trigger] sponsor_calldata(recipients, amounts) by {
                if calldata@ == sponsor_calldata(recipients, amounts) {
                    assert(params@ =~= batch_params(recipients, amounts));
                }
            }
            None
        },
    }
}

/// Finds the addresses that a transaction sponsors through the core contract.
pub fn find_sponsored(tx: &Transaction, taiyi_core: &Address) -> (sponsored: Result<
    Vec<Address>,
    PoiError,
>)
    ensures
        match sponsored {
            Ok(sponsored) => sponsored_by(tx@, *taiyi_core) == Ok::<Seq<Address>, PoiError>(
                sponsored@,
            ),
            Err(error) => sponsored_by(tx@, *taiyi_core) == Err::<Seq<Address>, PoiError>(error),
        },
{
    let to: Address = match tx.to {
        Some(to) => to,
        None => return Err(PoiError::MissingRecipient),
    };
    if !array_eq(&to, taiyi_core) {
        return Err(PoiError::RecipientMismatch { expected: *taiyi_core, got: to });
    }
    match read_sponsor_call(&tx.input) {
        Some((mut recipients, amounts)) => {
            let ghost all = recipients@;
            if amounts.len() < recipients.len() {
                recipients.truncate(amounts.len());
            }
            assert(recipients@ =~= with_amount(all, amounts@));
            Ok(recipients)
        },
        None => Err(PoiError::SponsorCallFormat),
    }
}

/// Whether an address is in a list.
pub fn is_listed(list: &Vec<Address>, address: &Address) -> (listed: bool)
    ensures
        listed == list@.contains(*address),
{
    for i in 0..list.len()
        invariant
            forall|j: int| 0 <= j < i ==> list[j] != *address,
    {
        if array_eq(&list[i], address) {
            return true;
        }
    }
    false
}

/// The addresses in `list` that are also in `filter`, each once.
fn distinct_listed(list: &Vec<Address>, filter: &Vec<Address>) -> (distinct: Vec<Address>)
    ensures
        distinct@.no_duplicates(),
        distinct@.to_set() == list@.to_set().intersect(filter@.to_set()),
{
    let mut distinct: Vec<Address> = Vec::new();
    for i in 0..list.len()
        invariant
            distinct@.no_duplicates(),
            forall|address: Address| #[trigger]
                distinct@.contains(address) <==> list@.take(i as int).contains(address)
                    && filter@.contains(address),
    {
        let address: Address = list[i];
        let ghost before = distinct@;
        if is_listed(filter, &address) && !is_listed(&distinct, &address) {
            distinct.push(address);
        }
        proof {
            assert(list@.take(i + 1) =~= list@.take(i as int).push(address));
            assert forall|other: Address| #[trigger]
                distinct@.contains(other) <==> list@.take(i + 1).contains(other)
                    && filter@.contains(other) by {
                vstd::seq_lib::lemma_seq_contains_after_push(list@.take(i as int), address, other);
                vstd::seq_lib::lemma_seq_contains_after_push(before, address, other);
                assert(before.contains(other) <==> list@.take(i as int).contains(other)
                    && filter@.contains(other));
                assert(before.contains(address) <==> list@.take(i as int).contains(address)
                    && filter@.contains(address));
            }
        }
    }
    assert(list@.take(list.len() as int) =~= list@);
    assert(distinct@.to_set() =~= list@.to_set().intersect(filter@.to_set()));
    distinct
}

/// What is wrong with a sponsorship of these addresses for these signers: the signers
/// among them, each counted once, are not as many as all signers, each counted once.
pub open spec fn sponsorship_objection(
    sponsored: Seq<Address>,
    signers: Seq<Address>,
) -> Option<PoiError> {
    let found = signers.to_set().intersect(sponsored.to_set()).len();
    let expected = signers.to_set().len();
    if found != expected {
        Some(PoiError::UnsponsoredSenders { found: found as usize, expected: expected as usize })
    } else {
        None
    }
}

/// Checks that all signers are sponsored.
pub fn check_sponsorship(sponsored: &Vec<Address>, signers: &Vec<Address>) -> (objection: Option<
    PoiError,
>)
    ensures
        objection == sponsorship_objection(sponsored@, signers@),
{
    let found_list = distinct_listed(signers, sponsored);
    let all_list = distinct_listed(signers, signers);
    proof {
        found_list@.unique_seq_to_set();
        all_list@.unique_seq_to_set();
        assert(signers@.to_set().intersect(signers@.to_set()) =~= signers@.to_set());
    }
    let found: usize = found_list.len();
    let expected: usize = all_list.len();
    if found != expected {
        Some(PoiError::UnsponsoredSenders { found, expected })
    } else {
        None
    }
}

} // verus!
