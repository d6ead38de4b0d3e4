//! Which byte strings are trie nodes, told from the items that they are put together of,
//! and how a proof is walked through them.

use vstd::prelude::*;

use crate::accounts::account_proven;
use crate::bytes::nibbles;
use crate::ethereum::{account_proof_holds, account_rlp, concat, keccak, rlp_header};
use crate::step_laws::account_proof_answers;
use crate::trie::{
    decodable_node, outside_child, path_nibbles, proof_walks, rlp_items, rlp_list,
    rlp_payload, walked,
};
use crate::types::{AccountMerkleProof, B256};

verus! {

/// Whether a byte string is one RLP item, with nothing behind it.
pub open spec fn whole_item(bytes: Seq<u8>) -> bool {
    rlp_header(bytes) matches Some((_, length, rest)) && length == rest
}

/// Whether a byte string starts with the RLP list of these items.
pub open spec fn is_list_of(bytes: Seq<u8>, items: Seq<Seq<u8>>) -> bool {
    &&& rlp_header(bytes) matches Some((list, length, rest)) && list && concat(items)
        == bytes.subrange(bytes.len() - rest, bytes.len() - rest + length)
    &&& forall|i: int| 0 <= i < items.len() ==> whole_item(#[trigger] items[i])
}

/// The payload of an RLP item: what is behind its header.
pub open spec fn payload(item: Seq<u8>) -> Seq<u8> {
    item.skip(item.len() - rlp_header(item).unwrap().1)
}

/// The number of nibbles in a path item.
pub open spec fn nibble_count(item: Seq<u8>) -> int {
    if payload(item).len() == 0 {
        0
    } else {
        2 * (payload(item).len() - 1) + payload(item)[0] / 16 % 2
    }
}

/// What is left of a key from a nibble on.
pub open spec fn left_from(key: Seq<u8>, count: int) -> Seq<u8> {
    if count < key.len() {
        key.subrange(count, key.len() as int)
    } else {
        Seq::empty()
    }
}

/// The header of an item does not depend on what follows the item.
proof fn header_is_local(item: Seq<u8>, tail: Seq<u8>)
    requires
        rlp_header(item) is Some,
    ensures
        ({
            let (list, length, rest) = rlp_header(item).unwrap();
            rlp_header(item + tail) == Some((list, length, (rest + tail.len()) as nat))
        }),
{
    let whole = item + tail;
    if item[0] >= 0x80 {
        let code = if item[0] >= 0xc0 {
            item[0] - 0xc0
        } else {
            item[0] - 0x80
        };
        if code >= 56 {
            assert(item.len() >= code - 54);
            assert(whole.subrange(1, code - 54) =~= item.subrange(1, code - 54));
        }
    }
}

/// The bytes that a header speaks of are one item.
proof fn header_bounds_an_item(bytes: Seq<u8>)
    requires
        rlp_header(bytes) is Some,
    ensures
        ({
            let (list, length, rest) = rlp_header(bytes).unwrap();
            let end = bytes.len() - rest + length;
            &&& 0 < end <= bytes.len()
            &&& rlp_header(bytes.take(end)) == Some((list, length, length))
        }),
{
    let (list, length, rest) = rlp_header(bytes).unwrap();
    let item = bytes.take(bytes.len() - rest + length);
    if bytes[0] >= 0x80 {
        let code = if bytes[0] >= 0xc0 {
            bytes[0] - 0xc0
        } else {
            bytes[0] - 0x80
        };
        if code >= 56 {
            assert(item.subrange(1, code - 54) =~= bytes.subrange(1, code - 54));
        }
    }
}

/// The first part stands before the others in a concatenation.
proof fn concat_front(first: Seq<u8>, others: Seq<Seq<u8>>)
    ensures
        concat(seq![first] + others) == first + concat(others),
    decreases others.len(),
{
    let all = seq![first] + others;
    if others.len() == 0 {
        assert(all.drop_last() =~= Seq::empty());
        assert(concat(all) == concat(all.drop_last()) + all.last());
        assert(concat(all) =~= first + concat(others));
    } else {
        concat_front(first, others.drop_last());
        assert(all.drop_last() =~= seq![first] + others.drop_last());
        assert(concat(all) =~= first + concat(others));
    }
}

/// A payload consists of items exactly where it is their concatenation.
pub proof fn items_are_those_put_together(bytes: Seq<u8>, items: Seq<Seq<u8>>)
    ensures
        rlp_items(bytes) == Some(items) <==> concat(items) == bytes && forall|i: int|
            0 <= i < items.len() ==> whole_item(#[trigger] items[i]),
    decreases bytes.len() + items.len(),
{
    if rlp_items(bytes) == Some(items) {
        if bytes.len() > 0 {
            let (_, length, rest) = rlp_header(bytes).unwrap();
            let end = bytes.len() - rest + length;
            header_bounds_an_item(bytes);
            let first = bytes.take(end);
            let later = rlp_items(bytes.skip(end)).unwrap();
            assert(items == seq![first] + later);
            assert(later.len() < items.len());
            items_are_those_put_together(bytes.skip(end), later);
            concat_front(first, later);
            assert(concat(items) =~= bytes);
            assert forall|i: int| 0 <= i < items.len() implies whole_item(#[trigger] items[i]) by {
                if i > 0 {
                    assert(items[i] == later[i - 1]);
                }
            }
        } else {
            assert(items.len() == 0);
            assert(concat(items) =~= bytes);
        }
    }
    if concat(items) == bytes && forall|i: int|
        0 <= i < items.len() ==> whole_item(#[trigger] items[i]) {
        if items.len() > 0 {
            let first = items[0];
            let later = items.skip(1);
            assert(whole_item(items[0]));
            assert(items =~= seq![first] + later);
            concat_front(first, later);
            header_is_local(first, concat(later));
            assert(first.len() > 0);
            assert(bytes.skip(first.len() as int) =~= concat(later));
            assert(bytes.take(first.len() as int) =~= first);
            assert forall|i: int| 0 <= i < later.len() implies whole_item(#[trigger] later[i]) by {
                assert(later[i] == items[i + 1]);
            }
            items_are_those_put_together(concat(later), later);
        } else {
            assert(bytes.len() == 0);
            assert(items =~= Seq::empty());
        }
    }
}

/// A byte string starts with a list of items exactly where they are put together behind
/// the header of a list.
pub proof fn lists_are_those_put_together(bytes: Seq<u8>, items: Seq<Seq<u8>>)
    ensures
        rlp_list(bytes) == Some(items) <==> is_list_of(bytes, items),
{
    if let Some((list, length, rest)) = rlp_header(bytes) {
        let inside = bytes.subrange(bytes.len() - rest, bytes.len() - rest + length);
        items_are_those_put_together(inside, items);
    }
}

/// A whole item has the payload behind its header.
proof fn payload_of_item(item: Seq<u8>)
    requires
        whole_item(item),
    ensures
        rlp_payload(item) == Some(payload(item)),
        path_nibbles(item) == nibble_count(item),
{
    assert(rlp_payload(item).unwrap() =~= payload(item));
}

/// Which strings are trie nodes, or references to them: the empty string, and a string of
/// 32 bytes that nothing follows. A byte string that starts with no item is none, and neither
/// is a list that does not consist of items.
pub proof fn strings_as_nodes(bytes: Seq<u8>)
    ensures
        rlp_header(bytes) is None ==> !decodable_node(bytes),
        rlp_header(bytes) matches Some((list, length, rest)) ==> {
            &&& !list ==> decodable_node(bytes) == (length == 0 || (length == 32 && rest == 32))
            &&& list && (forall|items: Seq<Seq<u8>>| !is_list_of(bytes, items)) ==> !decodable_node(
                bytes,
            )
        },
{
    if let Some(items) = rlp_list(bytes) {
        lists_are_those_put_together(bytes, items);
    }
}

/// Which lists are trie nodes. A list of seventeen items is one exactly where the first
/// sixteen are, whatever the last is. A list of two is one exactly where the first is a path
/// with one of four flags that leads to a value, whatever that is, or along at least one
/// nibble to a node. No other list is one.
pub proof fn lists_as_nodes(bytes: Seq<u8>, items: Seq<Seq<u8>>)
    requires
        is_list_of(bytes, items),
    ensures
        items.len() == 17 ==> (decodable_node(bytes) <==> forall|i: int|
            0 <= i < 16 ==> decodable_node(#[trigger] items[i])),
        items.len() == 2 ==> (decodable_node(bytes) <==> {
            let path = payload(items[0]);
            &&& path.len() > 0
            &&& path[0] < 0x40
            &&& path[0] >= 0x20 || (nibble_count(items[0]) > 0 && decodable_node(items[1]))
        }),
        items.len() != 17 && items.len() != 2 ==> !decodable_node(bytes),
{
    lists_are_those_put_together(bytes, items);
    assert(!outside_child(bytes));
    if items.len() == 2 {
        assert(whole_item(items[0]));
        payload_of_item(items[0]);
    }
}

/// How a node that is no branch is walked: a path leaves what is behind its nibbles, and
/// anything else leaves the key as it is.
pub proof fn walk_without_branch(node: Seq<u8>, items: Seq<Seq<u8>>, key: Seq<u8>)
    ensures
        (forall|items: Seq<Seq<u8>>| !is_list_of(node, items)) ==> walked(node, key) == Some(key),
        is_list_of(node, items) && items.len() == 2 ==> walked(node, key) == Some(
            left_from(key, nibble_count(items[0])),
        ),
        is_list_of(node, items) && items.len() != 2 && items.len() != 17 ==> walked(node, key)
            == Some(key),
{
    if let Some(items) = rlp_list(node) {
        lists_are_those_put_together(node, items);
    }
    lists_are_those_put_together(node, items);
    if is_list_of(node, items) && items.len() == 2 {
        assert(whole_item(items[0]));
        payload_of_item(items[0]);
        assert(walked(node, key).unwrap() =~= left_from(key, nibble_count(items[0])));
    }
}

/// How a branch is walked along a key: only the child at the first nibble matters. A child
/// that is a string, or that takes 33 bytes, leaves the key behind that nibble. Any other
/// child is walked in its turn, and an extension through the branch that it extends.
pub proof fn walk_through_branch(
    node: Seq<u8>,
    items: Seq<Seq<u8>>,
    inner: Seq<Seq<u8>>,
    grand: Seq<Seq<u8>>,
    key: Seq<u8>,
)
    requires
        is_list_of(node, items),
        items.len() == 17,
    ensures
        key.len() == 0 ==> walked(node, key) == Some(key),
        key.len() > 0 && key[0] < 16 ==> {
            let child = items[key[0] as int];
            let extends = inner.len() == 2 && payload(inner[0]).len() > 0 && payload(inner[0])[0]
                < 0x20;
            &&& (forall|inner: Seq<Seq<u8>>| !is_list_of(child, inner)) || child.len() == 33
                ==> walked(node, key) == Some(left_from(key, 1))
            &&& is_list_of(child, inner) && child.len() != 33 && !extends ==> walked(node, key)
                == walked(child, left_from(key, 1))
            &&& is_list_of(child, inner) && child.len() != 33 && extends && is_list_of(
                inner[1],
                grand,
            ) && grand.len() == 17 ==> walked(node, key) == walked(
                inner[1],
                left_from(key, 1 + nibble_count(inner[0])),
            )
            &&& is_list_of(child, inner) && child.len() != 33 && extends && (forall|
                grand: Seq<Seq<u8>>,
            |
                is_list_of(inner[1], grand) ==> grand.len() != 17) ==> walked(node, key) is None
        },
{
    lists_are_those_put_together(node, items);
    if key.len() > 0 && key[0] < 16 {
        let child = items[key[0] as int];
        assert(key.skip(1) =~= left_from(key, 1));
        if let Some(read) = rlp_list(child) {
            lists_are_those_put_together(child, read);
        }
        lists_are_those_put_together(child, inner);
        if is_list_of(child, inner) && inner.len() == 2 {
            assert(whole_item(inner[0]));
            payload_of_item(inner[0]);
            let count = 1 + nibble_count(inner[0]);
            assert(crate::trie::behind(key, count) =~= left_from(key, count));
            if let Some(read) = rlp_list(inner[1]) {
                lists_are_those_put_together(inner[1], read);
            }
            lists_are_those_put_together(inner[1], grand);
        }
    }
}

/// A proof is walked node by node, each from where the one before it leaves the key.
pub proof fn walks_one_by_one(node: Seq<u8>, others: Seq<Seq<u8>>, key: Seq<u8>)
    ensures
        proof_walks(Seq::empty(), key),
        proof_walks(seq![node] + others, key) <==> {
            &&& walked(node, key) matches Some(left)
            &&& proof_walks(others, left)
        },
{
    assert((seq![node] + others).skip(1) =~= others);
}

/// Whether no child of a branch is embedded: each is a reference, or there is none.
pub open spec fn embeds_nothing(node: Seq<u8>) -> bool {
    forall|items: Seq<Seq<u8>>, i: int|
        is_list_of(node, items) && items.len() == 17 && 0 <= i < 16 ==> {
            &&& rlp_header(#[trigger] items[i]) matches Some((list, _, _))
            &&& !list
        }
}

/// A proof whose branches embed nothing can be walked along any key, however many nodes it
/// has.
pub proof fn ordinary_proofs_walk(proof: Seq<Seq<u8>>, key: Seq<u8>)
    requires
        forall|i: int| 0 <= i < proof.len() ==> embeds_nothing(#[trigger] proof[i]),
    ensures
        proof_walks(proof, key),
    decreases proof.len(),
{
    if proof.len() > 0 {
        let node = proof[0];
        assert(embeds_nothing(node));
        if let Some(items) = rlp_list(node) {
            lists_are_those_put_together(node, items);
            if items.len() == 17 && key.len() > 0 && key[0] < 16 {
                assert(rlp_header(items[key[0] as int]) is Some);
                assert(rlp_list(items[key[0] as int]) is None);
            }
        }
        assert(walked(node, key) is Some);
        ordinary_proofs_walk(proof.skip(1), walked(node, key).unwrap());
    }
}

/// The state of an account whose proof embeds nothing is proven exactly where the proof
/// holds, however deep the account lies in the trie.
pub proof fn ordinary_account_proofs_answer(account: AccountMerkleProof, state_root: B256)
    requires
        forall|i: int|
            0 <= i < account.account_proof.len() ==> embeds_nothing(
                #[trigger] account.account_proof[i]@,
            ),
    ensures
        account_proven(account, state_root) == account_proof_holds(
            state_root,
            keccak(account.address@),
            account_rlp(account),
            account.account_proof@.map_values(|node: Vec<u8>| node@),
        ),
{
    let nodes = account.account_proof@.map_values(|node: Vec<u8>| node@);
    assert forall|i: int| 0 <= i < nodes.len() implies embeds_nothing(#[trigger] nodes[i]) by {
        assert(nodes[i] == account.account_proof[i]@);
    }
    ordinary_proofs_walk(nodes, nibbles(keccak(account.address@)@));
    account_proof_answers(account, state_root);
}

} // verus!
