//! Which byte strings are nodes of a Merkle-Patricia trie.
//!
//! A node is an RLP list: a branch of sixteen children and a value, or a path with
//! either a child (an extension) or a value (a leaf). A child is a hash, or nothing,
//! or a node that is embedded because it is short. The proof verifiers panic on some
//! byte strings that are no nodes, and on some walks along a key that no trie has, so
//! these are told apart first.

use vstd::prelude::*;
use vstd::slice::slice_subrange;

use crate::bytes::{byte_strings, nibbles};
use crate::ethereum::{decode_rlp_header, rlp_header};
use crate::types::B256;

verus! {

/// The RLP items that a payload consists of, each with its header.
pub open spec fn rlp_items(payload: Seq<u8>) -> Option<Seq<Seq<u8>>>
    decreases payload.len(),
{
    if payload.len() == 0 {
        Some(Seq::empty())
    } else {
        match rlp_header(payload) {
            Some((_, length, rest)) => {
                let end = payload.len() - rest + length;
                prepend(seq![payload.take(end)], rlp_items(payload.skip(end)))
            },
            None => None,
        }
    }
}

/// `items` with `front` before them.
pub open spec fn prepend(front: Seq<Seq<u8>>, items: Option<Seq<Seq<u8>>>) -> Option<
    Seq<Seq<u8>>,
> {
    match items {
        Some(items) => Some(front + items),
        None => None,
    }
}

/// The payload of the RLP item that a byte string starts with.
pub open spec fn rlp_payload(bytes: Seq<u8>) -> Option<Seq<u8>> {
    match rlp_header(bytes) {
        Some((_, length, rest)) => Some(
            bytes.subrange(bytes.len() - rest, bytes.len() - rest + length),
        ),
        None => None,
    }
}

/// The items of the RLP list that a byte string starts with.
pub open spec fn rlp_list(bytes: Seq<u8>) -> Option<Seq<Seq<u8>>> {
    match (rlp_header(bytes), rlp_payload(bytes)) {
        (Some((true, _, _)), Some(payload)) => rlp_items(payload),
        _ => None,
    }
}

/// Whether a byte string starts with a reference to a child outside the node: an
/// empty string, or a string of 32 bytes with nothing behind it.
pub open spec fn outside_child(bytes: Seq<u8>) -> bool {
    rlp_header(bytes) matches Some((false, length, rest)) && (length == 0 || length == 32 && rest
        == 32)
}

/// Whether a path has one of the four flags, and is not an empty path to a child.
pub open spec fn path(item: Seq<u8>) -> bool {
    rlp_payload(item) matches Some(path) && path.len() > 0 && path[0] < 0x40 && (path[0] >= 0x10
        || path.len() > 1)
}

/// Whether the flag of a path says that it leads to a child, not to a value.
pub open spec fn path_to_child(item: Seq<u8>) -> bool {
    rlp_payload(item) matches Some(path) && path.len() > 0 && path[0] < 0x20
}

/// No item is longer than the payload that it is part of.
proof fn rlp_items_fit(payload: Seq<u8>)
    ensures
        rlp_items(payload) matches Some(items) ==> forall|i: int|
            0 <= i < items.len() ==> (#[trigger] items[i]).len() <= payload.len(),
    decreases payload.len(),
{
    if payload.len() > 0 {
        if let Some((_, length, rest)) = rlp_header(payload) {
            rlp_items_fit(payload.skip(payload.len() - rest + length));
        }
    }
}

/// Every item of a list is shorter than the list.
pub proof fn rlp_list_shrinks(bytes: Seq<u8>)
    ensures
        rlp_list(bytes) matches Some(items) ==> forall|i: int|
            0 <= i < items.len() ==> (#[trigger] items[i]).len() < bytes.len(),
{
    if let Some(payload) = rlp_payload(bytes) {
        rlp_items_fit(payload);
    }
}

/// Whether a byte string starts with a node, or with a reference to one.
pub open spec fn decodable_node(bytes: Seq<u8>) -> bool
    decreases bytes.len(),
{
    proof {
        rlp_list_shrinks(bytes);
    }
    outside_child(bytes) || match rlp_list(bytes) {
        Some(items) => if items.len() == 17 {
            forall|i: int| 0 <= i < 16 ==> decodable_node(#[trigger] items[i])
        } else {
            &&& items.len() == 2
            &&& path(items[0])
            &&& path_to_child(items[0]) ==> decodable_node(items[1])
        },
        None => false,
    }
}

/// Whether a byte string starts with a branch, that is a list of seventeen items.
pub open spec fn branch(bytes: Seq<u8>) -> bool {
    rlp_list(bytes) matches Some(items) && items.len() == 17
}

/// The number of nibbles in a path: two in each byte behind the flag, and one beside
/// the flag if it says so.
pub open spec fn path_nibbles(item: Seq<u8>) -> int {
    match rlp_payload(item) {
        Some(path) => if path.len() > 0 {
            2 * (path.len() - 1) + path[0] / 16 % 2
        } else {
            0
        },
        None => 0,
    }
}

/// What is left of a key behind its first `count` nibbles.
pub open spec fn behind(key: Seq<u8>, count: int) -> Seq<u8> {
    if count <= key.len() {
        key.skip(count)
    } else {
        Seq::empty()
    }
}

/// What a walk through a node leaves of a key. A branch is walked through the child that
/// the key leads to, and on through that child if it is embedded, which one of 33 bytes
/// never is. Nothing comes of a walk into an embedded extension of anything but a branch.
pub open spec fn walked(node: Seq<u8>, key: Seq<u8>) -> Option<Seq<u8>>
    decreases node.len(),
{
    match rlp_list(node) {
        Some(items) => if items.len() == 2 {
            Some(behind(key, path_nibbles(items[0])))
        } else if items.len() == 17 && key.len() > 0 && key[0] < 16 {
            let child = items[key[0] as int];
            proof {
                rlp_list_shrinks(node);
                rlp_list_shrinks(child);
            }
            match rlp_list(child) {
                Some(inner) => if child.len() == 33 {
                    Some(key.skip(1))
                } else if inner.len() == 2 && path_to_child(inner[0]) {
                    if branch(inner[1]) {
                        walked(inner[1], behind(key, 1 + path_nibbles(inner[0])))
                    } else {
                        None
                    }
                } else {
                    walked(child, key.skip(1))
                },
                None => Some(key.skip(1)),
            }
        } else {
            Some(key)
        },
        None => Some(key),
    }
}

/// Whether the nodes of a proof can be walked along a key one after the other.
pub open spec fn proof_walks(proof: Seq<Seq<u8>>, key: Seq<u8>) -> bool
    decreases proof.len(),
{
    proof.len() == 0 || match walked(proof[0], key) {
        Some(left) => proof_walks(proof.skip(1), left),
        None => false,
    }
}

/// The byte strings that a list of slices holds.
pub open spec fn slices(list: Seq<&[u8]>) -> Seq<Seq<u8>> {
    list.map_values(|slice: &[u8]| slice@)
}

/// Splits a payload into RLP items.
fn split_items<'a>(payload: &'a [u8]) -> (r: Option<Vec<&'a [u8]>>)
    ensures
        match r {
            Some(items) => rlp_items(payload@) == Some(slices(items@)),
            None => rlp_items(payload@) is None,
        },
{
    let mut items: Vec<&'a [u8]> = Vec::new();
    let mut at: usize = 0;
    assert(payload@.skip(0) =~= payload@);
    assert(rlp_items(payload@) == prepend(slices(items@), rlp_items(payload@))) by {
        if let Some(all) = rlp_items(payload@) {
            assert(slices(items@) + all =~= all);
        }
    }
    while at < payload.len()
        invariant
            at <= payload.len(),
            rlp_items(payload@) == prepend(slices(items@), rlp_items(payload@.skip(at as int))),
        decreases payload.len() - at,
    {
        let tail = slice_subrange(payload, at, payload.len());
        assert(tail@ =~= payload@.skip(at as int));
        match decode_rlp_header(tail) {
            Ok((_, length, rest)) => {
                let end: usize = tail.len() - rest + length;
                let item = slice_subrange(tail, 0, end);
                proof {
                    assert(item@ =~= tail@.take(end as int));
                    assert(tail@.skip(end as int) =~= payload@.skip(at + end));
                    let later = rlp_items(tail@.skip(end as int));
                    assert(slices(items@.push(item)) =~= slices(items@) + seq![item@]);
                    if let Some(later) = later {
                        assert(slices(items@) + (seq![item@] + later) =~= slices(items@.push(item))
                            + later);
                    }
                }
                items.push(item);
                at = at + end;
            },
            Err(_) => {
                return None;
            },
        }
    }
    assert(payload@.skip(at as int) =~= Seq::empty());
    assert(slices(items@) + Seq::<Seq<u8>>::empty() =~= slices(items@));
    Some(items)
}

/// Splits the RLP list that a byte string starts with into its items.
fn split_list<'a>(bytes: &'a [u8]) -> (r: Option<Vec<&'a [u8]>>)
    ensures
        match r {
            Some(items) => {
                &&& rlp_list(bytes@) == Some(slices(items@))
                &&& forall|i: int|
                    0 <= i < items.len() ==> (#[trigger] items[i]@).len() < bytes@.len()
            },
            None => rlp_list(bytes@) is None,
        },
{
    match decode_rlp_header(bytes) {
        Ok((true, length, rest)) => {
            let start: usize = bytes.len() - rest;
            let items = match split_items(slice_subrange(bytes, start, start + length)) {
                Some(items) => items,
                None => return None,
            };
            proof {
                rlp_list_shrinks(bytes@);
                let list = rlp_list(bytes@).unwrap();
                assert forall|i: int| 0 <= i < items.len() implies (#[trigger] items[i]@).len()
                    < bytes@.len() by {
                    assert(list[i] == items[i]@);
                }
            }
            Some(items)
        },
        _ => None,
    }
}

/// The first byte and the length of the payload that a byte string starts with, if
/// it is not empty.
fn path_flag(item: &[u8]) -> (r: Option<(u8, usize)>)
    ensures
        match r {
            Some((flag, length)) => rlp_payload(item@) matches Some(path) && length == path.len()
                > 0 && flag == path[0],
            None => rlp_payload(item@) matches Some(path) ==> path.len() == 0,
        },
{
    match decode_rlp_header(item) {
        Ok((_, length, rest)) => {
            if length > 0 {
                Some((item[item.len() - rest], length))
            } else {
                None
            }
        },
        Err(_) => None,
    }
}

/// Whether a byte string starts with a node, or with a reference to one; see
/// [`decodable_node`].
pub fn is_decodable_node(bytes: &[u8]) -> (decodable: bool)
    ensures
        decodable == decodable_node(bytes@),
    decreases bytes@.len(),
{
    if let Ok((false, length, rest)) = decode_rlp_header(bytes) {
        if length == 0 || length == 32 && rest == 32 {
            return true;
        }
    }
    match split_list(bytes) {
        Some(items) => {
            if items.len() == 17 {
                for i in 0..16usize
                    invariant
                        items.len() == 17,
                        forall|j: int|
                            0 <= j < i ==> decodable_node(#[trigger] slices(items@)[j]),
                        forall|j: int| 0 <= j < 17 ==> (#[trigger] items[j]@).len() < bytes@.len(),
                        !outside_child(bytes@),
                        rlp_list(bytes@) == Some(slices(items@)),
                {
                    assert(slices(items@)[i as int] == items[i as int]@);
                    if !is_decodable_node(items[i]) {
                        return false;
                    }
                }
                true
            } else if items.len() == 2 {
                assert(slices(items@)[0] == items[0]@);
                assert(slices(items@)[1] == items[1]@);
                match path_flag(items[0]) {
                    Some((flag, length)) => {
                        if flag >= 0x40 || flag < 0x10 && length == 1 {
                            false
                        } else {
                            flag >= 0x20 || is_decodable_node(items[1])
                        }
                    },
                    None => false,
                }
            } else {
                false
            }
        },
        None => false,
    }
}

/// Where a path that starts behind `at` nibbles of a 64-nibble key ends.
fn end_of_path(at: usize, item: &[u8]) -> (end: usize)
    requires
        at <= 64,
    ensures
        end == if at + path_nibbles(item@) <= 64 {
            at + path_nibbles(item@)
        } else {
            64
        },
{
    match path_flag(item) {
        Some((flag, length)) => {
            if length > 33 {
                64
            } else {
                let end: usize = at + 2 * (length - 1) + (flag / 16 % 2) as usize;
                if end <= 64 {
                    end
                } else {
                    64
                }
            }
        },
        None => at,
    }
}

/// Walks through a node from behind `at` nibbles of a key; see [`walked`]. Returns the
/// number of nibbles that lie behind the walk then, if anything comes of it.
pub fn walk(node: &[u8], key: &B256, at: usize) -> (end: Option<usize>)
    requires
        at <= 64,
    ensures
        match end {
            Some(end) => end <= 64 && walked(node@, nibbles(key@).skip(at as int)) == Some(
                nibbles(key@).skip(end as int),
            ),
            None => walked(node@, nibbles(key@).skip(at as int)) is None,
        },
    decreases node@.len(),
{
    let ghost all = nibbles(key@);
    let ghost left = all.skip(at as int);
    let items = match split_list(node) {
        Some(items) => items,
        None => return Some(at),
    };
    proof {
        assert(all.len() == 64);
        assert forall|count: int| 0 <= count implies #[trigger] behind(left, count) == all.skip(
            if at + count <= 64 {
                at + count
            } else {
                64
            },
        ) by {
            assert(behind(left, count) =~= all.skip(
                if at + count <= 64 {
                    at + count
                } else {
                    64
                },
            ));
        }
    }
    if items.len() == 2 {
        assert(slices(items@)[0] == items[0]@);
        return Some(end_of_path(at, items[0]));
    }
    if items.len() != 17 || at == 64 {
        return Some(at);
    }
    let byte: u8 = key[at / 2];
    let next: u8 = if at % 2 == 0 {
        byte / 16
    } else {
        byte % 16
    };
    assert(left[0] == next);
    assert(left.skip(1) =~= all.skip(at + 1));
    let child = items[next as usize];
    assert(slices(items@)[next as int] == child@);
    let inner = match split_list(child) {
        Some(inner) => inner,
        None => return Some(at + 1),
    };
    if child.len() == 33 {
        return Some(at + 1);
    }
    let extension: bool = inner.len() == 2 && match path_flag(inner[0]) {
        Some((flag, _)) => flag < 0x20,
        None => false,
    };
    if extension {
        assert(slices(inner@)[0] == inner[0]@);
        assert(slices(inner@)[1] == inner[1]@);
        let extended: bool = match split_list(inner[1]) {
            Some(items) => items.len() == 17,
            None => false,
        };
        if extended {
            walk(inner[1], key, end_of_path(at + 1, inner[0]))
        } else {
            None
        }
    } else {
        assert(inner.len() == 2 ==> slices(inner@)[0] == inner[0]@);
        walk(child, key, at + 1)
    }
}

/// Whether the nodes of a proof can be walked along a key; see [`proof_walks`].
pub fn is_walkable(proof: &Vec<Vec<u8>>, key: &B256) -> (walkable: bool)
    ensures
        walkable == proof_walks(byte_strings(proof@), nibbles(key@)),
{
    let mut at: usize = 0;
    assert(byte_strings(proof@).skip(0) =~= byte_strings(proof@));
    assert(nibbles(key@).skip(0) =~= nibbles(key@));
    for i in 0..proof.len()
        invariant
            at <= 64,
            proof_walks(byte_strings(proof@), nibbles(key@)) == proof_walks(
                byte_strings(proof@).skip(i as int),
                nibbles(key@).skip(at as int),
            ),
    {
        assert(byte_strings(proof@).skip(i as int)[0] == proof[i as int]@);
        assert(byte_strings(proof@).skip(i as int).skip(1) =~= byte_strings(proof@).skip(i + 1));
        match walk(&proof[i], key, at) {
            Some(end) => {
                at = end;
            },
            None => {
                return false;
            },
        }
    }
    true
}

} // verus!
