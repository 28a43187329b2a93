//! A list of byte strings as one run of bytes, the form in which the public
//! values of a block are stored.
//!
//! The bytes are made and read by `bincode`. What is stated of it here is
//! the layout alone: the number of strings in eight bytes, least significant
//! first, then each string as its length, in eight bytes likewise, and its
//! bytes.

use vstd::bytes::{
    lemma_auto_spec_u64_to_from_le_bytes, spec_u64_from_le_bytes, spec_u64_to_le_bytes,
};
use vstd::prelude::*;

verus! {

/// `bincode::ErrorKind`, the reason a call of `bincode` failed. It is
/// carried through unread.
#[verifier::external_type_specification]
#[verifier::external_body]
pub struct ExBincodeErrorKind(bincode::ErrorKind);

/// One byte string with its length in front.
pub open spec fn stored_bytes(bytes: Seq<u8>) -> Seq<u8> {
    spec_u64_to_le_bytes(bytes.len() as u64) + bytes
}

/// The byte strings of a list one after the other, each with its length in
/// front.
pub open spec fn stored_items(list: Seq<Seq<u8>>) -> Seq<u8>
    decreases list.len(),
{
    if list.len() == 0 {
        Seq::empty()
    } else {
        stored_bytes(list[0]) + stored_items(list.skip(1))
    }
}

/// A list of byte strings as one run of bytes.
pub open spec fn stored_list(list: Seq<Seq<u8>>) -> Seq<u8> {
    spec_u64_to_le_bytes(list.len() as u64) + stored_items(list)
}

/// The number of strings, and the length of each, fit in eight bytes.
pub open spec fn storable(list: Seq<Seq<u8>>) -> bool {
    &&& list.len() <= u64::MAX
    &&& forall|i: int| 0 <= i < list.len() ==> (#[trigger] list[i]).len() <= u64::MAX
}

/// `bytes` begin with the stored form of `list`.
pub open spec fn holds_list(bytes: Seq<u8>, list: Seq<Seq<u8>>) -> bool {
    storable(list) && stored_list(list).is_prefix_of(bytes)
}

/// The list whose stored form `bytes` begin with, if there is one.
pub open spec fn list_in(bytes: Seq<u8>) -> Option<Seq<Seq<u8>>> {
    if exists|list: Seq<Seq<u8>>| holds_list(bytes, list) {
        Some(choose|list: Seq<Seq<u8>>| holds_list(bytes, list))
    } else {
        None
    }
}

/// Calls `bincode::serialize` on a list of byte strings. With the fixed
/// settings of that function a length is written as eight bytes, least
/// significant first, a byte as itself, and a sequence as its length and
/// then its items: the result is [`stored_list`] of the list. On such a
/// list the call has nothing to fail on: it sets no size limit, a vector
/// tells its length, and the bytes are written into a vector, which grows
/// as needed.
#[verifier::external_body]
fn serialize(list: &Vec<Vec<u8>>) -> (out: Result<Vec<u8>, Box<bincode::ErrorKind>>)
    ensures
        out is Ok,
        out matches Ok(bytes) ==> bytes@ == stored_list(list.deep_view()),
{
    bincode::serialize(list)
}

/// Calls `bincode::deserialize` for a list of byte strings. The call reads
/// the layout that [`stored_list`] states from the front of `bytes` and does
/// not look at what follows it. It succeeds, with the list read, where the
/// bytes begin with the stored form of a list, and fails where they end
/// before such a form does.
#[verifier::external_body]
fn deserialize(bytes: &[u8]) -> (out: Result<Vec<Vec<u8>>, Box<bincode::ErrorKind>>)
    ensures
        match out {
            Ok(list) => holds_list(bytes@, list.deep_view()),
            Err(_) => forall|list: Seq<Seq<u8>>| !holds_list(bytes@, list),
        },
{
    bincode::deserialize(bytes)
}

/// The stored form of a list of byte strings. Every list held in memory
/// has one, so the result is never `None`.
pub fn store_list(list: &Vec<Vec<u8>>) -> (stored: Option<Vec<u8>>)
    ensures
        stored matches Some(bytes) && bytes@ == stored_list(list.deep_view()),
{
    match serialize(list) {
        Ok(bytes) => Some(bytes),
        Err(_) => None,
    }
}

/// The list of byte strings whose stored form `bytes` begin with, or `None`
/// where they begin with none.
pub fn read_list(bytes: &[u8]) -> (list: Option<Vec<Vec<u8>>>)
    ensures
        match list {
            Some(l) => list_in(bytes@) == Some(l.deep_view()),
            None => list_in(bytes@) is None,
        },
{
    match deserialize(bytes) {
        Ok(list) => {
            proof {
                lemma_list_in(bytes@, list.deep_view());
            }
            Some(list)
        },
        Err(_) => None,
    }
}

proof fn lemma_same_length_in_front(x: u64, y: u64, rest_x: Seq<u8>, rest_y: Seq<u8>, bytes: Seq<u8>)
    requires
        (spec_u64_to_le_bytes(x) + rest_x).is_prefix_of(bytes),
        (spec_u64_to_le_bytes(y) + rest_y).is_prefix_of(bytes),
    ensures
        x == y,
        rest_x.is_prefix_of(bytes.skip(8)),
        rest_y.is_prefix_of(bytes.skip(8)),
{
    lemma_auto_spec_u64_to_from_le_bytes();
    let a = spec_u64_to_le_bytes(x) + rest_x;
    let b = spec_u64_to_le_bytes(y) + rest_y;
    assert(a.subrange(0, 8) =~= spec_u64_to_le_bytes(x));
    assert(b.subrange(0, 8) =~= spec_u64_to_le_bytes(y));
    assert(a.subrange(0, 8) =~= bytes.subrange(0, 8));
    assert(b.subrange(0, 8) =~= bytes.subrange(0, 8));
    assert(spec_u64_from_le_bytes(spec_u64_to_le_bytes(x)) == x);
    assert(spec_u64_from_le_bytes(spec_u64_to_le_bytes(y)) == y);
    assert(rest_x =~= a.skip(8));
    assert(rest_y =~= b.skip(8));
    assert(rest_x =~= bytes.skip(8).subrange(0, rest_x.len() as int));
    assert(rest_y =~= bytes.skip(8).subrange(0, rest_y.len() as int));
}

proof fn lemma_items_are_unambiguous(a: Seq<Seq<u8>>, b: Seq<Seq<u8>>, bytes: Seq<u8>)
    requires
        a.len() == b.len(),
        storable(a),
        storable(b),
        stored_items(a).is_prefix_of(bytes),
        stored_items(b).is_prefix_of(bytes),
    ensures
        a == b,
    decreases a.len(),
{
    if a.len() == 0 {
        assert(a =~= b);
    } else {
        let rest_a = a[0] + stored_items(a.skip(1));
        let rest_b = b[0] + stored_items(b.skip(1));
        assert(stored_items(a) =~= spec_u64_to_le_bytes(a[0].len() as u64) + rest_a);
        assert(stored_items(b) =~= spec_u64_to_le_bytes(b[0].len() as u64) + rest_b);
        lemma_same_length_in_front(a[0].len() as u64, b[0].len() as u64, rest_a, rest_b, bytes);
        let n = a[0].len() as int;
        assert(b[0].len() == n);
        let body = bytes.skip(8);
        assert(a[0] =~= body.subrange(0, n)) by {
            assert(a[0] =~= rest_a.subrange(0, n));
        }
        assert(b[0] =~= body.subrange(0, n)) by {
            assert(b[0] =~= rest_b.subrange(0, n));
        }
        assert(stored_items(a.skip(1)).is_prefix_of(body.skip(n))) by {
            assert(stored_items(a.skip(1)) =~= rest_a.skip(n));
        }
        assert(stored_items(b.skip(1)).is_prefix_of(body.skip(n))) by {
            assert(stored_items(b.skip(1)) =~= rest_b.skip(n));
        }
        assert(storable(a.skip(1))) by {
            assert forall|i: int| 0 <= i < a.skip(1).len() implies (#[trigger] a.skip(1)[i]).len()
                <= u64::MAX by {
                assert(a.skip(1)[i] == a[i + 1]);
            }
        }
        assert(storable(b.skip(1))) by {
            assert forall|i: int| 0 <= i < b.skip(1).len() implies (#[trigger] b.skip(1)[i]).len()
                <= u64::MAX by {
                assert(b.skip(1)[i] == b[i + 1]);
            }
        }
        lemma_items_are_unambiguous(a.skip(1), b.skip(1), body.skip(n));
        assert(a =~= seq![a[0]] + a.skip(1));
        assert(b =~= seq![b[0]] + b.skip(1));
    }
}

/// Bytes begin with the stored form of one list at most.
pub proof fn lemma_stored_list_is_unambiguous(a: Seq<Seq<u8>>, b: Seq<Seq<u8>>, bytes: Seq<u8>)
    requires
        holds_list(bytes, a),
        holds_list(bytes, b),
    ensures
        a == b,
{
    lemma_same_length_in_front(
        a.len() as u64,
        b.len() as u64,
        stored_items(a),
        stored_items(b),
        bytes,
    );
    lemma_items_are_unambiguous(a, b, bytes.skip(8));
}

/// Where bytes begin with the stored form of a list, that list is the one
/// they hold.
pub proof fn lemma_list_in(bytes: Seq<u8>, list: Seq<Seq<u8>>)
    requires
        holds_list(bytes, list),
    ensures
        list_in(bytes) == Some(list),
{
    let found = choose|l: Seq<Seq<u8>>| holds_list(bytes, l);
    lemma_stored_list_is_unambiguous(found, list, bytes);
}

/// Reading gives back the list that was stored, whatever bytes follow it.
pub proof fn lemma_read_stored(list: Seq<Seq<u8>>, tail: Seq<u8>)
    requires
        storable(list),
    ensures
        list_in(stored_list(list) + tail) == Some(list),
{
    let bytes = stored_list(list) + tail;
    assert(stored_list(list) =~= bytes.subrange(0, stored_list(list).len() as int));
    lemma_list_in(bytes, list);
}

/// Every list of byte strings held in memory is storable.
pub proof fn lemma_vec_is_storable(list: Vec<Vec<u8>>)
    ensures
        storable(list.deep_view()),
{
    assert(list.deep_view().len() == list.len());
    assert forall|i: int| 0 <= i < list.deep_view().len() implies (
    #[trigger] list.deep_view()[i]).len() <= u64::MAX by {
        assert(list.deep_view()[i] =~= list[i]@);
        assert(list[i]@.len() == list[i].len());
    }
}

} // verus!
