//! Fixed-capacity arrays whose used part ends at a sentinel.
//!
//! The SDK hands out arrays of a fixed capacity in which a reserved value,
//! the sentinel, marks the first unused slot.  An array without a sentinel is
//! used to its full capacity.  All scanning for a sentinel is done here.

use vstd::prelude::*;
use vstd::slice::*;

verus! {

/// `n` is where the used part of `slots` ends: no sentinel stands before
/// `n`, and `n` is either the place of a sentinel or the capacity.
pub open spec fn ends_at<T>(slots: Seq<T>, sentinel: T, n: int) -> bool {
    &&& 0 <= n <= slots.len()
    &&& forall|j: int| 0 <= j < n ==> slots[j] != sentinel
    &&& n < slots.len() ==> slots[n] == sentinel
}

/// The number of used slots.
pub open spec fn used_len<T>(slots: Seq<T>, sentinel: T) -> int {
    choose|n: int| ends_at(slots, sentinel, n)
}

/// The used slots: everything before the first sentinel.
pub open spec fn used<T>(slots: Seq<T>, sentinel: T) -> Seq<T> {
    slots.take(used_len(slots, sentinel))
}

/// `items` at the front of an array of `capacity` slots, every other slot
/// holding `sentinel`.
pub open spec fn padded<T>(items: Seq<T>, sentinel: T, capacity: nat) -> Seq<T> {
    Seq::new(
        capacity,
        |i: int|
            if i < items.len() {
                items[i]
            } else {
                sentinel
            },
    )
}

/// The used part ends at one place only.
pub proof fn lemma_ends_at_unique<T>(slots: Seq<T>, sentinel: T, n: int, m: int)
    requires
        ends_at(slots, sentinel, n),
        ends_at(slots, sentinel, m),
    ensures
        n == m,
{
    if n < m {
        assert(slots[n] != sentinel);
    } else if m < n {
        assert(slots[m] != sentinel);
    }
}

/// Whoever finds a place where the used part ends has found `used_len`.
pub proof fn lemma_used_len_is<T>(slots: Seq<T>, sentinel: T, n: int)
    requires
        ends_at(slots, sentinel, n),
    ensures
        used_len(slots, sentinel) == n,
{
    lemma_ends_at_unique(slots, sentinel, n, used_len(slots, sentinel));
}

/// Every array has a used part, sentinel or not.
pub proof fn lemma_used_len_exists<T>(slots: Seq<T>, sentinel: T)
    ensures
        ends_at(slots, sentinel, used_len(slots, sentinel)),
    decreases slots.len(),
{
    if slots.len() == 0 {
        assert(ends_at(slots, sentinel, 0));
    } else if slots[0] == sentinel {
        assert(ends_at(slots, sentinel, 0));
    } else {
        let rest = slots.drop_first();
        lemma_used_len_exists(rest, sentinel);
        let k = used_len(rest, sentinel);
        assert forall|j: int| 0 <= j < k + 1 implies slots[j] != sentinel by {
            if j > 0 {
                assert(rest[j - 1] == slots[j]);
            }
        }
        if k + 1 < slots.len() {
            assert(rest[k] == slots[k + 1]);
        }
        assert(ends_at(slots, sentinel, k + 1));
    }
}

/// A sentinel in the first slot leaves nothing used.
pub proof fn lemma_sentinel_first<T>(slots: Seq<T>, sentinel: T)
    requires
        slots.len() > 0,
        slots[0] == sentinel,
    ensures
        used(slots, sentinel) == Seq::<T>::empty(),
{
    assert(ends_at(slots, sentinel, 0));
    lemma_used_len_is(slots, sentinel, 0);
    assert(slots.take(0) =~= Seq::<T>::empty());
}

/// Without a sentinel every slot is used, and no more than there are.
pub proof fn lemma_no_sentinel<T>(slots: Seq<T>, sentinel: T)
    requires
        forall|i: int| 0 <= i < slots.len() ==> slots[i] != sentinel,
    ensures
        used(slots, sentinel) == slots,
{
    assert(ends_at(slots, sentinel, slots.len() as int));
    lemma_used_len_is(slots, sentinel, slots.len() as int);
    assert(slots.take(slots.len() as int) =~= slots);
}

/// Items that hold no sentinel and fit the capacity come back unchanged
/// from the padded array.
pub proof fn lemma_used_of_padded<T>(items: Seq<T>, sentinel: T, capacity: nat)
    requires
        items.len() <= capacity,
        forall|i: int| 0 <= i < items.len() ==> items[i] != sentinel,
    ensures
        used_len(padded(items, sentinel, capacity), sentinel) == items.len(),
        used(padded(items, sentinel, capacity), sentinel) == items,
{
    let slots = padded(items, sentinel, capacity);
    assert(ends_at(slots, sentinel, items.len() as int));
    lemma_used_len_is(slots, sentinel, items.len() as int);
    assert(slots.take(items.len() as int) =~= items);
}

/// An array whose unused slots all hold the sentinel is the padding of its
/// used part.
pub proof fn lemma_padded_of_used<T>(slots: Seq<T>, sentinel: T)
    requires
        forall|i: int| used_len(slots, sentinel) <= i < slots.len() ==> slots[i] == sentinel,
    ensures
        padded(used(slots, sentinel), sentinel, slots.len()) == slots,
{
    lemma_used_len_exists(slots, sentinel);
    assert(padded(used(slots, sentinel), sentinel, slots.len()) =~= slots);
}

/// Finds where the used part of `slots` ends.
pub fn scan(slots: &[i32], sentinel: i32) -> (n: usize)
    ensures
        n == used_len(slots@, sentinel),
        ends_at(slots@, sentinel, n as int),
{
    let mut n: usize = 0;
    while n < slots.len() && slots[n] != sentinel
        invariant
            n <= slots@.len(),
            forall|j: int| 0 <= j < n ==> slots@[j] != sentinel,
        decreases slots@.len() - n,
    {
        n = n + 1;
    }
    proof {
        lemma_used_len_is(slots@, sentinel, n as int);
    }
    n
}

/// Finds where the used part of a byte buffer ends.
pub fn scan_bytes(slots: &[u8], sentinel: u8) -> (n: usize)
    ensures
        n == used_len(slots@, sentinel),
        ends_at(slots@, sentinel, n as int),
{
    let mut n: usize = 0;
    while n < slots.len() && slots[n] != sentinel
        invariant
            n <= slots@.len(),
            forall|j: int| 0 <= j < n ==> slots@[j] != sentinel,
        decreases slots@.len() - n,
    {
        n = n + 1;
    }
    proof {
        lemma_used_len_is(slots@, sentinel, n as int);
    }
    n
}

/// Copies the used part of `slots`.
pub fn take_used(slots: &[i32], sentinel: i32) -> (items: Vec<i32>)
    ensures
        items@ == used(slots@, sentinel),
        items@.len() <= slots@.len(),
        forall|i: int| 0 <= i < items@.len() ==> items@[i] != sentinel,
{
    let n = scan(slots, sentinel);
    let items = slice_to_vec(slice_subrange(slots, 0, n));
    assert(items@ =~= used(slots@, sentinel));
    items
}

/// Writes `items` to the front of an array of `N` slots and the sentinel to
/// every slot behind them.
pub fn fill<const N: usize>(items: &[i32], sentinel: i32) -> (slots: [i32; N])
    requires
        items@.len() <= N,
    ensures
        slots@ == padded(items@, sentinel, N as nat),
{
    let mut slots = [sentinel;N];
    let mut i: usize = 0;
    while i < items.len()
        invariant
            i <= items@.len() <= N,
            forall|j: int| 0 <= j < i ==> slots@[j] == items@[j],
            forall|j: int| i <= j < N ==> slots@[j] == sentinel,
        decreases items@.len() - i,
    {
        slots[i] = items[i];
        i = i + 1;
    }
    assert(slots@ =~= padded(items@, sentinel, N as nat));
    slots
}

} // verus!
