//! A cell holding an `Arc<T>` that can be read (by cloning the `Arc`) and
//! replaced (handing back the previous `Arc`).

use std::sync::Arc;
use std::sync::atomic::Ordering;
use vstd::prelude::*;
use vstd::string::*;

verus! {

/// Clones an `Arc`.
///
/// Trusted: `Arc::clone` (std) returns a new `Arc` pointing to the same
/// allocation, so the value seen through it is the value seen through `a`.
#[verifier::external_body]
fn arc_clone<T>(a: &Arc<T>) -> (r: Arc<T>)
    ensures
        *r == **a,
{
    Arc::clone(a)
}

/// Gives up an `Arc` without releasing its reference.
///
/// Trusted: `std::mem::forget` takes ownership and runs no destructor, so
/// the reference count is left as it was. Nothing is returned.
#[verifier::external_body]
fn arc_leak<T>(a: Arc<T>) {
    std::mem::forget(a)
}

/// The address of the value an `Arc` points to, as `{:p}` prints it.
///
/// Trusted: `fmt::Pointer` for `Arc` prints the address of the shared
/// value. An address gets no name, so nothing is stated of the text.
#[verifier::external_body]
fn arc_address_text<T>(a: &Arc<T>) -> String {
    format!("{:p}", *a)
}

/// Same-allocation test for two `Arc`s.
///
/// Trusted: `Arc::ptr_eq` (std) is true only when both point to the same
/// allocation, in which case they show the same value. Which allocations two
/// `Arc`s point to is not modelled, so nothing is said when the values are
/// equal but the allocations may differ.
#[verifier::external_body]
fn arc_ptr_eq<T>(a: &Arc<T>, b: &Arc<T>) -> (r: bool)
    ensures
        r ==> **a == **b,
{
    Arc::ptr_eq(a, b)
}

/// A write of `data` into a cell that held `before`: the cell then holds
/// `after`, and the write hands back `returned`.
pub open spec fn is_store<T>(before: T, data: T, after: T, returned: T) -> bool {
    &&& after == data
    &&& returned == before
}

/// A conditional write into a cell that held `before`: when `matched`, it is
/// a write of `new`; otherwise the cell keeps its value and `new` is handed
/// back.
pub open spec fn is_swap_if<T>(before: T, matched: bool, new: T, after: T, returned: T) -> bool {
    if matched {
        is_store(before, new, after, returned)
    } else {
        after == before && returned == new
    }
}

/// A cell that holds one shared value of type `T`.
///
/// Its abstract state is the value currently held (`cell@`). Reads take the
/// cell shared and writes take it exclusively, so that what a read returns is
/// always the value of the last write; threads share a cell behind a lock.
pub struct ArcCell<T> {
    ptr: Arc<T>,
}

impl<T> View for ArcCell<T> {
    type V = T;

    closed spec fn view(&self) -> T {
        *self.ptr
    }
}

impl<T> ArcCell<T> {
    /// Makes a cell that holds `data`.
    pub fn new(data: Arc<T>) -> (cell: Self)
        ensures
            cell@ == *data,
    {
        ArcCell { ptr: data }
    }

    /// Returns a new `Arc` to the value held.
    ///
    /// `ord` is a load ordering: `Release` and `AcqRel` are not ones. With
    /// exclusive access to the cell for every write, every load ordering
    /// gives the same result.
    pub fn load(&self, ord: Ordering) -> (r: Arc<T>)
        requires
            ord != Ordering::Release,
            ord != Ordering::AcqRel,
        ensures
            *r == self@,
    {
        arc_clone(&self.ptr)
    }

    /// Returns a new `Arc` to the value held (`load` with `Relaxed`).
    pub fn get(&self) -> (r: Arc<T>)
        ensures
            *r == self@,
    {
        self.load(Ordering::Relaxed)
    }

    /// Replaces the value held by `data` and returns a new `Arc` to the value
    /// held before. The cell's own reference to that value is not released
    /// (it is leaked, so the value is never dropped).
    ///
    /// `ord` is a store ordering: `Acquire` and `AcqRel` are not ones. With
    /// exclusive access to the cell, every store ordering gives the same
    /// result.
    pub fn store(&mut self, data: Arc<T>, ord: Ordering) -> (r: Arc<T>)
        requires
            ord != Ordering::Acquire,
            ord != Ordering::AcqRel,
        ensures
            is_store(old(self)@, *data, final(self)@, *r),
    {
        let old = self.get();
        let mut held = data;
        std::mem::swap(&mut self.ptr, &mut held);
        arc_leak(held);
        old
    }

    /// Replaces the value held by `data` and returns the `Arc` held before
    /// (`store` with `SeqCst`).
    pub fn set(&mut self, data: Arc<T>) -> (r: Arc<T>)
        ensures
            is_store(old(self)@, *data, final(self)@, *r),
    {
        self.store(data, Ordering::SeqCst)
    }

    /// Stores `new` when `matched` and returns the cell's own `Arc` to the
    /// value held before; otherwise leaves the cell as it is and hands `new`
    /// back.
    pub fn swap_if(&mut self, matched: bool, new: Arc<T>) -> (r: Arc<T>)
        ensures
            is_swap_if(old(self)@, matched, *new, final(self)@, *r),
    {
        if matched {
            let mut held = new;
            std::mem::swap(&mut self.ptr, &mut held);
            held
        } else {
            new
        }
    }

    /// Stores `new` when `current` is the very `Arc` held (same allocation),
    /// returning the `Arc` held before; otherwise leaves the cell unchanged
    /// and hands `new` back. `current` itself is released.
    pub fn compare_and_swap(&mut self, current: Arc<T>, new: Arc<T>, ord: Ordering) -> (r: Arc<T>)
        ensures
            exists|matched: bool|
                is_swap_if(old(self)@, matched, *new, final(self)@, *r) && (matched ==> *current
                    == old(self)@),
    {
        let matched = arc_ptr_eq(&current, &self.ptr);
        let r = self.swap_if(matched, new);
        assert(is_swap_if(old(self)@, matched, *new, self@, *r) && (matched ==> *current == old(self)@));
        r
    }

    /// The debug text of the cell, `ArcCell { ptr: 0x... }`, with the address
    /// of the value held.
    pub fn debug_text(&self) -> (r: String)
        ensures
            exists|address: Seq<char>| r@ == "ArcCell { ptr: "@ + address + " }"@,
    {
        let mut r = String::from_str("ArcCell { ptr: ");
        let address = arc_address_text(&self.ptr);
        r.append(address.as_str());
        r.append(" }");
        assert(r@ == "ArcCell { ptr: "@ + address@ + " }"@);
        r
    }

    /// Consumes the cell and returns the `Arc` it held.
    pub fn into_inner(self) -> (r: Arc<T>)
        ensures
            *r == self@,
    {
        self.ptr
    }
}

/// A load after a store returns the value stored: if a store of `data`
/// turned `before` into `after`, every later load gives `data`.
pub proof fn law_load_after_store<T>(before: T, data: T, after: T, returned: T, loaded: T)
    requires
        is_store(before, data, after, returned),
        loaded == after,
    ensures
        loaded == data,
{
}

/// Of two stores in a row, the second hands back what the first stored.
pub proof fn law_store_after_store<T>(
    before: T,
    first: T,
    middle: T,
    returned_first: T,
    second: T,
    after: T,
    returned_second: T,
)
    requires
        is_store(before, first, middle, returned_first),
        is_store(middle, second, after, returned_second),
    ensures
        returned_second == first,
        after == second,
        returned_first == before,
{
}

/// A conditional store that does not match leaves the cell as it was and
/// hands back the value offered; one that matches is a store.
pub proof fn law_swap_if<T>(before: T, matched: bool, new: T, after: T, returned: T)
    requires
        is_swap_if(before, matched, new, after, returned),
    ensures
        !matched ==> after == before && returned == new,
        matched ==> is_store(before, new, after, returned),
{
}

/// A cell made from an `Arc` by `From` holds the value of that `Arc`, as one
/// made by `new` does.
pub proof fn law_from_is_new<T>(data: Arc<T>)
    ensures
        <ArcCell<T> as vstd::std_specs::convert::FromSpec<Arc<T>>>::obeys_from_spec(),
        (<ArcCell<T> as vstd::std_specs::convert::FromSpec<Arc<T>>>::from_spec(data))@ == *data,
{
}

impl<T> From<Arc<T>> for ArcCell<T> {
    fn from(data: Arc<T>) -> (cell: Self) {
        Self::new(data)
    }
}

impl<T> vstd::std_specs::convert::FromSpecImpl<Arc<T>> for ArcCell<T> {
    open spec fn obeys_from_spec() -> bool {
        true
    }

    closed spec fn from_spec(v: Arc<T>) -> Self {
        ArcCell { ptr: v }
    }
}

} // verus!
