//! The centrals that take part in the mesh.
use crate::address::Address;
use vstd::prelude::*;

verus! {

/// The addresses of the known centrals: none twice, in the order in which they came.
#[derive(Debug)]
pub struct CentralList {
    entries: Vec<Address>,
}

impl View for CentralList {
    type V = Seq<Address>;

    closed spec fn view(&self) -> Seq<Address> {
        self.entries@
    }
}

/// The list with `address` in it: at the end, where it was not there yet.
pub open spec fn including(centrals: Seq<Address>, address: Address) -> Seq<Address> {
    if centrals.contains(address) {
        centrals
    } else {
        centrals.push(address)
    }
}

/// The list without `address`.
pub open spec fn excluding(centrals: Seq<Address>, address: Address) -> Seq<Address> {
    centrals.filter(|a: Address| a != address)
}

impl CentralList {
    #[verifier::type_invariant]
    spec fn entries_are_distinct(self) -> bool {
        self.entries@.no_duplicates()
    }

    /// An empty list.
    pub fn new() -> (centrals: CentralList)
        ensures
            centrals@ == Seq::<Address>::empty(),
    {
        CentralList { entries: Vec::new() }
    }

    /// The number of entries.
    pub fn len(&self) -> (count: usize)
        ensures
            count == self@.len(),
            self@.no_duplicates(),
    {
        proof {
            use_type_invariant(self);
        }
        self.entries.len()
    }

    /// Tells whether the list is empty.
    pub fn is_empty(&self) -> (empty: bool)
        ensures
            empty <==> self@.len() == 0,
    {
        self.entries.len() == 0
    }

    /// Tells whether `address` is in the list.
    pub fn contains(&self, address: &Address) -> (found: bool)
        ensures
            found == self@.contains(*address),
    {
        let mut i: usize = 0;
        while i < self.entries.len()
            invariant
                i <= self.entries@.len(),
                forall|j: int| 0 <= j < i ==> self.entries@[j] != *address,
            decreases self.entries@.len() - i,
        {
            if self.entries[i] == *address {
                return true;
            }
            i = i + 1;
        }
        false
    }

    /// Adds `address`, unless it is there.
    pub fn insert(&mut self, address: Address)
        ensures
            final(self)@ == including(old(self)@, address),
            old(self)@.contains(address) ==> final(self)@ == old(self)@,
            !old(self)@.contains(address) ==> final(self)@ == old(self)@.push(address),
            final(self)@.no_duplicates(),
    {
        proof {
            use_type_invariant(&*self);
        }
        if !self.contains(&address) {
            let mut entries: Vec<Address> = Vec::new();
            std::mem::swap(&mut entries, &mut self.entries);
            entries.push(address);
            self.entries = entries;
        }
    }

    /// Takes `address` out and leaves the others in their order.
    pub fn remove(&mut self, address: &Address)
        ensures
            final(self)@ == excluding(old(self)@, *address),
            final(self)@.no_duplicates(),
    {
        proof {
            use_type_invariant(&*self);
        }
        let ghost before = self.entries@;
        let mut kept: Vec<Address> = Vec::new();
        let mut i: usize = 0;
        while i < self.entries.len()
            invariant
                i <= before.len(),
                self.entries@ == before,
                kept@ == excluding(before.take(i as int), *address),
            decreases before.len() - i,
        {
            proof {
                reveal(Seq::filter);
                assert(before.take(i + 1).drop_last() =~= before.take(i as int));
            }
            if !(self.entries[i] == *address) {
                kept.push(self.entries[i]);
            }
            i = i + 1;
        }
        proof {
            assert(before.take(before.len() as int) =~= before);
            excluding_keeps_others(before, *address);
        }
        self.entries = kept;
    }
}

/// An address that is in the list leaves the list as it was, wherever it stands; any other is
/// added at the end. Nothing but the address is ever added, and nothing is lost.
pub proof fn including_adds_only_the_address(centrals: Seq<Address>, address: Address)
    ensures
        centrals.contains(address) ==> including(centrals, address) == centrals,
        !centrals.contains(address) ==> including(centrals, address) == centrals.push(address),
        including(centrals, address).contains(address),
        forall|other: Address|
            other != address ==> (#[trigger] including(centrals, address).contains(other)
                <==> centrals.contains(other)),
{
    let after = including(centrals, address);
    if !centrals.contains(address) {
        assert(after[centrals.len() as int] == address);
        assert forall|other: Address| other != address implies (#[trigger] after.contains(other)
            <==> centrals.contains(other)) by {
            if centrals.contains(other) {
                let i = choose|i: int| 0 <= i < centrals.len() && centrals[i] == other;
                assert(after[i] == other);
            }
            if after.contains(other) {
                let i = choose|i: int| 0 <= i < after.len() && after[i] == other;
                assert(centrals[i] == other);
            }
        }
    }
}

/// Excluding an address goes entry by entry: each entry stays, in its place among the others,
/// exactly if it is another address.
pub proof fn excluding_goes_entry_by_entry(
    front: Seq<Address>,
    entry: Address,
    address: Address,
    keep: spec_fn(Address) -> bool,
)
    requires
        forall|a: Address| #[trigger] keep(a) <==> a != address,
    ensures
        excluding(Seq::<Address>::empty(), address) == Seq::<Address>::empty(),
        entry == address ==> excluding(front.push(entry), address) == excluding(front, address),
        entry != address ==> excluding(front.push(entry), address) == excluding(
            front,
            address,
        ).push(entry),
        excluding(front, address) == front.filter(keep),
    decreases front.len(),
{
    reveal(Seq::filter);
    assert(front.push(entry).drop_last() =~= front);
    if front.len() > 0 {
        excluding_goes_entry_by_entry(front.drop_last(), front.last(), address, keep);
        assert(front =~= front.drop_last().push(front.last()));
    }
}

/// What is left of a list is everything but the excluded address, and stays distinct.
pub proof fn excluding_keeps_others(centrals: Seq<Address>, address: Address)
    ensures
        forall|a: Address| #[trigger]
            excluding(centrals, address).contains(a) <==> centrals.contains(a) && a != address,
        centrals.no_duplicates() ==> excluding(centrals, address).no_duplicates(),
    decreases centrals.len(),
{
    let other = |a: Address| a != address;
    let left = excluding(centrals, address);
    reveal(Seq::filter);
    if centrals.len() > 0 {
        let front = centrals.drop_last();
        let front_left = excluding(front, address);
        excluding_keeps_others(front, address);
        assert forall|a: Address| #[trigger] left.contains(a) implies centrals.contains(a) && a
            != address by {
            let i = choose|i: int| 0 <= i < left.len() && left[i] == a;
            if i < front_left.len() {
                assert(front_left[i] == a);
                assert(front_left.contains(a));
                let j = choose|j: int| 0 <= j < front.len() && front[j] == a;
                assert(centrals[j] == a);
            } else {
                assert(centrals[centrals.len() - 1] == a);
            }
        }
        assert forall|a: Address| centrals.contains(a) && a != address implies #[trigger]
            left.contains(a) by {
            let i = choose|i: int| 0 <= i < centrals.len() && centrals[i] == a;
            centrals.lemma_filter_contains(other, i);
        }
        if centrals.no_duplicates() {
            assert(front.no_duplicates());
            assert(!front.contains(centrals.last()));
            assert(!front_left.contains(centrals.last()));
        }
    }
}

} // verus!
