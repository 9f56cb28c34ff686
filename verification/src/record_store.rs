//! The in-process record store: an insertion-ordered list of [`Ip`] records,
//! authoritative for listing, pagination and deletion.
//!
//! The store keeps at most one record per address. Appending an address that
//! is already present is rejected, so that the uniqueness invariant holds no
//! matter how the callers above interleave their checks. The surrounding
//! application serializes access with a store-wide guard; every method here
//! describes one such guarded step.

use vstd::prelude::*;

use crate::ip::{addr_in, Ip};

verus! {

/// No two records in `s` carry the same address.
pub open spec fn unique_addrs(s: Seq<Ip>) -> bool {
    forall|i: int, j: int| 0 <= i < j < s.len() ==> s[i].ipv4@ != s[j].ipv4@
}

/// The slice of `s` that a page starting at `offset` with at most `limit`
/// entries sees: out-of-range bounds give an empty page, never an error.
pub open spec fn page_of(s: Seq<Ip>, offset: int, limit: int) -> Seq<Ip> {
    if offset < 0 || limit <= 0 || offset >= s.len() {
        Seq::<Ip>::empty()
    } else if offset + limit <= s.len() {
        s.subrange(offset, offset + limit)
    } else {
        s.subrange(offset, s.len() as int)
    }
}

/// Insertion-ordered collection of IP records with unique addresses.
pub struct RecordStore {
    records: Vec<Ip>,
}

impl View for RecordStore {
    type V = Seq<Ip>;

    closed spec fn view(&self) -> Seq<Ip> {
        self.records@
    }
}

impl RecordStore {
    /// The store's invariant: addresses are pairwise distinct.
    pub open spec fn wf(&self) -> bool {
        unique_addrs(self@)
    }

    /// A store with no records, as created at process start.
    pub fn new() -> (s: Self)
        ensures
            s@ == Seq::<Ip>::empty(),
            s.wf(),
    {
        RecordStore { records: Vec::new() }
    }

    /// Number of records currently held.
    pub fn len(&self) -> (n: usize)
        ensures
            n == self@.len(),
    {
        self.records.len()
    }

    /// The record at position `i` in insertion order.
    pub fn get(&self, i: usize) -> (r: &Ip)
        requires
            i < self@.len(),
        ensures
            *r == self@[i as int],
    {
        &self.records[i]
    }

    /// Whether some record carries `address`.
    pub fn contains_addr(&self, address: &String) -> (b: bool)
        ensures
            b == addr_in(self@, address@),
    {
        let n = self.records.len();
        let mut i: usize = 0;
        while i < n
            invariant
                i <= n,
                n == self.records@.len(),
                forall|k: int| 0 <= k < i ==> self.records@[k].ipv4@ != address@,
            decreases n - i,
        {
            if self.records[i].ipv4 == *address {
                assert(addr_in(self@, address@));
                return true;
            }
            i += 1;
        }
        false
    }

    /// Append `record` unless its address is already present; reports whether
    /// the record was taken. Insertion order is what `list` later replays.
    pub fn append(&mut self, record: Ip) -> (ok: bool)
        requires
            old(self).wf(),
        ensures
            final(self).wf(),
            ok == !addr_in(old(self)@, record.ipv4@),
            ok ==> final(self)@ == old(self)@.push(record),
            !ok ==> final(self)@ == old(self)@,
    {
        if self.contains_addr(&record.ipv4) {
            false
        } else {
            proof {
                let s = self@.push(record);
                assert forall|i: int, j: int| 0 <= i < j < s.len() implies s[i].ipv4@
                    != s[j].ipv4@ by {
                    if j == s.len() - 1 {
                        assert(!addr_in(self@, record.ipv4@));
                        assert(s[i] == self@[i]);
                    }
                }
            }
            self.records.push(record);
            true
        }
    }

    /// Remove the record carrying `address`, if any, shifting the rest left;
    /// reports whether anything was removed. Because addresses are unique,
    /// at most one record can match.
    pub fn remove(&mut self, address: &String) -> (found: bool)
        requires
            old(self).wf(),
        ensures
            final(self).wf(),
            found == addr_in(old(self)@, address@),
            !found ==> final(self)@ == old(self)@,
            found ==> final(self)@.len() + 1 == old(self)@.len(),
            !addr_in(final(self)@, address@),
            found ==> (exists|i: int|
                0 <= i < old(self)@.len() && old(self)@[i].ipv4@ == address@ && final(self)@
                    == old(self)@.remove(i)),
    {
        let ghost s0 = self@;
        let n = self.records.len();
        let mut i: usize = 0;
        while i < n
            invariant
                i <= n,
                n == self.records@.len(),
                self.records@ == s0,
                s0 == old(self)@,
                unique_addrs(s0),
                forall|k: int| 0 <= k < i ==> self.records@[k].ipv4@ != address@,
            decreases n - i,
        {
            if self.records[i].ipv4 == *address {
                self.records.remove(i);
                proof {
                    s0.remove_ensures(i as int);
                    let t = s0.remove(i as int);
                    assert forall|p: int, q: int| 0 <= p < q < t.len() implies t[p].ipv4@
                        != t[q].ipv4@ by {
                        lemma_remove_index(s0, i as int, p);
                        lemma_remove_index(s0, i as int, q);
                    }
                    assert forall|k: int| 0 <= k < t.len() implies t[k].ipv4@ != address@ by {
                        lemma_remove_index(s0, i as int, k);
                    }
                    assert(addr_in(s0, address@));
                }
                return true;
            }
            i += 1;
        }
        false
    }

    /// Clones of the records from `offset` on, at most `limit` of them;
    /// bounds beyond the list give an empty result.
    pub fn list(&self, offset: usize, limit: usize) -> (r: Vec<Ip>)
        ensures
            r@ == page_of(self@, offset as int, limit as int),
    {
        let n = self.records.len();
        let mut out: Vec<Ip> = Vec::new();
        if offset >= n || limit == 0 {
            assert(page_of(self@, offset as int, limit as int) =~= Seq::<Ip>::empty());
            return out;
        }
        let end: usize = if limit > n - offset {
            n
        } else {
            offset + limit
        };
        let mut i: usize = offset;
        while i < end
            invariant
                offset <= i <= end,
                end <= n,
                n == self.records@.len(),
                out@ == self.records@.subrange(offset as int, i as int),
            decreases end - i,
        {
            let rec = self.records[i].clone();
            out.push(rec);
            proof {
                assert(self.records@.subrange(offset as int, i + 1) =~= self.records@.subrange(
                    offset as int,
                    i as int,
                ).push(self.records@[i as int]));
            }
            i += 1;
        }
        proof {
            assert(out@ == page_of(self@, offset as int, limit as int));
        }
        out
    }
}

/// How removing index `i` re-indexes a sequence: positions left of `i` keep
/// their element, positions from `i` on take the element one to the right.
proof fn lemma_remove_index(s: Seq<Ip>, i: int, k: int)
    requires
        0 <= i < s.len(),
        0 <= k < s.len() - 1,
    ensures
        k < i ==> s.remove(i)[k] == s[k],
        k >= i ==> s.remove(i)[k] == s[k + 1],
{
    s.remove_ensures(i);
}

} // verus!
