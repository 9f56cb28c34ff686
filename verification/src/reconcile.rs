//! The reconciliation layer: the rules that keep the in-memory record store
//! and the external key-value mirror coherent on create and delete.
//!
//! The mirror is reached over the network, so this module never talks to it
//! directly. A create is run in two guarded steps: [`create_plan`] decides,
//! from the mirror's answer to an existence check, whether to refuse the
//! request or to go on, and fixes the whole mirror write — the address as
//! key, the description as value, and the expiry; [`create_commit`] appends
//! to the record store once the mirror write has been accepted. The caller
//! performs the mirror calls in between and hands the answers back, so the
//! record store is only ever touched after the mirror took the write, and
//! the stores can only diverge in the direction of the mirror holding an
//! address the record store lacks.
//!
//! A delete touches the record store alone: mirror entries are deliberately
//! left behind as an audit trail, so a later create of the same address is
//! refused until the mirror entry expires or is cleared by hand.
//!
//! The `*_after_create` spec functions model one whole create attempt as a
//! transition on both stores, with the mirror read as a map from live keys
//! to the values written for them; the proof functions at the end state
//! the laws of that transition.

use vstd::prelude::*;

use crate::ip::{addr_in, Ip};
use crate::record_store::{unique_addrs, RecordStore};

verus! {

/// Expiry, in seconds, given to mirror entries created with the expire
/// hint: 24 hours.
pub const EXPIRATION_IN_SECONDS: u64 = 86400;

/// The failure kinds a request can end in.
#[derive(Clone, Copy, Debug, PartialEq, Eq, Structural)]
pub enum ServiceError {
    /// Malformed input. The query layer clamps pagination into range
    /// instead of rejecting it, so the core itself never produces this
    /// kind; it is part of the error model for callers that reject.
    Validation,
    /// A create found the address already present in the mirror.
    Conflict,
    /// A delete found no record for the address.
    NotFound,
    /// A mirror call failed; the request is aborted, nothing was mutated.
    UpstreamUnavailable,
    /// An invariant violation, such as the stores disagreeing about an
    /// address the mirror reported absent.
    Internal,
}

/// The one mirror write a create performs: the request's address as the
/// key, its description as the value, and the expiry in seconds, if any.
pub struct MirrorWrite {
    pub key: String,
    pub value: String,
    pub ttl_seconds: Option<u64>,
}

/// Decide a create from the mirror's answer to `exists(address)`:
/// `None` means the check itself failed and the request is aborted without
/// touching either store. The mirror is the source of truth for
/// duplicates, so a positive answer refuses the request as a conflict even
/// when the record store does not list the address. A negative answer
/// yields the exact write the caller must hand to the mirror: the address
/// keyed to the description, expiring after 24 hours when the caller set
/// the expire hint and never otherwise.
pub fn create_plan(
    address: &String,
    description: &String,
    exists_reply: Option<bool>,
    expire: bool,
) -> (a: Result<MirrorWrite, ServiceError>)
    ensures
        exists_reply is None ==> (a matches Err(e) && e == ServiceError::UpstreamUnavailable),
        exists_reply == Some(true) ==> (a matches Err(e) && e == ServiceError::Conflict),
        exists_reply == Some(false) ==> (a matches Ok(w) && w.key@ == address@ && w.value@
            == description@ && w.ttl_seconds == (if expire {
            Some(EXPIRATION_IN_SECONDS)
        } else {
            None::<u64>
        })),
{
    match exists_reply {
        None => Err(ServiceError::UpstreamUnavailable),
        Some(true) => Err(ServiceError::Conflict),
        Some(false) => Ok(
            MirrorWrite {
                key: address.clone(),
                value: description.clone(),
                ttl_seconds: if expire {
                    Some(EXPIRATION_IN_SECONDS)
                } else {
                    None
                },
            },
        ),
    }
}

/// Law: the expiry a create with the expire hint stamps on its mirror
/// entry is positive and at most 24 hours, so the seconds left that the
/// mirror reports for the fresh entry start in that range and only count
/// down from there.
pub proof fn lemma_expire_ttl_in_range()
    ensures
        0 < EXPIRATION_IN_SECONDS <= 86400,
{
}

/// Append `record` to the record store after the mirror accepted the write.
/// Returns the record as stored. If the record store already lists the
/// address although the mirror reported it absent, the stores have
/// diverged: the request fails as internal and the store is left unchanged.
pub fn create_commit(store: &mut RecordStore, record: Ip) -> (r: Result<Ip, ServiceError>)
    requires
        old(store).wf(),
    ensures
        final(store).wf(),
        match r {
            Ok(ip) => !addr_in(old(store)@, record.ipv4@) && final(store)@ == old(store)@.push(
                record,
            ) && ip == record,
            Err(e) => e == ServiceError::Internal && addr_in(old(store)@, record.ipv4@)
                && final(store)@ == old(store)@,
        },
{
    let copy = record.clone();
    if store.append(record) {
        Ok(copy)
    } else {
        Err(ServiceError::Internal)
    }
}

/// Delete the record carrying `address` from the record store. The mirror
/// is left alone (see the module description). An absent address fails as
/// not found and changes nothing; a present one loses exactly its one
/// record, and the remaining records keep their order.
pub fn delete_ip(store: &mut RecordStore, address: &String) -> (r: Result<(), ServiceError>)
    requires
        old(store).wf(),
    ensures
        final(store).wf(),
        match r {
            Ok(u) => addr_in(old(store)@, address@) && final(store)@.len() + 1 == old(store)@.len()
                && !addr_in(final(store)@, address@) && (exists|i: int|
                0 <= i < old(store)@.len() && old(store)@[i].ipv4@ == address@ && final(store)@
                    == old(store)@.remove(i)),
            Err(e) => e == ServiceError::NotFound && !addr_in(old(store)@, address@)
                && final(store)@ == old(store)@,
        },
{
    if store.remove(address) {
        Ok(())
    } else {
        Err(ServiceError::NotFound)
    }
}

/// Whether one create attempt succeeds: the mirror (read as a map from
/// live keys to written values) must not hold the address, the mirror
/// write must be taken, and the record store must not list the address
/// either.
pub open spec fn create_succeeds(
    store: Seq<Ip>,
    mirror: Map<Seq<char>, Seq<char>>,
    rec: Ip,
    set_ok: bool,
) -> bool {
    !mirror.dom().contains(rec.ipv4@) && set_ok && !addr_in(store, rec.ipv4@)
}

/// The record store after one create attempt: it grows only on success.
pub open spec fn store_after_create(
    store: Seq<Ip>,
    mirror: Map<Seq<char>, Seq<char>>,
    rec: Ip,
    set_ok: bool,
) -> Seq<Ip> {
    if create_succeeds(store, mirror, rec, set_ok) {
        store.push(rec)
    } else {
        store
    }
}

/// The mirror after one create attempt: it gains the address, keyed to the
/// request's description, whenever the existence check passed and the
/// write was taken — even if the record store then refused the commit.
pub open spec fn mirror_after_create(
    store: Seq<Ip>,
    mirror: Map<Seq<char>, Seq<char>>,
    rec: Ip,
    set_ok: bool,
) -> Map<Seq<char>, Seq<char>> {
    if !mirror.dom().contains(rec.ipv4@) && set_ok {
        mirror.insert(rec.ipv4@, rec.desc@)
    } else {
        mirror
    }
}

/// One create attempt of a whole run: the record to create and whether the
/// mirror took the write.
pub struct CreateEvent {
    pub record: Ip,
    pub set_ok: bool,
}

/// Both stores after a run of create attempts, each seeing the stores the
/// previous one left behind.
pub open spec fn run_creates(
    store: Seq<Ip>,
    mirror: Map<Seq<char>, Seq<char>>,
    evs: Seq<CreateEvent>,
) -> (Seq<Ip>, Map<Seq<char>, Seq<char>>)
    decreases evs.len(),
{
    if evs.len() == 0 {
        (store, mirror)
    } else {
        let e = evs[0];
        run_creates(
            store_after_create(store, mirror, e.record, e.set_ok),
            mirror_after_create(store, mirror, e.record, e.set_ok),
            evs.drop_first(),
        )
    }
}

/// How many attempts of a run succeed.
pub open spec fn count_successes(
    store: Seq<Ip>,
    mirror: Map<Seq<char>, Seq<char>>,
    evs: Seq<CreateEvent>,
) -> nat
    decreases evs.len(),
{
    if evs.len() == 0 {
        0
    } else {
        let e = evs[0];
        (if create_succeeds(store, mirror, e.record, e.set_ok) {
            1nat
        } else {
            0nat
        }) + count_successes(
            store_after_create(store, mirror, e.record, e.set_ok),
            mirror_after_create(store, mirror, e.record, e.set_ok),
            evs.drop_first(),
        )
    }
}

/// Law: over any run of create attempts the record store grows by exactly
/// the number of successful creates — in particular, a run from an empty
/// store ends with as many records as there were successes.
pub proof fn lemma_creates_length(
    store: Seq<Ip>,
    mirror: Map<Seq<char>, Seq<char>>,
    evs: Seq<CreateEvent>,
)
    ensures
        run_creates(store, mirror, evs).0.len() == store.len() + count_successes(
            store,
            mirror,
            evs,
        ),
    decreases evs.len(),
{
    if evs.len() > 0 {
        let e = evs[0];
        lemma_creates_length(
            store_after_create(store, mirror, e.record, e.set_ok),
            mirror_after_create(store, mirror, e.record, e.set_ok),
            evs.drop_first(),
        );
    }
}

/// Law: a create for an address the mirror already holds cannot succeed
/// and leaves both stores exactly as they were.
pub proof fn lemma_create_conflict(
    store: Seq<Ip>,
    mirror: Map<Seq<char>, Seq<char>>,
    rec: Ip,
    set_ok: bool,
)
    requires
        mirror.dom().contains(rec.ipv4@),
    ensures
        !create_succeeds(store, mirror, rec, set_ok),
        store_after_create(store, mirror, rec, set_ok) == store,
        mirror_after_create(store, mirror, rec, set_ok) == mirror,
{
}

/// Law: a successful create leaves the address present in the record
/// store, and present in the mirror keyed to exactly the description the
/// request carried.
pub proof fn lemma_create_establishes_presence(
    store: Seq<Ip>,
    mirror: Map<Seq<char>, Seq<char>>,
    rec: Ip,
    set_ok: bool,
)
    requires
        create_succeeds(store, mirror, rec, set_ok),
    ensures
        addr_in(store_after_create(store, mirror, rec, set_ok), rec.ipv4@),
        mirror_after_create(store, mirror, rec, set_ok).dom().contains(rec.ipv4@),
        mirror_after_create(store, mirror, rec, set_ok)[rec.ipv4@] == rec.desc@,
{
    let s2 = store.push(rec);
    assert(s2[s2.len() - 1].ipv4@ == rec.ipv4@);
}

/// Law: a create attempt keeps the record store's addresses unique.
pub proof fn lemma_create_preserves_unique(
    store: Seq<Ip>,
    mirror: Map<Seq<char>, Seq<char>>,
    rec: Ip,
    set_ok: bool,
)
    requires
        unique_addrs(store),
    ensures
        unique_addrs(store_after_create(store, mirror, rec, set_ok)),
{
    if create_succeeds(store, mirror, rec, set_ok) {
        let s2 = store.push(rec);
        assert forall|i: int, j: int| 0 <= i < j < s2.len() implies s2[i].ipv4@ != s2[j].ipv4@ by {
            if j == s2.len() - 1 {
                assert(s2[i] == store[i]);
            }
        }
    }
}

/// Law: of two creates of the same address, serialized through the
/// mirror's exists-then-set sequence, exactly the first succeeds. The
/// first grows each store by one entry for the address; the second finds
/// the key in the mirror, is refused as a conflict, and leaves both stores
/// exactly as the first left them.
pub proof fn lemma_second_create_conflicts(
    store: Seq<Ip>,
    mirror: Map<Seq<char>, Seq<char>>,
    rec1: Ip,
    rec2: Ip,
    set_ok1: bool,
    set_ok2: bool,
)
    requires
        rec1.ipv4@ == rec2.ipv4@,
        create_succeeds(store, mirror, rec1, set_ok1),
    ensures
        store_after_create(store, mirror, rec1, set_ok1).len() == store.len() + 1,
        mirror_after_create(store, mirror, rec1, set_ok1).dom() =~= mirror.dom().insert(
            rec1.ipv4@,
        ),
        !create_succeeds(
            store_after_create(store, mirror, rec1, set_ok1),
            mirror_after_create(store, mirror, rec1, set_ok1),
            rec2,
            set_ok2,
        ),
        mirror_after_create(store, mirror, rec1, set_ok1).dom().contains(rec2.ipv4@),
        store_after_create(
            store_after_create(store, mirror, rec1, set_ok1),
            mirror_after_create(store, mirror, rec1, set_ok1),
            rec2,
            set_ok2,
        ) == store_after_create(store, mirror, rec1, set_ok1),
        mirror_after_create(
            store_after_create(store, mirror, rec1, set_ok1),
            mirror_after_create(store, mirror, rec1, set_ok1),
            rec2,
            set_ok2,
        ) == mirror_after_create(store, mirror, rec1, set_ok1),
{
}

} // verus!
