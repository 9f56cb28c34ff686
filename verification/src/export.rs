//! The export layer: plain-text, semicolon-terminated snapshots.
//!
//! Two shapes are produced. The record-store-only export prints one line
//! `<address>;` per record, in insertion order. The cross-referenced export
//! prints one line `<key>;# <ttl_seconds>` per live mirror key, with a
//! trailing `;` sentinel closing the whole document; it lets an operator
//! compare what the mirror currently believes is live, with remaining
//! time-to-live, against the service's own list.
//!
//! This module also interprets the mirror's raw time-to-live replies. The
//! wire protocol answers a key's time-to-live with `-1` for a key without
//! expiry and a smaller negative number for an absent key; [`TtlReply`]
//! keeps that distinction, and [`ttl_display_seconds`] collapses both to 0
//! for interfaces that only want remaining seconds.

use vstd::prelude::*;
use vstd::string::StringExecFns;

use crate::ip::Ip;
use crate::reconcile::EXPIRATION_IN_SECONDS;
use crate::record_store::RecordStore;

verus! {

/// The digit character for one decimal digit value.
pub open spec fn digit_char(d: nat) -> char {
    if d == 0 {
        '0'
    } else if d == 1 {
        '1'
    } else if d == 2 {
        '2'
    } else if d == 3 {
        '3'
    } else if d == 4 {
        '4'
    } else if d == 5 {
        '5'
    } else if d == 6 {
        '6'
    } else if d == 7 {
        '7'
    } else if d == 8 {
        '8'
    } else {
        '9'
    }
}

/// The usual decimal rendering of `n`: most significant digit first, no
/// leading zeroes except for `n == 0` itself.
pub open spec fn dec_of(n: nat) -> Seq<char>
    decreases n,
{
    if n < 10 {
        seq![digit_char(n)]
    } else {
        dec_of(n / 10).push(digit_char(n % 10))
    }
}

/// The one-character string for a decimal digit value.
fn digit_str(d: u64) -> (r: &'static str)
    requires
        d < 10,
    ensures
        r@ == seq![digit_char(d as nat)],
{
    proof {
        reveal_strlit("0");
        reveal_strlit("1");
        reveal_strlit("2");
        reveal_strlit("3");
        reveal_strlit("4");
        reveal_strlit("5");
        reveal_strlit("6");
        reveal_strlit("7");
        reveal_strlit("8");
        reveal_strlit("9");
        assert("0"@ =~= seq!['0']);
        assert("1"@ =~= seq!['1']);
        assert("2"@ =~= seq!['2']);
        assert("3"@ =~= seq!['3']);
        assert("4"@ =~= seq!['4']);
        assert("5"@ =~= seq!['5']);
        assert("6"@ =~= seq!['6']);
        assert("7"@ =~= seq!['7']);
        assert("8"@ =~= seq!['8']);
        assert("9"@ =~= seq!['9']);
    }
    match d {
        0 => "0",
        1 => "1",
        2 => "2",
        3 => "3",
        4 => "4",
        5 => "5",
        6 => "6",
        7 => "7",
        8 => "8",
        _ => "9",
    }
}

/// Render `n` in decimal.
pub fn u64_to_string(n: u64) -> (s: String)
    ensures
        s@ == dec_of(n as nat),
    decreases n,
{
    if n < 10 {
        String::from_str(digit_str(n))
    } else {
        let mut s = u64_to_string(n / 10);
        s.append(digit_str(n % 10));
        proof {
            assert(s@ =~= dec_of(n as nat));
        }
        s
    }
}

/// A key's time-to-live state in the mirror, keeping apart the two cases
/// the wire protocol reports with negative sentinels.
pub enum TtlReply {
    /// The key is live and expires in this many seconds.
    Remaining(u64),
    /// The key is live and has no expiry set.
    NoExpiry,
    /// The mirror does not hold the key.
    Absent,
}

/// How a raw time-to-live answer reads: `-1` means no expiry, any other
/// negative number means the key is absent, and a non-negative number is
/// the remaining seconds.
pub open spec fn ttl_reply_of(raw: i64) -> TtlReply {
    if raw == -1 {
        TtlReply::NoExpiry
    } else if raw < 0 {
        TtlReply::Absent
    } else {
        TtlReply::Remaining(raw as u64)
    }
}

/// Interpret the mirror's raw time-to-live answer.
pub fn classify_ttl(raw: i64) -> (t: TtlReply)
    ensures
        t == ttl_reply_of(raw),
{
    if raw == -1 {
        TtlReply::NoExpiry
    } else if raw < 0 {
        TtlReply::Absent
    } else {
        TtlReply::Remaining(raw as u64)
    }
}

/// The seconds a caller is shown for a time-to-live state: a key without
/// expiry and an absent key both read as 0; callers that need to tell
/// those apart ask the mirror about existence first.
pub open spec fn displayed_seconds(t: TtlReply) -> u64 {
    match t {
        TtlReply::Remaining(s) => s,
        TtlReply::NoExpiry => 0,
        TtlReply::Absent => 0,
    }
}

/// Law: a raw time-to-live answer in the range a fresh 24-hour stamp can
/// yield — above 0 and at most [`EXPIRATION_IN_SECONDS`] — is displayed
/// unchanged, so the seconds shown for such a key lie in that range too.
pub proof fn lemma_fresh_stamp_ttl_displayed(raw: i64)
    requires
        0 < raw <= EXPIRATION_IN_SECONDS,
    ensures
        displayed_seconds(ttl_reply_of(raw)) == raw,
        0 < displayed_seconds(ttl_reply_of(raw)) <= EXPIRATION_IN_SECONDS,
{
}

/// Collapse a time-to-live state to the seconds shown to callers.
pub fn ttl_display_seconds(t: &TtlReply) -> (s: u64)
    ensures
        s == displayed_seconds(*t),
{
    match t {
        TtlReply::Remaining(s) => *s,
        TtlReply::NoExpiry => 0,
        TtlReply::Absent => 0,
    }
}

/// One line of the cross-referenced export: a live mirror key and the
/// seconds left before it expires (0 for none).
pub struct MirrorEntry {
    pub key: String,
    pub ttl_seconds: u64,
}

/// One line of the cross-referenced export.
pub open spec fn mirror_line(key: Seq<char>, ttl: nat) -> Seq<char> {
    key + ";# "@ + dec_of(ttl)
}

/// The cross-referenced lines joined with newlines, without the trailing
/// sentinel.
pub open spec fn mirror_lines(entries: Seq<MirrorEntry>) -> Seq<char>
    decreases entries.len(),
{
    if entries.len() == 0 {
        Seq::<char>::empty()
    } else {
        mirror_lines(entries.drop_last()) + (if entries.len() == 1 {
            Seq::<char>::empty()
        } else {
            "\n"@
        }) + mirror_line(entries.last().key@, entries.last().ttl_seconds as nat)
    }
}

/// The whole cross-referenced document: the lines, then the `;` sentinel.
pub open spec fn mirror_document(entries: Seq<MirrorEntry>) -> Seq<char> {
    mirror_lines(entries) + ";"@
}

/// Render the cross-referenced export from the mirror's live keys and
/// their remaining time-to-live, in the order given.
pub fn render_mirror_export(entries: &Vec<MirrorEntry>) -> (s: String)
    ensures
        s@ == mirror_document(entries@),
{
    let mut acc = String::new();
    let n = entries.len();
    let mut i: usize = 0;
    while i < n
        invariant
            i <= n,
            n == entries@.len(),
            acc@ == mirror_lines(entries@.subrange(0, i as int)),
        decreases n - i,
    {
        if i > 0 {
            acc.append("\n");
        }
        acc.append(entries[i].key.as_str());
        acc.append(";# ");
        let ttl = u64_to_string(entries[i].ttl_seconds);
        acc.append(ttl.as_str());
        proof {
            let sub = entries@.subrange(0, i + 1);
            assert(sub.drop_last() =~= entries@.subrange(0, i as int));
            assert(sub.last() == entries@[i as int]);
            assert(acc@ =~= mirror_lines(sub));
        }
        i += 1;
    }
    proof {
        assert(entries@.subrange(0, n as int) =~= entries@);
    }
    acc.append(";");
    proof {
        assert(acc@ =~= mirror_document(entries@));
    }
    acc
}

/// The record-store-only document: one line `<address>;` per record, in
/// insertion order, joined with newlines.
pub open spec fn records_document(s: Seq<Ip>) -> Seq<char>
    decreases s.len(),
{
    if s.len() == 0 {
        Seq::<char>::empty()
    } else {
        records_document(s.drop_last()) + (if s.len() == 1 {
            Seq::<char>::empty()
        } else {
            "\n"@
        }) + s.last().ipv4@ + ";"@
    }
}

/// Render the record-store-only export.
pub fn render_records_export(store: &RecordStore) -> (s: String)
    ensures
        s@ == records_document(store@),
{
    let mut acc = String::new();
    let n = store.len();
    let mut i: usize = 0;
    while i < n
        invariant
            i <= n,
            n == store@.len(),
            acc@ == records_document(store@.subrange(0, i as int)),
        decreases n - i,
    {
        if i > 0 {
            acc.append("\n");
        }
        acc.append(store.get(i).ipv4.as_str());
        acc.append(";");
        proof {
            let sub = store@.subrange(0, i + 1);
            assert(sub.drop_last() =~= store@.subrange(0, i as int));
            assert(sub.last() == store@[i as int]);
            assert(acc@ =~= records_document(sub));
        }
        i += 1;
    }
    proof {
        assert(store@.subrange(0, n as int) =~= store@);
    }
    acc
}

} // verus!
