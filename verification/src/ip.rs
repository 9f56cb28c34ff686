//! The record type managed by the service, and the pagination options that
//! callers may pass when listing records.

use vstd::prelude::*;

verus! {

/// One IP record: an address in dotted-quad textual form (kept as given,
/// not validated for well-formedness) and a free-form description.
///
/// Within the record store the address is unique; the description can only
/// be changed by deleting the record and creating it again.
pub struct Ip {
    pub ipv4: String,
    pub desc: String,
}

impl Clone for Ip {
    fn clone(&self) -> (r: Self)
        ensures
            r == *self,
    {
        Ip { ipv4: self.ipv4.clone(), desc: self.desc.clone() }
    }
}

/// True when some record in `s` carries the address `a`.
pub open spec fn addr_in(s: Seq<Ip>, a: Seq<char>) -> bool {
    exists|i: int| 0 <= i < s.len() && s[i].ipv4@ == a
}

/// Optional pagination parameters as they arrive from a caller; `None`
/// means the caller left the field out and the default applies.
#[derive(Clone, Copy)]
pub struct QueryOptions {
    pub page: Option<usize>,
    pub limit: Option<usize>,
}

} // verus!
