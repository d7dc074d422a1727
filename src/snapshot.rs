//! Version snapshots and the counter that decides whether a title changed.

use vstd::prelude::*;
use crate::decimal::{digits_value, is_u64_text, parse_u64, unsigned_digits};

verus! {

/// The per-branch build data of a snapshot: the build identifier of the
/// "public" branch, where the snapshot has that branch.
#[derive(Debug, PartialEq, Eq)]
pub struct Depots {
    pub public_build_id: Option<String>,
}

/// One observation of a title's version state.
#[derive(Debug, PartialEq, Eq)]
pub struct VersionSnapshot {
    pub change_number: u64,
    pub public_only: Option<String>,
    pub depots: Option<Depots>,
}

/// The text denotes the number `n`, as `str::parse::<u64>` reads it.
pub open spec fn text_is_number(s: Seq<char>, n: nat) -> bool {
    is_u64_text(s) && digits_value(unsigned_digits(s)) == n
}

/// The snapshot marks itself public-only: its `public_only` flag reads as 1.
pub open spec fn marks_public_only(s: &VersionSnapshot) -> bool {
    match s.public_only {
        Some(p) => text_is_number(p@, 1),
        None => false,
    }
}

/// The counter a snapshot yields, or `None` where it can be resolved from
/// neither the change number nor the public branch's build.
pub open spec fn snapshot_counter(s: &VersionSnapshot) -> Option<u64> {
    if marks_public_only(s) {
        Some(s.change_number)
    } else {
        match s.depots {
            Some(d) => match d.public_build_id {
                Some(b) => if is_u64_text(b@) {
                    Some(digits_value(unsigned_digits(b@)) as u64)
                } else {
                    None
                },
                None => None,
            },
            None => None,
        }
    }
}

/// The counter used for change detection: an unresolved snapshot counts as 0.
pub open spec fn counter_or_zero(s: &VersionSnapshot) -> u64 {
    match snapshot_counter(s) {
        Some(c) => c,
        None => 0,
    }
}

impl VersionSnapshot {
    /// Picks the counter of this snapshot: the change number when it is
    /// public-only, else the public branch's build identifier.
    pub fn counter(&self) -> (r: Option<u64>)
        ensures
            r == snapshot_counter(self),
    {
        let public_only = match &self.public_only {
            Some(p) => match parse_u64(p.as_str()) {
                Some(v) => v == 1,
                None => false,
            },
            None => false,
        };
        if public_only {
            return Some(self.change_number);
        }
        match &self.depots {
            Some(d) => match &d.public_build_id {
                Some(b) => parse_u64(b.as_str()),
                None => None,
            },
            None => None,
        }
    }

    /// The counter used for change detection; 0 when it cannot be resolved.
    pub fn counter_or_zero(&self) -> (r: u64)
        ensures
            r == counter_or_zero(self),
    {
        match self.counter() {
            Some(c) => c,
            None => 0,
        }
    }
}

} // verus!
