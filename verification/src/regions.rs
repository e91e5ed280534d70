//! Search keys over disjoint memory regions.
//!
//! A map of regions is searched either for the region equal to a given range
//! or for the region containing a single address; a key therefore compares
//! equal to every region that contains it.

use vstd::prelude::*;

use core::cmp::Ordering;
use core::ops::Range;

verus! {

/// Either a whole region or a single address to locate within one.
pub enum MemoryRegionSearchKey {
    Region(Range<u64>),
    Key(u64),
}

/// The ordering of two search keys: regions order by start then end, an
/// address orders against a region as below it, inside it (equal), or above
/// it, and two addresses order numerically.
pub open spec fn region_key_cmp(a: MemoryRegionSearchKey, b: MemoryRegionSearchKey) -> Ordering {
    match a {
        MemoryRegionSearchKey::Region(ra) => match b {
            MemoryRegionSearchKey::Region(rb) => {
                if ra.start < rb.start {
                    Ordering::Less
                } else if ra.start > rb.start {
                    Ordering::Greater
                } else if ra.end < rb.end {
                    Ordering::Less
                } else if ra.end > rb.end {
                    Ordering::Greater
                } else {
                    Ordering::Equal
                }
            },
            MemoryRegionSearchKey::Key(k) => {
                if ra.start > k {
                    Ordering::Greater
                } else if ra.end <= k {
                    Ordering::Less
                } else {
                    Ordering::Equal
                }
            },
        },
        MemoryRegionSearchKey::Key(k) => match b {
            MemoryRegionSearchKey::Region(rb) => {
                if rb.start > k {
                    Ordering::Less
                } else if rb.end <= k {
                    Ordering::Greater
                } else {
                    Ordering::Equal
                }
            },
            MemoryRegionSearchKey::Key(k2) => {
                if k < k2 {
                    Ordering::Less
                } else if k > k2 {
                    Ordering::Greater
                } else {
                    Ordering::Equal
                }
            },
        },
    }
}

impl PartialEq for MemoryRegionSearchKey {
    fn eq(&self, other: &MemoryRegionSearchKey) -> (r: bool) {
        match self.compare(other) {
            Ordering::Equal => true,
            _ => false,
        }
    }
}

impl vstd::std_specs::cmp::PartialEqSpecImpl for MemoryRegionSearchKey {
    open spec fn obeys_eq_spec() -> bool {
        true
    }

    open spec fn eq_spec(&self, other: &MemoryRegionSearchKey) -> bool {
        region_key_cmp(*self, *other) == Ordering::Equal
    }
}

impl PartialOrd for MemoryRegionSearchKey {
    fn partial_cmp(&self, other: &MemoryRegionSearchKey) -> (r: Option<Ordering>) {
        Option::Some(self.compare(other))
    }
}

impl vstd::std_specs::cmp::PartialOrdSpecImpl for MemoryRegionSearchKey {
    open spec fn obeys_partial_cmp_spec() -> bool {
        true
    }

    open spec fn partial_cmp_spec(&self, other: &MemoryRegionSearchKey) -> Option<Ordering> {
        Option::Some(region_key_cmp(*self, *other))
    }
}

impl MemoryRegionSearchKey {
    /// Compares two search keys under the region-containment ordering.
    pub fn compare(&self, other: &MemoryRegionSearchKey) -> (r: Ordering)
        ensures
            r == region_key_cmp(*self, *other),
    {
        match self {
            MemoryRegionSearchKey::Region(ra) => match other {
                MemoryRegionSearchKey::Region(rb) => {
                    if ra.start < rb.start {
                        Ordering::Less
                    } else if ra.start > rb.start {
                        Ordering::Greater
                    } else if ra.end < rb.end {
                        Ordering::Less
                    } else if ra.end > rb.end {
                        Ordering::Greater
                    } else {
                        Ordering::Equal
                    }
                },
                MemoryRegionSearchKey::Key(k) => {
                    if ra.start > *k {
                        Ordering::Greater
                    } else if ra.end <= *k {
                        Ordering::Less
                    } else {
                        Ordering::Equal
                    }
                },
            },
            MemoryRegionSearchKey::Key(k) => match other {
                MemoryRegionSearchKey::Region(rb) => {
                    if rb.start > *k {
                        Ordering::Less
                    } else if rb.end <= *k {
                        Ordering::Greater
                    } else {
                        Ordering::Equal
                    }
                },
                MemoryRegionSearchKey::Key(k2) => {
                    if *k < *k2 {
                        Ordering::Less
                    } else if *k > *k2 {
                        Ordering::Greater
                    } else {
                        Ordering::Equal
                    }
                },
            },
        }
    }
}

} // verus!
