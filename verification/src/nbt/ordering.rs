//! `PartialOrd` for tags and compounds, by the order of `order`.
use vstd::prelude::*;
use std::cmp::Ordering;
use vstd::std_specs::cmp::PartialOrdSpecImpl;
use crate::nbt::compound::NbtCompound;
use crate::nbt::order::{compound_order_of, entries_order, tag_order, tag_order_of};
use crate::nbt::tag::{entries_model, tag_model, NbtTag};

verus! {

/// The `Ordering` that -1, 0 or 1 stands for.
pub open spec fn ordering_of(c: int) -> Ordering {
    if c < 0 {
        Ordering::Less
    } else if c > 0 {
        Ordering::Greater
    } else {
        Ordering::Equal
    }
}

fn to_ordering(c: i8) -> (r: Ordering)
    ensures
        c < 0 ==> r == Ordering::Less,
        c > 0 ==> r == Ordering::Greater,
        c == 0 ==> r == Ordering::Equal,
{
    if c < 0 {
        Ordering::Less
    } else if c > 0 {
        Ordering::Greater
    } else {
        Ordering::Equal
    }
}

impl PartialOrd for NbtTag {
    fn partial_cmp(&self, other: &Self) -> (r: Option<Ordering>) {
        Some(to_ordering(tag_order_of(self, other)))
    }
}

impl PartialOrdSpecImpl for NbtTag {
    open spec fn obeys_partial_cmp_spec() -> bool {
        true
    }

    open spec fn partial_cmp_spec(&self, other: &Self) -> Option<Ordering> {
        Some(ordering_of(tag_order(tag_model(*self), tag_model(*other))))
    }
}

impl PartialOrd for NbtCompound {
    fn partial_cmp(&self, other: &Self) -> (r: Option<Ordering>) {
        Some(to_ordering(compound_order_of(self, other)))
    }
}

impl PartialOrdSpecImpl for NbtCompound {
    open spec fn obeys_partial_cmp_spec() -> bool {
        true
    }

    open spec fn partial_cmp_spec(&self, other: &Self) -> Option<Ordering> {
        Some(
            ordering_of(entries_order(entries_model(self.child_tags@), entries_model(other.child_tags@))),
        )
    }
}

} // verus!
