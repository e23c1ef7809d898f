use vstd::prelude::*;
use std::cmp::Ordering;
use crate::middleware::{priority_value, MiddlewareWrapper};

verus! {

/// How two wrapped middlewares compare: by priority, higher first.
pub open spec fn wrapper_order(a: u32, b: u32) -> Ordering {
    if a > b {
        Ordering::Less
    } else if a == b {
        Ordering::Equal
    } else {
        Ordering::Greater
    }
}

impl<M> PartialEq for MiddlewareWrapper<M> {
    /// Wrapped middlewares are equal when they have the same priority.
    fn eq(&self, other: &Self) -> (r: bool) {
        self.priority.value() == other.priority.value()
    }
}

impl<M> Eq for MiddlewareWrapper<M> {}

impl<M> vstd::std_specs::cmp::PartialEqSpecImpl for MiddlewareWrapper<M> {
    open spec fn obeys_eq_spec() -> bool {
        true
    }

    open spec fn eq_spec(&self, other: &Self) -> bool {
        priority_value(self.priority) == priority_value(other.priority)
    }
}

impl<M> PartialOrd for MiddlewareWrapper<M> {
    /// Higher priority comes first.
    fn partial_cmp(&self, other: &Self) -> (r: Option<Ordering>) {
        let a = self.priority.value();
        let b = other.priority.value();
        if a > b {
            Some(Ordering::Less)
        } else if a == b {
            Some(Ordering::Equal)
        } else {
            Some(Ordering::Greater)
        }
    }
}

impl<M> vstd::std_specs::cmp::PartialOrdSpecImpl for MiddlewareWrapper<M> {
    open spec fn obeys_partial_cmp_spec() -> bool {
        true
    }

    open spec fn partial_cmp_spec(&self, other: &Self) -> Option<Ordering> {
        Some(wrapper_order(priority_value(self.priority), priority_value(other.priority)))
    }
}

} // verus!
