//! The filtering logic.

use crate::schema::manifest::{AsPackage, Package};
use vstd::prelude::*;

verus! {

/// Filter params.
pub struct Params {
    /// Platform.
    pub platform: String,
    /// Architecture.
    pub arch: String,
}

impl Params {
    /// Whether `package` is built for the platform and the architecture of
    /// the params.
    pub open spec fn accepts(&self, package: Package) -> bool {
        package.platform.0@ == self.platform@ && package.arch.0@ == self.arch@
    }

    /// The predicate by which `filter` keeps an item.
    pub open spec fn keeps<T: AsPackage>(&self) -> spec_fn(T) -> bool {
        |item: T| self.accepts(item.package_of())
    }

    /// Check if the package matches the filter.
    pub fn matches<T: AsPackage>(&self, item: &T) -> (b: bool)
        ensures
            b == self.accepts(item.package_of()),
    {
        let package = item.package();
        package.platform.0 == self.platform && package.arch.0 == self.arch
    }

    /// Filter the input packages with the filtering params.
    ///
    /// The items that match are handed back in the order in which they came.
    pub fn filter<T: AsPackage>(&self, items: Vec<T>) -> (kept: Vec<T>)
        ensures
            kept@ == items@.filter(self.keeps::<T>()),
    {
        let mut kept: Vec<T> = Vec::new();
        let ghost mut seen: int = 0;
        proof {
            reveal(Seq::filter);
            assert(items@.take(0).len() == 0);
        }
        for item in iter: items
            invariant
                seen == iter.index(),
                iter.seq() == items@,
                kept@ == items@.take(seen).filter(self.keeps::<T>()),
        {
            proof {
                reveal(Seq::filter);
                assert(items@.take(seen + 1).drop_last() == items@.take(seen));
                assert(items@.take(seen + 1).last() == item);
                seen = seen + 1;
            }
            if self.matches(&item) {
                kept.push(item);
            }
        }
        proof {
            assert(items@.take(seen) == items@);
        }
        kept
    }
}

} // verus!
