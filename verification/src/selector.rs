//! Package selector.

use crate::schema::manifest::AsPackage;
use vstd::prelude::*;

verus! {

/// Package selector that reduces a list of packages to exactly one.
pub struct Selector {
    /// The package display name, optional.
    pub package_display_name: Option<String>,
}

/// An error that can occur during the selection.
#[derive(Debug, Clone, Copy, PartialEq, Eq, Structural)]
pub enum SelectionError {
    /// There are no packages to select from.
    NoPackages,
    /// A more specific selector is required to narrow the choice.
    NotSpecificEnough,
    /// The selector filtered out all the packages without landing on one.
    NotFound,
}

impl SelectionError {
    /// The text of the message that describes the error.
    pub open spec fn text(self) -> Seq<char> {
        match self {
            SelectionError::NoPackages => "no packages are available"@,
            SelectionError::NotSpecificEnough =>
                "more than one package is available, use a selector to specify which one you want"@,
            SelectionError::NotFound => "unable to find the requested package"@,
        }
    }

    /// Describes the error to the operator.
    pub fn to_string(&self) -> (r: String)
        ensures
            r@ == self.text(),
    {
        match self {
            SelectionError::NoPackages => "no packages are available".to_owned(),
            SelectionError::NotSpecificEnough =>
                "more than one package is available, use a selector to specify which one you want".to_owned(),
            SelectionError::NotFound => "unable to find the requested package".to_owned(),
        }
    }
}

/// Whether the package at `index` is displayed under `name`.
pub open spec fn is_named<T: AsPackage>(packages: Seq<T>, index: int, name: Seq<char>) -> bool {
    packages[index].package_of().display_name@ == name
}

/// The index of the first package at or after `from` that is displayed under
/// `name`, or the length of `packages` where there is none.
pub open spec fn first_named<T: AsPackage>(packages: Seq<T>, name: Seq<char>, from: int) -> int
    decreases packages.len() - from,
{
    if from < 0 || from >= packages.len() {
        packages.len() as int
    } else if is_named(packages, from, name) {
        from
    } else {
        first_named(packages, name, from + 1)
    }
}

impl Selector {
    /// What the selector makes of `packages`.
    pub open spec fn selected<T: AsPackage>(&self, packages: Seq<T>) -> Result<T, SelectionError> {
        if packages.len() == 0 {
            Err(SelectionError::NoPackages)
        } else {
            match self.package_display_name {
                Some(name) => {
                    let index = first_named(packages, name@, 0);
                    if index < packages.len() {
                        Ok(packages[index])
                    } else {
                        Err(SelectionError::NotFound)
                    }
                },
                None => if packages.len() == 1 {
                    Ok(packages[0])
                } else {
                    Err(SelectionError::NotSpecificEnough)
                },
            }
        }
    }

    /// Select a package from the list.
    ///
    /// An empty list has nothing to select. With a display name, the first
    /// package of that name is selected, in the order of the list. Without
    /// one, the only package of the list is selected, and a longer list is
    /// ambiguous.
    pub fn select<T: AsPackage>(&self, packages: Vec<T>) -> (r: Result<T, SelectionError>)
        ensures
            r == self.selected(packages@),
    {
        let mut rest = packages;
        let count = rest.len();
        if count == 0 {
            return Err(SelectionError::NoPackages);
        }
        match &self.package_display_name {
            None => {
                if count > 1 {
                    Err(SelectionError::NotSpecificEnough)
                } else {
                    let last = rest.pop();
                    match last {
                        Some(only) => Ok(only),
                        None => Err(SelectionError::NoPackages),
                    }
                }
            },
            Some(name) => {
                let mut index: usize = 0;
                while index < count
                    invariant
                        index <= count,
                        0 < count == packages@.len(),
                        rest@ == packages@,
                        self.package_display_name == Some(*name),
                        first_named(packages@, name@, 0) == first_named(
                            packages@,
                            name@,
                            index as int,
                        ),
                    decreases count - index,
                {
                    if rest[index].package().display_name == *name {
                        assert(is_named(packages@, index as int, name@));
                        return Ok(rest.remove(index));
                    }
                    assert(!is_named(packages@, index as int, name@));
                    index += 1;
                }
                Err(SelectionError::NotFound)
            },
        }
    }
}

/// A list of exactly one package selects that package when no name is asked
/// for.
pub proof fn lemma_single_package_is_default<T: AsPackage>(selector: Selector, packages: Seq<T>)
    requires
        selector.package_display_name is None,
        packages.len() == 1,
    ensures
        selector.selected(packages) == Ok::<T, SelectionError>(packages[0]),
{
}

/// A list of two or more packages is ambiguous when no name is asked for.
pub proof fn lemma_several_packages_need_a_name<T: AsPackage>(selector: Selector, packages: Seq<T>)
    requires
        selector.package_display_name is None,
        packages.len() >= 2,
    ensures
        selector.selected(packages) == Err::<T, SelectionError>(SelectionError::NotSpecificEnough),
{
}

/// The scan for a name stops at the first package of that name and at no
/// other: every earlier package is named otherwise.
pub proof fn lemma_first_named<T: AsPackage>(packages: Seq<T>, name: Seq<char>, from: int)
    requires
        0 <= from <= packages.len(),
    ensures
        from <= first_named(packages, name, from) <= packages.len(),
        first_named(packages, name, from) < packages.len() ==> is_named(
            packages,
            first_named(packages, name, from),
            name,
        ),
        forall|i: int| from <= i < first_named(packages, name, from) ==> !is_named(packages, i, name),
    decreases packages.len() - from,
{
    if from < packages.len() && !is_named(packages, from, name) {
        lemma_first_named(packages, name, from + 1);
    }
}

/// A package whose display name is asked for is selected wherever it stands
/// in the list, as long as no other package of the list shares the name.
pub proof fn lemma_named_package_is_selected<T: AsPackage>(
    selector: Selector,
    packages: Seq<T>,
    index: int,
)
    requires
        selector.package_display_name is Some,
        0 <= index < packages.len(),
        is_named(packages, index, selector.package_display_name->0@),
        forall|i: int|
            0 <= i < packages.len() && i != index ==> !is_named(
                packages,
                i,
                selector.package_display_name->0@,
            ),
    ensures
        selector.selected(packages) == Ok::<T, SelectionError>(packages[index]),
{
    lemma_first_named(packages, selector.package_display_name->0@, 0);
}

/// A name that no package of a non-empty list is displayed under is not
/// found.
pub proof fn lemma_unknown_name_is_not_found<T: AsPackage>(selector: Selector, packages: Seq<T>)
    requires
        selector.package_display_name is Some,
        packages.len() > 0,
        forall|i: int|
            0 <= i < packages.len() ==> !is_named(packages, i, selector.package_display_name->0@),
    ensures
        selector.selected(packages) == Err::<T, SelectionError>(SelectionError::NotFound),
{
    lemma_first_named(packages, selector.package_display_name->0@, 0);
}

} // verus!
