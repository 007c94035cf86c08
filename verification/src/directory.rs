//! The port validator: checks a requested device name against one
//! snapshot of the port directory, by exact, case-sensitive match, and
//! reports an empty directory as its own outcome so a caller can give
//! the right guidance.

use vstd::prelude::*;
use crate::text::str_eq;

verus! {

/// `device` occurs among `names`, by exact, case-sensitive match.
pub open spec fn port_present(names: Seq<Seq<char>>, device: Seq<char>) -> bool {
    exists|i: int| 0 <= i < names.len() && names[i] == device
}

/// The names of a directory snapshot, as sequences of characters.
pub open spec fn names_view(names: Seq<String>) -> Seq<Seq<char>> {
    names.map_values(|s: String| s@)
}

/// What validating a device name against one directory snapshot found.
#[derive(PartialEq, Eq, Structural, Clone, Copy, Debug)]
pub enum ValidationOutcome {
    /// the snapshot is empty: nothing can match
    NoPorts,
    /// the device occurs in the snapshot
    Found,
    /// the snapshot is nonempty and the device is not in it
    NotFound,
}

/// Check one requested device name against a directory snapshot. The
/// outcome is `NoPorts` exactly on an empty snapshot, `Found` exactly
/// when the name occurs, and `NotFound` otherwise; an empty snapshot is
/// decided before any name is compared.
pub fn validate_com_port(names: &Vec<String>, device: &str) -> (r: ValidationOutcome)
    ensures
        r == ValidationOutcome::NoPorts <==> names@.len() == 0,
        r == ValidationOutcome::Found <==> port_present(names_view(names@), device@),
        r == ValidationOutcome::NotFound <==> (names@.len() > 0 && !port_present(
            names_view(names@),
            device@,
        )),
{
    if names.len() == 0 {
        return ValidationOutcome::NoPorts;
    }
    let mut i: usize = 0;
    while i < names.len()
        invariant
            0 < names@.len(),
            0 <= i <= names@.len(),
            forall|j: int| 0 <= j < i ==> names_view(names@)[j] != device@,
        decreases names@.len() - i,
    {
        if str_eq(names[i].as_str(), device) {
            proof {
                assert(names_view(names@)[i as int] == device@);
            }
            return ValidationOutcome::Found;
        }
        i += 1;
    }
    ValidationOutcome::NotFound
}

/// Validating against an empty directory can never succeed: no name is
/// present in an empty snapshot, whatever the device asked for.
pub proof fn lemma_empty_directory_rejects(device: Seq<char>)
    ensures
        !port_present(Seq::<Seq<char>>::empty(), device),
{
}

} // verus!
