//! Structural checks on the attribute arrays of a sequence collection.
use vstd::prelude::*;
use crate::engine::{opt_lengths, opt_string_views, string_views};

verus! {

/// Why no digest object was produced.
#[derive(Clone, Copy, Debug, PartialEq, Eq, Structural)]
pub enum DigestError {
    /// The collection is malformed: a primary array is missing, arrays
    /// disagree in length, or a name occurs twice.
    FormatError,
    /// The request needs an attribute that the collection cannot offer.
    ConfigurationError,
    /// An alignment header carried nothing to build a collection from.
    EmptyHeader,
    /// The digest engine refused a request that passed every check; the
    /// checks before each engine call rule this out.
    EngineError,
}

/// No name occurs twice.
pub open spec fn names_unique(names: Seq<Seq<char>>) -> bool {
    forall|a: int, b: int| 0 <= a < b < names.len() ==> names[a] != names[b]
}

/// The primary arrays of a well-formed collection: `names` and `lengths` are
/// present, of one length, the names are unique, and `sequences`, where
/// present, has one entry per record.
pub open spec fn well_formed(
    names: Option<Seq<Seq<char>>>,
    lengths: Option<Seq<usize>>,
    sequences: Option<Seq<Seq<char>>>,
) -> bool {
    &&& names is Some
    &&& lengths is Some
    &&& names->0.len() == lengths->0.len()
    &&& names_unique(names->0)
    &&& sequences is Some ==> sequences->0.len() == names->0.len()
}

/// Whether the names of a list are pairwise distinct.
pub fn names_are_unique(names: &Vec<String>) -> (r: bool)
    ensures
        r == names_unique(string_views(names@)),
{
    let ghost views = string_views(names@);
    let n = names.len();
    let mut i: usize = 0;
    while i < n
        invariant
            n == names.len(),
            i <= n,
            views == string_views(names@),
            forall|a: int, b: int| 0 <= a < b < n && a < i ==> views[a] != views[b],
        decreases n - i,
    {
        let mut j: usize = i + 1;
        while j < n
            invariant
                n == names.len(),
                i < n,
                i < j <= n,
                views == string_views(names@),
                forall|a: int, b: int| 0 <= a < b < n && a < i ==> views[a] != views[b],
                forall|b: int| i < b < j ==> views[i as int] != views[b],
            decreases n - j,
        {
            if names[i] == names[j] {
                assert(views[i as int] == views[j as int]);
                return false;
            }
            j = j + 1;
        }
        i = i + 1;
    }
    true
}

/// Checks the primary arrays of a collection; fails with `FormatError`
/// exactly when they are not well formed.
pub fn check_collection(
    names: &Option<Vec<String>>,
    lengths: &Option<Vec<usize>>,
    sequences: &Option<Vec<String>>,
) -> (r: Result<(), DigestError>)
    ensures
        r is Ok <==> well_formed(
            opt_string_views(*names),
            opt_lengths(*lengths),
            opt_string_views(*sequences),
        ),
        r is Err ==> r == Err::<(), DigestError>(DigestError::FormatError),
{
    match (names, lengths) {
        (Some(ns), Some(ls)) => {
            if ns.len() != ls.len() || !names_are_unique(ns) {
                return Err(DigestError::FormatError);
            }
            match sequences {
                Some(sq) => {
                    if sq.len() != ns.len() {
                        return Err(DigestError::FormatError);
                    }
                },
                None => {},
            }
            Ok(())
        },
        _ => Err(DigestError::FormatError),
    }
}

} // verus!
