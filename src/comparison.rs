use vstd::prelude::*;

use crate::view_error::{CompareOp, ViewError};

verus! {

/// Anything that can be walked by position and compared against a view: it has
/// a length, and each of its positions either holds a value that reads as an
/// element of type `T`, or one that cannot be read as such.
pub trait SequenceSource<T: View> {
    /// Position by position, the value read there (`None`: not readable as `T`).
    spec fn items(&self) -> Seq<Option<T::V>>;

    fn length(&self) -> (r: usize)
        ensures
            r == self.items().len(),
    ;

    fn item(&self, i: usize) -> (r: Option<T>)
        requires
            i < self.items().len(),
        ensures
            match r {
                Some(x) => self.items()[i as int] == Some(x@),
                None => self.items()[i as int] is None,
            },
    ;
}

/// Walks `mine` and `theirs` in lock step from position `i`: stops with
/// `TypeMismatch` at an unreadable position, with `false` at the first value
/// that differs, and gives `true` when the end is reached.
pub open spec fn compare_from<A>(mine: Seq<A>, theirs: Seq<Option<A>>, i: int) -> Result<
    bool,
    ViewError,
>
    decreases mine.len() - i,
{
    if i < 0 || i >= mine.len() {
        Ok(true)
    } else {
        match theirs[i] {
            None => Err(ViewError::TypeMismatch(i as usize)),
            Some(x) => if x == mine[i] {
                compare_from(mine, theirs, i + 1)
            } else {
                Ok(false)
            },
        }
    }
}

/// The outcome of testing `mine` for equality against `theirs`: unequal lengths
/// give `false`, otherwise the lock-step walk from position 0 decides.
pub open spec fn equals_outcome<A>(mine: Seq<A>, theirs: Seq<Option<A>>) -> Result<
    bool,
    ViewError,
> {
    if mine.len() != theirs.len() {
        Ok(false)
    } else {
        compare_from(mine, theirs, 0)
    }
}

/// The outcome of applying `op` to a view holding `mine` and to `theirs`:
/// `!=` negates the equality test and passes its error on unchanged, and the
/// ordering operators are not supported.
pub open spec fn richcmp_outcome<A>(mine: Seq<A>, theirs: Seq<Option<A>>, op: CompareOp) -> Result<
    bool,
    ViewError,
> {
    match op {
        CompareOp::Eq => equals_outcome(mine, theirs),
        CompareOp::Ne => match equals_outcome(mine, theirs) {
            Ok(b) => Ok(!b),
            Err(e) => Err(e),
        },
        _ => Err(ViewError::NotImplemented),
    }
}

/// Every element of `s`, each read successfully.
pub open spec fn all_readable<A>(s: Seq<A>) -> Seq<Option<A>> {
    s.map_values(|x: A| Some(x))
}

proof fn lemma_compare_from_all_readable<A>(s: Seq<A>, i: int)
    requires
        0 <= i <= s.len(),
    ensures
        compare_from(s, all_readable(s), i) == Ok::<bool, ViewError>(true),
    decreases s.len() - i,
{
    if i < s.len() {
        lemma_compare_from_all_readable(s, i + 1);
    }
}

/// A sequence compared with the same elements, all readable, is equal to them.
pub proof fn lemma_equals_same_elements<A>(s: Seq<A>)
    ensures
        equals_outcome(s, all_readable(s)) == Ok::<bool, ViewError>(true),
{
    lemma_compare_from_all_readable(s, 0);
}

/// Comparing with a sequence of another length gives `false` for `==` and
/// `true` for `!=`, never an error.
pub proof fn lemma_length_mismatch_is_unequal<A>(mine: Seq<A>, theirs: Seq<Option<A>>)
    requires
        mine.len() != theirs.len(),
    ensures
        richcmp_outcome(mine, theirs, CompareOp::Eq) == Ok::<bool, ViewError>(false),
        richcmp_outcome(mine, theirs, CompareOp::Ne) == Ok::<bool, ViewError>(true),
{
}

/// Wherever `==` gives an answer, `!=` gives its negation.
pub proof fn lemma_not_equals_negates<A>(mine: Seq<A>, theirs: Seq<Option<A>>)
    requires
        richcmp_outcome(mine, theirs, CompareOp::Eq) is Ok,
    ensures
        richcmp_outcome(mine, theirs, CompareOp::Ne) == Ok::<bool, ViewError>(
            !richcmp_outcome(mine, theirs, CompareOp::Eq)->Ok_0,
        ),
{
}

/// Ordering comparisons fail with `NotImplemented`, whatever the contents.
pub proof fn lemma_ordering_not_implemented<A>(mine: Seq<A>, theirs: Seq<Option<A>>, op: CompareOp)
    requires
        op != CompareOp::Eq,
        op != CompareOp::Ne,
    ensures
        richcmp_outcome(mine, theirs, op) == Err::<bool, ViewError>(ViewError::NotImplemented),
{
}

} // verus!
