use vstd::prelude::*;

use crate::comparison::{
    all_readable, compare_from, equals_outcome, richcmp_outcome, SequenceSource,
};
use crate::view_error::{CompareOp, ViewError};

verus! {

/// A node index together with its successors, as a breadth-first search reports them.
pub type SuccessorPair = (usize, Vec<usize>);

/// A copy of `pair`.
fn copy_pair(pair: &SuccessorPair) -> (r: SuccessorPair)
    ensures
        r@ == pair@,
{
    let succ = pair.1.clone();
    proof {
        assert(succ@ =~= pair.1@);
    }
    (pair.0, succ)
}

/// Whether two pairs hold the same node and the same successors in the same order.
fn same_pair(a: &SuccessorPair, b: &SuccessorPair) -> (r: bool)
    ensures
        r == (a@ == b@),
{
    if a.0 != b.0 || a.1.len() != b.1.len() {
        return false;
    }
    let mut j: usize = 0;
    while j < a.1.len()
        invariant
            a.1@.len() == b.1@.len(),
            j <= a.1@.len(),
            forall|k: int| 0 <= k < j ==> a.1@[k] == b.1@[k],
        decreases a.1@.len() - j,
    {
        if a.1[j] != b.1[j] {
            return false;
        }
        j += 1;
    }
    proof {
        assert(a.1@ =~= b.1@);
    }
    true
}


/// The view of a pair: the node, and its successors as a sequence.
pub open spec fn pair_view(p: SuccessorPair) -> (usize, Seq<usize>) {
    p@
}

/// A read-only sequence of (node, successors) pairs, fixed when it is built.
pub struct BFSSuccessors {
    bfs_successors: Vec<SuccessorPair>,
}

impl View for BFSSuccessors {
    type V = Seq<(usize, Seq<usize>)>;

    closed spec fn view(&self) -> Seq<(usize, Seq<usize>)> {
        self.bfs_successors@.map_values(|p: SuccessorPair| pair_view(p))
    }
}

impl BFSSuccessors {
    /// Takes ownership of `bfs_successors`; the view holds exactly those
    /// pairs, in order.
    pub fn new(bfs_successors: Vec<SuccessorPair>) -> (r: BFSSuccessors)
        ensures
            r@ == bfs_successors@.map_values(|p: SuccessorPair| pair_view(p)),
    {
        BFSSuccessors { bfs_successors }
    }

    /// The number of pairs held.
    pub fn __len__(&self) -> (r: usize)
        ensures
            r == self@.len(),
    {
        self.bfs_successors.len()
    }

    /// A copy of the pair at position `idx`; a position outside `[0, len)`,
    /// negative ones included, is refused with the offending index.
    pub fn __getitem__(&self, idx: isize) -> (r: Result<SuccessorPair, ViewError>)
        ensures
            0 <= idx < self@.len() ==> r is Ok && r->Ok_0@ == self@[idx as int],
            !(0 <= idx < self@.len()) ==> r == Err::<SuccessorPair, ViewError>(
                ViewError::IndexOutOfRange(idx),
            ),
    {
        if idx < 0 || idx as usize >= self.bfs_successors.len() {
            Err(ViewError::IndexOutOfRange(idx))
        } else {
            Ok(copy_pair(&self.bfs_successors[idx as usize]))
        }
    }

    fn equals<S: SequenceSource<SuccessorPair>>(&self, other: &S) -> (r: Result<bool, ViewError>)
        ensures
            r == equals_outcome(self@, other.items()),
    {
        let n = other.length();
        if n != self.bfs_successors.len() {
            return Ok(false);
        }
        let mut i: usize = 0;
        while i < n
            invariant
                n == self@.len(),
                n == self.bfs_successors@.len(),
                n == other.items().len(),
                i <= n,
                compare_from(self@, other.items(), 0) == compare_from(
                    self@,
                    other.items(),
                    i as int,
                ),
            decreases n - i,
        {
            match other.item(i) {
                None => {
                    return Err(ViewError::TypeMismatch(i));
                },
                Some(x) => {
                    if !same_pair(&self.bfs_successors[i], &x) {
                        return Ok(false);
                    }
                },
            }
            i += 1;
        }
        Ok(true)
    }

    /// Applies the comparison `op` between this view and `other`: `==` walks
    /// both in lock step, `!=` negates it, the ordering operators fail.
    pub fn __richcmp__<S: SequenceSource<SuccessorPair>>(
        &self,
        other: &S,
        op: CompareOp,
    ) -> (r: Result<bool, ViewError>)
        ensures
            r == richcmp_outcome(self@, other.items(), op),
    {
        match op {
            CompareOp::Eq => self.equals(other),
            CompareOp::Ne => match self.equals(other) {
                Ok(res) => Ok(!res),
                Err(err) => Err(err),
            },
            _ => Err(ViewError::NotImplemented),
        }
    }

    /// A fresh cursor over this view, at its first position.
    pub fn iter(&self) -> (r: BFSSuccessorsIter<'_>)
        ensures
            r.elements() == self@,
            r.position() == 0,
    {
        BFSSuccessorsIter { view: self, pos: 0 }
    }
}

impl SequenceSource<SuccessorPair> for BFSSuccessors {
    open spec fn items(&self) -> Seq<Option<(usize, Seq<usize>)>> {
        all_readable(self@)
    }

    fn length(&self) -> (r: usize) {
        self.bfs_successors.len()
    }

    fn item(&self, i: usize) -> (r: Option<SuccessorPair>) {
        Some(copy_pair(&self.bfs_successors[i]))
    }
}

/// The view of a pair that may not have been readable.
pub open spec fn maybe_pair_view(o: Option<SuccessorPair>) -> Option<(usize, Seq<usize>)> {
    match o {
        Some(p) => Some(p@),
        None => None,
    }
}

impl SequenceSource<SuccessorPair> for Vec<Option<SuccessorPair>> {
    open spec fn items(&self) -> Seq<Option<(usize, Seq<usize>)>> {
        self@.map_values(|o: Option<SuccessorPair>| maybe_pair_view(o))
    }

    fn length(&self) -> (r: usize) {
        self.len()
    }

    fn item(&self, i: usize) -> (r: Option<SuccessorPair>) {
        match &self[i] {
            Some(p) => Some(copy_pair(p)),
            None => None,
        }
    }
}

/// One pass over a `BFSSuccessors` view: the view itself and how far the pass has come.
pub struct BFSSuccessorsIter<'a> {
    view: &'a BFSSuccessors,
    pos: usize,
}

impl<'a> BFSSuccessorsIter<'a> {
    #[verifier::type_invariant]
    spec fn within_view(&self) -> bool {
        self.pos <= self.view.bfs_successors.len()
    }

    /// The elements of the view being walked.
    pub closed spec fn elements(&self) -> Seq<(usize, Seq<usize>)> {
        self.view@
    }

    /// How many elements this pass has yielded so far.
    pub closed spec fn position(&self) -> int {
        self.pos as int
    }

    /// The elements that this pass has not yielded yet.
    pub open spec fn rest(&self) -> Seq<(usize, Seq<usize>)> {
        self.elements().subrange(self.position(), self.elements().len() as int)
    }

    /// Yields a copy of the pair at the cursor and moves past it, or `None`
    /// once the whole view has been yielded.
    pub fn next(&mut self) -> (r: Option<SuccessorPair>)
        ensures
            final(self).elements() == old(self).elements(),
            old(self).position() < old(self).elements().len() ==> {
                &&& r is Some
                &&& r->Some_0@ == old(self).elements()[old(self).position()]
                &&& final(self).position() == old(self).position() + 1
            },
            old(self).position() >= old(self).elements().len() ==> {
                &&& r is None
                &&& final(self).position() == old(self).position()
            },
    {
        proof {
            use_type_invariant(&*self);
        }
        if self.pos < self.view.bfs_successors.len() {
            let x = copy_pair(&self.view.bfs_successors[self.pos]);
            self.pos = self.pos + 1;
            Some(x)
        } else {
            None
        }
    }

    /// Runs this pass to exhaustion and returns what it yielded, in order.
    pub fn collect_remaining(&mut self) -> (r: Vec<SuccessorPair>)
        ensures
            r@.map_values(|p: SuccessorPair| pair_view(p)) == old(self).rest(),
            final(self).elements() == old(self).elements(),
            final(self).position() == final(self).elements().len(),
    {
        proof {
            use_type_invariant(&*self);
        }
        let ghost start = self.position();
        let mut out: Vec<SuccessorPair> = Vec::new();
        loop
            invariant
                self.elements() == old(self).elements(),
                0 <= start <= self.position() <= self.elements().len(),
                start == old(self).position(),
                out@.len() == self.position() - start,
                forall|k: int| 0 <= k < out@.len() ==> #[trigger] out@[k]@ == self.elements()[start + k],
            ensures
                self.elements() == old(self).elements(),
                self.position() == self.elements().len(),
                out@.len() == self.position() - start,
                forall|k: int| 0 <= k < out@.len() ==> #[trigger] out@[k]@ == self.elements()[start + k],
            decreases self.elements().len() - self.position(),
        {
            match self.next() {
                Some(x) => {
                    out.push(x);
                    proof {
                        use_type_invariant(&*self);
                    }
                },
                None => break,
            }
        }
        proof {
            assert(out@.map_values(|p: SuccessorPair| pair_view(p)) =~= old(self).rest());
        }
        out
    }
}

/// Each view built from the same pairs compares equal to the other, in both
/// directions.
pub proof fn lemma_same_pairs_compare_equal(a: BFSSuccessors, b: BFSSuccessors)
    requires
        a@ == b@,
    ensures
        richcmp_outcome(a@, b.items(), CompareOp::Eq) == Ok::<bool, ViewError>(true),
        richcmp_outcome(b@, a.items(), CompareOp::Eq) == Ok::<bool, ViewError>(true),
{
    crate::comparison::lemma_equals_same_elements(a@);
}

/// A view compares equal to itself.
pub proof fn lemma_view_equals_itself(a: BFSSuccessors)
    ensures
        richcmp_outcome(a@, a.items(), CompareOp::Eq) == Ok::<bool, ViewError>(true),
{
    crate::comparison::lemma_equals_same_elements(a@);
}

/// A fresh pass has every element of the view still to yield, in order; so
/// each new pass over the same view yields the same sequence.
pub proof fn lemma_fresh_pass_yields_all(it: BFSSuccessorsIter)
    requires
        it.position() == 0,
    ensures
        it.rest() == it.elements(),
{
    assert(it.rest() =~= it.elements());
}

} // verus!
