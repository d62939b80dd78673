use vstd::prelude::*;

use crate::comparison::{
    all_readable, compare_from, equals_outcome, richcmp_outcome, SequenceSource,
};
use crate::view_error::{CompareOp, ViewError};

verus! {

/// A read-only sequence of node indices, fixed when it is built.
pub struct NodeIndices {
    nodes: Vec<usize>,
}

impl View for NodeIndices {
    type V = Seq<usize>;

    closed spec fn view(&self) -> Seq<usize> {
        self.nodes@
    }
}

impl NodeIndices {
    /// Takes ownership of `nodes`; the view holds exactly them, in order.
    pub fn new(nodes: Vec<usize>) -> (r: NodeIndices)
        ensures
            r@ == nodes@,
    {
        NodeIndices { nodes }
    }

    /// The number of node indices held.
    pub fn __len__(&self) -> (r: usize)
        ensures
            r == self@.len(),
    {
        self.nodes.len()
    }

    /// The node index at position `idx`; a position outside `[0, len)`,
    /// negative ones included, is refused with the offending index.
    pub fn __getitem__(&self, idx: isize) -> (r: Result<usize, ViewError>)
        ensures
            0 <= idx < self@.len() ==> r == Ok::<usize, ViewError>(self@[idx as int]),
            !(0 <= idx < self@.len()) ==> r == Err::<usize, ViewError>(
                ViewError::IndexOutOfRange(idx),
            ),
    {
        if idx < 0 || idx as usize >= self.nodes.len() {
            Err(ViewError::IndexOutOfRange(idx))
        } else {
            Ok(self.nodes[idx as usize])
        }
    }

    fn equals<S: SequenceSource<usize>>(&self, other: &S) -> (r: Result<bool, ViewError>)
        ensures
            r == equals_outcome(self@, other.items()),
    {
        let n = other.length();
        if n != self.nodes.len() {
            return Ok(false);
        }
        let mut i: usize = 0;
        while i < n
            invariant
                n == self@.len(),
                n == other.items().len(),
                i <= n,
                compare_from(self@, other.items(), 0) == compare_from(
                    self@,
                    other.items(),
                    i as int,
                ),
            decreases n - i,
        {
            match other.item(i) {
                None => {
                    return Err(ViewError::TypeMismatch(i));
                },
                Some(x) => {
                    if x != self.nodes[i] {
                        return Ok(false);
                    }
                },
            }
            i += 1;
        }
        Ok(true)
    }

    /// Applies the comparison `op` between this view and `other`: `==` walks
    /// both in lock step, `!=` negates it, the ordering operators fail.
    pub fn __richcmp__<S: SequenceSource<usize>>(&self, other: &S, op: CompareOp) -> (r: Result<
        bool,
        ViewError,
    >)
        ensures
            r == richcmp_outcome(self@, other.items(), op),
    {
        match op {
            CompareOp::Eq => self.equals(other),
            CompareOp::Ne => match self.equals(other) {
                Ok(res) => Ok(!res),
                Err(err) => Err(err),
            },
            _ => Err(ViewError::NotImplemented),
        }
    }

    /// A fresh cursor over this view, at its first position.
    pub fn iter(&self) -> (r: NodeIndicesIter<'_>)
        ensures
            r.elements() == self@,
            r.position() == 0,
    {
        NodeIndicesIter { view: self, pos: 0 }
    }
}

impl SequenceSource<usize> for NodeIndices {
    open spec fn items(&self) -> Seq<Option<usize>> {
        all_readable(self@)
    }

    fn length(&self) -> (r: usize) {
        self.nodes.len()
    }

    fn item(&self, i: usize) -> (r: Option<usize>) {
        Some(self.nodes[i])
    }
}

impl SequenceSource<usize> for Vec<Option<usize>> {
    open spec fn items(&self) -> Seq<Option<usize>> {
        self@
    }

    fn length(&self) -> (r: usize) {
        self.len()
    }

    fn item(&self, i: usize) -> (r: Option<usize>) {
        self[i]
    }
}

/// One pass over a `NodeIndices` view: the view itself and how far the pass has come.
pub struct NodeIndicesIter<'a> {
    view: &'a NodeIndices,
    pos: usize,
}

impl<'a> NodeIndicesIter<'a> {
    #[verifier::type_invariant]
    spec fn within_view(&self) -> bool {
        self.pos <= self.view.nodes.len()
    }

    /// The elements of the view being walked.
    pub closed spec fn elements(&self) -> Seq<usize> {
        self.view@
    }

    /// How many elements this pass has yielded so far.
    pub closed spec fn position(&self) -> int {
        self.pos as int
    }

    /// The elements that this pass has not yielded yet.
    pub open spec fn rest(&self) -> Seq<usize> {
        self.elements().subrange(self.position(), self.elements().len() as int)
    }

    /// Yields the element at the cursor and moves past it, or `None` once the
    /// whole view has been yielded.
    pub fn next(&mut self) -> (r: Option<usize>)
        ensures
            final(self).elements() == old(self).elements(),
            old(self).position() < old(self).elements().len() ==> {
                &&& r == Some(old(self).elements()[old(self).position()])
                &&& final(self).position() == old(self).position() + 1
            },
            old(self).position() >= old(self).elements().len() ==> {
                &&& r is None
                &&& final(self).position() == old(self).position()
            },
    {
        proof {
            use_type_invariant(&*self);
        }
        if self.pos < self.view.nodes.len() {
            let x = self.view.nodes[self.pos];
            self.pos = self.pos + 1;
            Some(x)
        } else {
            None
        }
    }

    /// Runs this pass to exhaustion and returns what it yielded, in order.
    pub fn collect_remaining(&mut self) -> (r: Vec<usize>)
        ensures
            r@ == old(self).rest(),
            final(self).elements() == old(self).elements(),
            final(self).position() == final(self).elements().len(),
    {
        proof {
            use_type_invariant(&*self);
        }
        let ghost start = self.position();
        let mut out: Vec<usize> = Vec::new();
        loop
            invariant
                self.elements() == old(self).elements(),
                0 <= start <= self.position() <= self.elements().len(),
                start == old(self).position(),
                out@ == self.elements().subrange(start, self.position()),
            ensures
                self.elements() == old(self).elements(),
                self.position() == self.elements().len(),
                out@ == self.elements().subrange(start, self.position()),
            decreases self.elements().len() - self.position(),
        {
            match self.next() {
                Some(x) => {
                    out.push(x);
                    proof {
                        use_type_invariant(&*self);
                        assert(out@ =~= self.elements().subrange(start, self.position()));
                    }
                },
                None => break,
            }
        }
        out
    }
}

/// Each view built from the same node indices compares equal to the other,
/// in both directions.
pub proof fn lemma_same_nodes_compare_equal(a: NodeIndices, b: NodeIndices)
    requires
        a@ == b@,
    ensures
        richcmp_outcome(a@, b.items(), CompareOp::Eq) == Ok::<bool, ViewError>(true),
        richcmp_outcome(b@, a.items(), CompareOp::Eq) == Ok::<bool, ViewError>(true),
{
    crate::comparison::lemma_equals_same_elements(a@);
}

/// A view compares equal to itself.
pub proof fn lemma_view_equals_itself(a: NodeIndices)
    ensures
        richcmp_outcome(a@, a.items(), CompareOp::Eq) == Ok::<bool, ViewError>(true),
{
    crate::comparison::lemma_equals_same_elements(a@);
}

/// A fresh pass has every element of the view still to yield, in order; so
/// each new pass over the same view yields the same sequence.
pub proof fn lemma_fresh_pass_yields_all(it: NodeIndicesIter)
    requires
        it.position() == 0,
    ensures
        it.rest() == it.elements(),
{
    assert(it.rest() =~= it.elements());
}

} // verus!
