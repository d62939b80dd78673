use retworkx_iterators::bfs_successors::BFSSuccessors;
use retworkx_iterators::node_indices::NodeIndices;
use retworkx_iterators::view_error::{CompareOp, ViewError};

fn sample_nodes() -> NodeIndices {
    NodeIndices::new(vec![0, 4, 2])
}

fn sample_pairs() -> BFSSuccessors {
    BFSSuccessors::new(vec![(0, vec![1, 2]), (1, vec![3])])
}

#[test]
fn node_indices_length_and_access() {
    let v = sample_nodes();
    assert_eq!(v.__len__(), 3);
    assert_eq!(v.__getitem__(0), Ok(0));
    assert_eq!(v.__getitem__(1), Ok(4));
    assert_eq!(v.__getitem__(2), Ok(2));
    assert_eq!(v.__getitem__(3), Err(ViewError::IndexOutOfRange(3)));
    assert_eq!(v.__getitem__(-1), Err(ViewError::IndexOutOfRange(-1)));
}

#[test]
fn node_indices_length_does_not_change() {
    let v = sample_nodes();
    let _ = v.__getitem__(0);
    let _ = v.__richcmp__(&sample_nodes(), CompareOp::Eq);
    let mut it = v.iter();
    let _ = it.collect_remaining();
    assert_eq!(v.__len__(), 3);
}

#[test]
fn empty_views() {
    let v = NodeIndices::new(vec![]);
    assert_eq!(v.__len__(), 0);
    assert_eq!(v.__getitem__(0), Err(ViewError::IndexOutOfRange(0)));
    assert_eq!(v.iter().next(), None);
    assert_eq!(v.__richcmp__(&NodeIndices::new(vec![]), CompareOp::Eq), Ok(true));
    let p = BFSSuccessors::new(vec![]);
    assert_eq!(p.__len__(), 0);
    assert_eq!(p.__getitem__(0), Err(ViewError::IndexOutOfRange(0)));
    assert_eq!(p.iter().next(), None);
}

#[test]
fn extreme_indices_are_refused() {
    let v = sample_nodes();
    assert_eq!(v.__getitem__(isize::MAX), Err(ViewError::IndexOutOfRange(isize::MAX)));
    assert_eq!(v.__getitem__(isize::MIN), Err(ViewError::IndexOutOfRange(isize::MIN)));
    let p = sample_pairs();
    assert_eq!(p.__getitem__(2), Err(ViewError::IndexOutOfRange(2)));
    assert_eq!(p.__getitem__(-1), Err(ViewError::IndexOutOfRange(-1)));
}

#[test]
fn node_indices_equality() {
    let v = sample_nodes();
    assert_eq!(v.__richcmp__(&sample_nodes(), CompareOp::Eq), Ok(true));
    assert_eq!(sample_nodes().__richcmp__(&v, CompareOp::Eq), Ok(true));
    let short = NodeIndices::new(vec![0, 4]);
    assert_eq!(v.__richcmp__(&short, CompareOp::Eq), Ok(false));
    assert_eq!(v.__richcmp__(&short, CompareOp::Ne), Ok(true));
    let other = NodeIndices::new(vec![0, 4, 3]);
    assert_eq!(v.__richcmp__(&other, CompareOp::Eq), Ok(false));
    assert_eq!(v.__richcmp__(&other, CompareOp::Ne), Ok(true));
}

#[test]
fn view_equals_itself() {
    let v = sample_nodes();
    assert_eq!(v.__richcmp__(&v, CompareOp::Eq), Ok(true));
    assert_eq!(v.__richcmp__(&v, CompareOp::Ne), Ok(false));
    let p = sample_pairs();
    assert_eq!(p.__richcmp__(&p, CompareOp::Eq), Ok(true));
    assert_eq!(p.__richcmp__(&p, CompareOp::Ne), Ok(false));
}

#[test]
fn length_mismatch_is_false_not_error() {
    let v = sample_nodes();
    let theirs: Vec<Option<usize>> = vec![None, None];
    assert_eq!(v.__richcmp__(&theirs, CompareOp::Eq), Ok(false));
    assert_eq!(v.__richcmp__(&theirs, CompareOp::Ne), Ok(true));
}

#[test]
fn unreadable_element_is_type_mismatch() {
    let v = sample_nodes();
    let theirs: Vec<Option<usize>> = vec![Some(0), None, Some(2)];
    assert_eq!(v.__richcmp__(&theirs, CompareOp::Eq), Err(ViewError::TypeMismatch(1)));
    assert_eq!(v.__richcmp__(&theirs, CompareOp::Ne), Err(ViewError::TypeMismatch(1)));
}

#[test]
fn mismatch_before_unreadable_element_is_false() {
    let v = sample_nodes();
    let theirs: Vec<Option<usize>> = vec![Some(1), None, Some(2)];
    assert_eq!(v.__richcmp__(&theirs, CompareOp::Eq), Ok(false));
    assert_eq!(v.__richcmp__(&theirs, CompareOp::Ne), Ok(true));
}

#[test]
fn negation_law_on_values() {
    let v = sample_nodes();
    let cases: Vec<Vec<Option<usize>>> = vec![
        vec![Some(0), Some(4), Some(2)],
        vec![Some(0), Some(4), Some(1)],
        vec![Some(0)],
        vec![],
    ];
    for theirs in cases.iter() {
        let eq = v.__richcmp__(theirs, CompareOp::Eq).unwrap();
        assert_eq!(v.__richcmp__(theirs, CompareOp::Ne), Ok(!eq));
    }
}

#[test]
fn ordering_comparisons_not_implemented() {
    let v = sample_nodes();
    let w = NodeIndices::new(vec![1]);
    for op in [CompareOp::Lt, CompareOp::Le, CompareOp::Gt, CompareOp::Ge] {
        assert_eq!(v.__richcmp__(&w, op), Err(ViewError::NotImplemented));
        assert_eq!(v.__richcmp__(&v, op), Err(ViewError::NotImplemented));
    }
    let p = sample_pairs();
    assert_eq!(p.__richcmp__(&p, CompareOp::Lt), Err(ViewError::NotImplemented));
}

#[test]
fn node_indices_iteration() {
    let v = sample_nodes();
    let mut it = v.iter();
    assert_eq!(it.next(), Some(0));
    assert_eq!(it.next(), Some(4));
    assert_eq!(it.next(), Some(2));
    assert_eq!(it.next(), None);
    assert_eq!(it.next(), None);
    let mut again = v.iter();
    assert_eq!(again.collect_remaining(), vec![0, 4, 2]);
    assert_eq!(again.next(), None);
}

#[test]
fn iteration_resumes_from_cursor() {
    let v = sample_nodes();
    let mut it = v.iter();
    assert_eq!(it.next(), Some(0));
    assert_eq!(it.collect_remaining(), vec![4, 2]);
}

#[test]
fn bfs_successors_iteration_and_access() {
    let p = sample_pairs();
    assert_eq!(p.__len__(), 2);
    assert_eq!(p.__getitem__(0), Ok((0, vec![1, 2])));
    assert_eq!(p.__getitem__(1), Ok((1, vec![3])));
    let mut it = p.iter();
    assert_eq!(it.next(), Some((0, vec![1, 2])));
    assert_eq!(it.next(), Some((1, vec![3])));
    assert_eq!(it.next(), None);
    let mut again = p.iter();
    assert_eq!(again.collect_remaining(), vec![(0, vec![1, 2]), (1, vec![3])]);
}

#[test]
fn bfs_successors_equality() {
    let p = sample_pairs();
    assert_eq!(p.__richcmp__(&sample_pairs(), CompareOp::Eq), Ok(true));
    assert_eq!(sample_pairs().__richcmp__(&p, CompareOp::Eq), Ok(true));
    let other_node = BFSSuccessors::new(vec![(0, vec![1, 2]), (2, vec![3])]);
    assert_eq!(p.__richcmp__(&other_node, CompareOp::Eq), Ok(false));
    let longer_inner = BFSSuccessors::new(vec![(0, vec![1, 2, 5]), (1, vec![3])]);
    assert_eq!(p.__richcmp__(&longer_inner, CompareOp::Eq), Ok(false));
    assert_eq!(longer_inner.__richcmp__(&p, CompareOp::Eq), Ok(false));
    let other_order = BFSSuccessors::new(vec![(0, vec![2, 1]), (1, vec![3])]);
    assert_eq!(p.__richcmp__(&other_order, CompareOp::Ne), Ok(true));
    let shorter = BFSSuccessors::new(vec![(0, vec![1, 2])]);
    assert_eq!(p.__richcmp__(&shorter, CompareOp::Eq), Ok(false));
}

#[test]
fn bfs_successors_unreadable_pair() {
    let p = sample_pairs();
    let theirs: Vec<Option<(usize, Vec<usize>)>> = vec![Some((0, vec![1, 2])), None];
    assert_eq!(p.__richcmp__(&theirs, CompareOp::Eq), Err(ViewError::TypeMismatch(1)));
    let theirs: Vec<Option<(usize, Vec<usize>)>> = vec![Some((0, vec![1])), None];
    assert_eq!(p.__richcmp__(&theirs, CompareOp::Eq), Ok(false));
    let theirs: Vec<Option<(usize, Vec<usize>)>> = vec![Some((0, vec![1, 2])), Some((1, vec![3]))];
    assert_eq!(p.__richcmp__(&theirs, CompareOp::Eq), Ok(true));
}
