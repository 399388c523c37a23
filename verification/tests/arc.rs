use std::cell::RefCell;

use syncprims::arc::Arc;
use syncprims::arc::ArcData;
use syncprims::arc::Weak;

/// A graph node whose edges are strong handles in both directions: parents
/// and children keep each other alive, so the cycle leaks.
struct StrongNode {
    child: RefCell<Vec<Arc<StrongNode>>>,
    parent: RefCell<Option<Arc<StrongNode>>>,
}

impl StrongNode {
    fn new() -> Self {
        StrongNode { child: RefCell::new(vec![]), parent: RefCell::new(None) }
    }
}

/// A graph node whose parent edge is a weak handle: children do not keep
/// their parent alive, so the graph tears down.
struct WeakParentNode {
    child: RefCell<Vec<Arc<WeakParentNode>>>,
    parent: RefCell<Option<Weak<WeakParentNode>>>,
}

impl WeakParentNode {
    fn new() -> Self {
        WeakParentNode { child: RefCell::new(vec![]), parent: RefCell::new(None) }
    }
}

#[test]
fn test_basic_arc() {
    // Creation and basic reference counting.
    let (mut d, x) = Arc::new(42i32);
    assert_eq!(*x.get(&d), 42);
    assert_eq!(d.get_data_ref_count(), 1);
    assert_eq!(d.get_alloc_ref_count(), 1);

    // Cloning.
    let y = x.clone(&mut d);
    assert_eq!(*y.get(&d), 42);
    assert_eq!(d.get_data_ref_count(), 2);
    assert_eq!(d.get_alloc_ref_count(), 1);

    // Dropping.
    let destroyed = y.release(&mut d);
    assert!(destroyed.is_none());
    assert_eq!(d.get_data_ref_count(), 1);
    assert_eq!(d.get_alloc_ref_count(), 1);
}

#[test]
fn test_weak_reference() {
    let (mut d, strong) = Arc::new(42i32);
    assert_eq!(d.get_data_ref_count(), 1);
    assert_eq!(d.get_alloc_ref_count(), 1);

    let weak = strong.downgrade(&mut d);
    assert_eq!(d.get_data_ref_count(), 1); // strong count unchanged
    assert_eq!(d.get_alloc_ref_count(), 2); // alloc count increased

    // Upgrade succeeds while a strong handle exists.
    let upgraded = weak.upgrade(&mut d).unwrap();
    assert_eq!(*upgraded.get(&d), 42);
    assert_eq!(d.get_data_ref_count(), 2);
    assert_eq!(d.get_alloc_ref_count(), 2);

    // Retire all strong handles.
    let _ = upgraded.release(&mut d);
    let _ = strong.release(&mut d);

    // The upgrade now fails.
    assert!(weak.upgrade(&mut d).is_none());
}

#[test]
fn test_get_mut() {
    let (mut d, mut x) = Arc::new(42i32);

    // Exclusive access is granted while the handle is unique.
    let value = Arc::get_mut(&mut x, &mut d).unwrap();
    *value = 43;
    assert_eq!(*x.get(&d), 43);

    // Still unique, so it is granted again.
    let value = Arc::get_mut(&mut x, &mut d).unwrap();
    *value = 44;
    assert_eq!(*x.get(&d), 44);

    // With a weak handle around, exclusive access is refused.
    let weak = x.downgrade(&mut d);
    assert!(Arc::get_mut(&mut x, &mut d).is_none());
    let _ = weak;
}

#[test]
fn cycle_reference_no_weak_should_not_free_resource() {
    let mut destroyed: usize = 0;

    let (mut root_d, root) = Arc::new(StrongNode::new());
    let (mut c1_d, c1) = Arc::new(StrongNode::new());
    let (mut c2_d, c2) = Arc::new(StrongNode::new());

    // add_child(root, c1): the child points strongly back at the parent.
    let root_for_c1 = root.clone(&mut root_d);
    *c1.get(&c1_d).parent.borrow_mut() = Some(root_for_c1);
    root.get(&root_d).child.borrow_mut().push(c1);

    // add_child(root, c2).
    let root_for_c2 = root.clone(&mut root_d);
    *c2.get(&c2_d).parent.borrow_mut() = Some(root_for_c2);
    root.get(&root_d).child.borrow_mut().push(c2);

    // The handles of the scope retire; the children's back edges keep the
    // root alive, and the root keeps the children alive.
    if root.release(&mut root_d).is_some() {
        destroyed += 1;
    }

    // Not 3: none of root, c1, c2 was freed.
    assert_ne!(destroyed, 3);
    assert_eq!(c1_d.get_data_ref_count(), 1);
    assert_eq!(c2_d.get_data_ref_count(), 1);
}

#[test]
fn cycle_reference_use_weak_should_free_resource() {
    let mut destroyed: usize = 0;

    let (mut root_d, root) = Arc::new(WeakParentNode::new());
    let (mut c1_d, c1) = Arc::new(WeakParentNode::new());
    let (mut c2_d, c2) = Arc::new(WeakParentNode::new());

    // add_child(root, c1): the back edge is weak.
    *c1.get(&c1_d).parent.borrow_mut() = Some(root.downgrade(&mut root_d));
    root.get(&root_d).child.borrow_mut().push(c1);

    // add_child(root, c2).
    *c2.get(&c2_d).parent.borrow_mut() = Some(root.downgrade(&mut root_d));
    root.get(&root_d).child.borrow_mut().push(c2);

    // The scope's only strong handle to the root retires: the root dies,
    // and with it the strong edges to the children.
    let root_node = root.release(&mut root_d).unwrap();
    destroyed += 1;

    let mut children = root_node.child.into_inner();
    let c2_handle = children.pop().unwrap();
    let c1_handle = children.pop().unwrap();

    let c1_node = c1_handle.release(&mut c1_d).unwrap();
    destroyed += 1;
    if let Some(w) = c1_node.parent.into_inner() {
        let _ = w.release(&mut root_d);
    }

    let c2_node = c2_handle.release(&mut c2_d).unwrap();
    destroyed += 1;
    if let Some(w) = c2_node.parent.into_inner() {
        let freed = w.release(&mut root_d);
        // The last weak unit frees the root's allocation.
        assert!(freed);
    }

    // 3: root, c1 and c2 were all freed.
    assert_eq!(destroyed, 3);
}

#[test]
fn payload_destroyed_exactly_once() {
    let (mut d, a) = Arc::new(String::from("payload"));
    let b = a.clone(&mut d);
    let c = b.clone(&mut d);

    let mut destroyed: usize = 0;
    for handle in [a, b, c] {
        if handle.release(&mut d).is_some() {
            destroyed += 1;
        }
    }

    // Exactly one retirement — the last — destroyed the payload.
    assert_eq!(destroyed, 1);
    assert_eq!(d.get_data_ref_count(), 0);
    assert_eq!(d.get_alloc_ref_count(), 0);
}

#[test]
fn upgrade_fails_after_last_strong_release() {
    let (mut d, x) = Arc::new(1i32);
    let w = x.downgrade(&mut d);

    // A strong handle exists: the upgrade succeeds.
    let up = w.upgrade(&mut d).unwrap();

    assert!(x.release(&mut d).is_none());
    assert_eq!(up.release(&mut d), Some(1));

    // The last strong handle is gone: every later upgrade fails.
    assert!(w.upgrade(&mut d).is_none());
    assert!(w.upgrade(&mut d).is_none());

    let freed = w.release(&mut d);
    assert!(freed);
}

#[test]
fn weak_clone_counts_weak_handles() {
    let (mut d, x) = Arc::new(7i32);
    let w1 = x.downgrade(&mut d);
    let w2 = w1.clone(&mut d);
    assert_eq!(d.get_alloc_ref_count(), 3);
    assert!(!w1.release(&mut d));
    assert!(!w2.release(&mut d));
    assert_eq!(x.release(&mut d), Some(7));
}
