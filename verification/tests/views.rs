use framework::view_registry::{
    add_view, allocate, detaches_active, free, remove_view, set_clickable, subtree_contains,
    ViewRegistry,
};

fn view(registry: &mut ViewRegistry) -> i64 {
    allocate(registry, "android.view.View").expect("allocate a view")
}

#[test]
fn subtree_holds_the_view_and_all_below_it() {
    let mut r = ViewRegistry::new();
    let (root, middle, leaf, other) = (view(&mut r), view(&mut r), view(&mut r), view(&mut r));
    assert!(add_view(&mut r, root, middle, -1));
    assert!(add_view(&mut r, middle, leaf, -1));
    assert!(subtree_contains(&r, root, root));
    assert!(subtree_contains(&r, root, middle));
    assert!(subtree_contains(&r, root, leaf));
    assert!(!subtree_contains(&r, middle, root));
    assert!(!subtree_contains(&r, root, other));
}

#[test]
fn subtree_that_leads_back_to_itself_is_walked_once() {
    let mut r = ViewRegistry::new();
    let (a, b, c) = (view(&mut r), view(&mut r), view(&mut r));
    assert!(add_view(&mut r, a, b, 0));
    assert!(add_view(&mut r, b, a, 0));
    assert!(subtree_contains(&r, a, b));
    assert!(subtree_contains(&r, b, a));
    assert!(!subtree_contains(&r, a, c));
}

#[test]
fn taking_a_child_out_detaches_the_active_view_below_it() {
    let mut r = ViewRegistry::new();
    let (root, group, page) = (view(&mut r), view(&mut r), view(&mut r));
    assert!(add_view(&mut r, root, group, -1));
    assert!(add_view(&mut r, group, page, -1));
    assert!(remove_view(&mut r, root, group));
    assert!(!subtree_contains(&r, root, page));
    assert!(detaches_active(&r, group, page));
    assert!(detaches_active(&r, page, page));
    assert!(!detaches_active(&r, group, 0));
    assert!(!detaches_active(&r, group, root));
    assert!(free(&mut r, group));
    assert!(!detaches_active(&r, group, page));
}

#[test]
fn only_a_live_view_becomes_clickable() {
    let mut r = ViewRegistry::new();
    let v = view(&mut r);
    assert!(!r.views.get(v).expect("a live view").clickable);
    assert!(set_clickable(&mut r, v));
    assert!(r.views.get(v).expect("a live view").clickable);
    assert!(!set_clickable(&mut r, 0));
}
