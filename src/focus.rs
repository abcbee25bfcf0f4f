//! Finding the application that holds the focus in a window-manager tree.
use vstd::prelude::*;

verus! {

/// One node of the window-manager tree, as far as focus lookup reads it.
pub struct FocusNode {
    pub focused: bool,
    pub app_id: Option<String>,
    pub nodes: Vec<FocusNode>,
}

/// The characters of an optional string.
pub open spec fn opt_chars(o: Option<String>) -> Option<Seq<char>> {
    match o {
        Some(s) => Some(s@),
        None => None,
    }
}

/// Depth-first search, in document order, over `forest[i..]` and the subtrees
/// below: `Some(id)` for the first focused node met (whose id may be absent),
/// `None` where no node is focused.
pub open spec fn focus_from(forest: Seq<FocusNode>, i: int) -> Option<Option<Seq<char>>>
    decreases forest, forest.len() - i,
{
    if i < 0 || i >= forest.len() {
        None
    } else if forest[i].focused {
        Some(opt_chars(forest[i].app_id))
    } else {
        match focus_from(forest[i].nodes@, 0) {
            Some(found) => Some(found),
            None => focus_from(forest, i + 1),
        }
    }
}

/// The application id of the first focused node of the tree rooted at `root`.
pub open spec fn focused_app(root: FocusNode) -> Option<Seq<char>> {
    match focus_from(seq![root], 0) {
        Some(found) => found,
        None => None,
    }
}

fn clone_app_id(o: &Option<String>) -> (r: Option<String>)
    ensures
        opt_chars(r) == opt_chars(*o),
{
    match o {
        Some(s) => Some(s.clone()),
        None => None,
    }
}

fn search(forest: &Vec<FocusNode>) -> (r: Option<Option<String>>)
    ensures
        match r {
            Some(found) => focus_from(forest@, 0) == Some(opt_chars(found)),
            None => focus_from(forest@, 0) is None,
        },
    decreases forest@,
{
    let mut i: usize = 0;
    while i < forest.len()
        invariant
            i <= forest@.len(),
            focus_from(forest@, 0) == focus_from(forest@, i as int),
        decreases forest@.len() - i,
    {
        let node = &forest[i];
        if node.focused {
            return Some(clone_app_id(&node.app_id));
        }
        proof {
            assert(decreases_to!(forest@ => forest@[i as int]));
            assert(decreases_to!(forest@[i as int] => forest@[i as int].nodes));
            assert(decreases_to!(forest@[i as int].nodes => forest@[i as int].nodes@));
        }
        match search(&node.nodes) {
            Some(found) => {
                return Some(found);
            },
            None => {},
        }
        i = i + 1;
    }
    None
}

/// The application id of the first focused node of the tree, searched depth
/// first with children in document order; `None` where no node is focused or
/// the first focused node has no application id.
pub fn get_focused_window_app_id(root: FocusNode) -> (r: Option<String>)
    ensures
        opt_chars(r) == focused_app(root),
{
    let ghost g = root;
    let forest = vec![root];
    assert(forest@ =~= seq![g]);
    match search(&forest) {
        Some(found) => found,
        None => None,
    }
}

} // verus!
