//! Gutters: how the engine obtains the divider element for a pair of panes,
//! and how panes are told apart from the gutters that sit among them.

use vstd::prelude::*;
use vstd::string::StringExecFns;

verus! {

/// A handle to a function that the host keeps on the library's behalf. The
/// library never calls it; it only decides where the handle goes.
#[derive(Clone, Copy, Debug, PartialEq, Eq, Structural)]
pub struct Callback {
    pub id: usize,
}

/// How the engine obtains the gutter element that precedes a pane.
#[derive(Clone, Copy, Debug, PartialEq, Eq, Structural)]
pub enum GutterFactory {
    /// Create a new `div`, give it the gutter's class name and tag it with
    /// the gutter marker.
    Fresh,
    /// Call a function that the host supplied.
    Custom(Callback),
    /// Take the gutter that an earlier engine instance left in front of the
    /// pane, give it the class name of the new direction and clear its
    /// inline style, so that the engine sizes it anew.
    ReuseExisting,
}

impl GutterFactory {
    /// The class name that the factory gives a gutter for `direction`, the
    /// engine's token for the axis. A fresh gutter is named after whatever
    /// token the engine passes; a reused one counts as vertical unless the
    /// token is `horizontal`. A custom factory names its own elements.
    pub open spec fn spec_class_name(self, direction: Seq<char>) -> Option<Seq<char>> {
        match self {
            GutterFactory::Fresh => Some("gutter gutter-"@ + direction),
            GutterFactory::Custom(_) => None,
            GutterFactory::ReuseExisting => if direction == "horizontal"@ {
                Some("gutter gutter-horizontal"@)
            } else {
                Some("gutter gutter-vertical"@)
            },
        }
    }

    /// The class name to set on a gutter for `direction`, or `None` where
    /// the host's own function builds the gutter.
    pub fn class_name(&self, direction: &str) -> (name: Option<String>)
        ensures
            name.is_some() == self.spec_class_name(direction@).is_some(),
            name matches Some(s) ==> Some(s@) == self.spec_class_name(direction@),
    {
        match self {
            GutterFactory::Fresh => Some("gutter gutter-".to_owned().concat(direction)),
            GutterFactory::Custom(_) => None,
            GutterFactory::ReuseExisting => {
                let given: String = direction.to_owned();
                let horizontal: String = "horizontal".to_owned();
                if given == horizontal {
                    Some("gutter gutter-horizontal".to_owned())
                } else {
                    Some("gutter gutter-vertical".to_owned())
                }
            },
        }
    }
}

/// The positions of the panes among the children of the container: those
/// children that do not carry the gutter marker, in document order.
/// `markers[i]` tells whether child `i` carries the marker.
pub open spec fn pane_positions(markers: Seq<bool>) -> Seq<usize>
    decreases markers.len(),
{
    if markers.len() == 0 {
        Seq::empty()
    } else if markers.last() {
        pane_positions(markers.drop_last())
    } else {
        pane_positions(markers.drop_last()).push((markers.len() - 1) as usize)
    }
}

/// The positions of all children of a container that holds `count` of them.
pub open spec fn all_positions(count: nat) -> Seq<usize> {
    Seq::new(count, |i: int| i as usize)
}

/// What `pane_positions` selects: positions of unmarked children only, each
/// unmarked child, and in ascending order.
pub proof fn lemma_pane_positions(markers: Seq<bool>)
    requires
        markers.len() <= usize::MAX,
    ensures
        forall|k: int|
            0 <= k < pane_positions(markers).len() ==> {
                let p = #[trigger] pane_positions(markers)[k];
                p < markers.len() && !markers[p as int]
            },
        forall|i: int|
            0 <= i < markers.len() && !#[trigger] markers[i] ==> pane_positions(markers).contains(
                i as usize,
            ),
        forall|j: int, k: int|
            0 <= j < k < pane_positions(markers).len() ==> pane_positions(markers)[j]
                < pane_positions(markers)[k],
        pane_positions(markers).len() <= markers.len(),
    decreases markers.len(),
{
    if markers.len() > 0 {
        let front = markers.drop_last();
        let last = (markers.len() - 1) as usize;
        lemma_pane_positions(front);
        let inner = pane_positions(front);
        let all = pane_positions(markers);
        assert forall|i: int| 0 <= i < markers.len() && !#[trigger] markers[i] implies all.contains(
            i as usize,
        ) by {
            if i < front.len() {
                assert(!front[i]);
                let k = choose|k: int| 0 <= k < inner.len() && inner[k] == i as usize;
                assert(all[k] == i as usize);
            } else {
                assert(all[all.len() - 1] == last);
            }
        }
    }
}

/// The positions of the children that are panes, given for each child
/// whether it carries the gutter marker.
pub fn select_panes(markers: &Vec<bool>) -> (positions: Vec<usize>)
    ensures
        positions@ == pane_positions(markers@),
{
    let mut positions: Vec<usize> = Vec::new();
    let mut i: usize = 0;
    while i < markers.len()
        invariant
            i <= markers.len(),
            positions@ == pane_positions(markers@.take(i as int)),
        decreases markers.len() - i,
    {
        assert(markers@.take(i + 1).drop_last() =~= markers@.take(i as int));
        if !markers[i] {
            positions.push(i);
        }
        i += 1;
    }
    assert(markers@.take(i as int) =~= markers@);
    positions
}

/// The positions of all `count` children of a container.
pub fn select_all(count: usize) -> (positions: Vec<usize>)
    ensures
        positions@ == all_positions(count as nat),
{
    let mut positions: Vec<usize> = Vec::new();
    let mut i: usize = 0;
    while i < count
        invariant
            i <= count,
            positions@ == all_positions(i as nat),
        decreases count - i,
    {
        positions.push(i);
        assert(positions@ =~= all_positions((i + 1) as nat));
        i += 1;
    }
    positions
}

} // verus!
