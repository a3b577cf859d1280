//! The configuration of a split, and the comparison of two configurations
//! that decides what an update has to do.

use crate::gutter::{Callback, GutterFactory};
use crate::number::Number;
use crate::tokens::{Cursor, Direction, GutterAlign};
use vstd::prelude::*;

verus! {

/// The configuration that the host hands the component on every render.
/// A field that is `None` leaves the matter to the engine's default.
#[derive(Clone, Debug, PartialEq)]
pub struct SplitProps {
    /// Initial sizes of the panes.
    pub sizes: Option<Vec<Number>>,
    /// Minimum size of every pane; ignored where `min_sizes` is given.
    pub min_size: Option<Number>,
    /// Minimum size of each pane.
    pub min_sizes: Option<Vec<Number>>,
    /// Maximum size of every pane; ignored where `max_sizes` is given.
    pub max_size: Option<Number>,
    /// Maximum size of each pane.
    pub max_sizes: Option<Vec<Number>>,
    /// Grow the initial sizes to the minimum size.
    pub expand_to_min: Option<bool>,
    /// Gutter size in pixels.
    pub gutter_size: Option<Number>,
    /// Gutter alignment between panes.
    pub gutter_align: Option<GutterAlign>,
    /// Distance in pixels within which a pane snaps to its minimum size.
    pub snap_offset: Option<Number>,
    /// Number of pixels per drag step.
    pub drag_interval: Option<Number>,
    /// Direction to split in.
    pub direction: Option<Direction>,
    /// Cursor to show while dragging.
    pub cursor: Option<Cursor>,
    /// How each gutter element comes about.
    pub gutter: GutterFactory,
    /// Called to style each pane.
    pub element_style: Option<Callback>,
    /// Called to style each gutter.
    pub gutter_style: Option<Callback>,
    /// Called on drag.
    pub on_drag: Option<Callback>,
    /// Called on drag start.
    pub on_drag_start: Option<Callback>,
    /// Called on drag end.
    pub on_drag_end: Option<Callback>,
    /// The pane to collapse, if any.
    pub collapsed: Option<usize>,
}

/// A configuration as a mathematical value: lists are sequences.
pub struct SplitPropsView {
    pub sizes: Option<Seq<Number>>,
    pub min_size: Option<Number>,
    pub min_sizes: Option<Seq<Number>>,
    pub max_size: Option<Number>,
    pub max_sizes: Option<Seq<Number>>,
    pub expand_to_min: Option<bool>,
    pub gutter_size: Option<Number>,
    pub gutter_align: Option<GutterAlign>,
    pub snap_offset: Option<Number>,
    pub drag_interval: Option<Number>,
    pub direction: Option<Direction>,
    pub cursor: Option<Cursor>,
    pub gutter: GutterFactory,
    pub element_style: Option<Callback>,
    pub gutter_style: Option<Callback>,
    pub on_drag: Option<Callback>,
    pub on_drag_start: Option<Callback>,
    pub on_drag_end: Option<Callback>,
    pub collapsed: Option<usize>,
}

/// An optional list as an optional sequence.
pub open spec fn list_view(list: Option<Vec<Number>>) -> Option<Seq<Number>> {
    match list {
        Some(v) => Some(v@),
        None => None,
    }
}

impl View for SplitProps {
    type V = SplitPropsView;

    open spec fn view(&self) -> SplitPropsView {
        SplitPropsView {
            sizes: list_view(self.sizes),
            min_size: self.min_size,
            min_sizes: list_view(self.min_sizes),
            max_size: self.max_size,
            max_sizes: list_view(self.max_sizes),
            expand_to_min: self.expand_to_min,
            gutter_size: self.gutter_size,
            gutter_align: self.gutter_align,
            snap_offset: self.snap_offset,
            drag_interval: self.drag_interval,
            direction: self.direction,
            cursor: self.cursor,
            gutter: self.gutter,
            element_style: self.element_style,
            gutter_style: self.gutter_style,
            on_drag: self.on_drag,
            on_drag_start: self.on_drag_start,
            on_drag_end: self.on_drag_end,
            collapsed: self.collapsed,
        }
    }
}

/// A list that an update cannot compare with its predecessor.
#[derive(Clone, Copy, Debug, PartialEq, Eq, Structural)]
pub enum UpdateFault {
    /// `min_sizes` is longer than it was.
    MinSizes,
    /// `max_sizes` is longer than it was.
    MaxSizes,
    /// `sizes` is given where it was not before, or is longer than it was,
    /// and nothing else calls for a new engine.
    Sizes,
}

/// Whether an optional number differs from what it was. Two absent numbers
/// do not differ; two present ones differ unless they are numerically equal.
pub open spec fn number_changed(new: Option<Number>, old: Option<Number>) -> bool {
    match (new, old) {
        (None, None) => false,
        (Some(a), Some(b)) => !a.equals(b),
        _ => true,
    }
}

/// Whether some element of `new` differs from the element of `old` at the
/// same position. Elements of `old` beyond the length of `new` play no part.
pub open spec fn element_changed(new: Seq<Number>, old: Seq<Number>) -> bool {
    exists|i: int| 0 <= i < new.len() && !(#[trigger] new[i]).equals(old[i])
}

/// Whether an optional list differs from what it was: it appeared, it
/// disappeared, or one of its elements differs.
pub open spec fn list_changed(new: Option<Seq<Number>>, old: Option<Seq<Number>>) -> bool {
    match (new, old) {
        (None, None) => false,
        (Some(n), Some(o)) => element_changed(n, o),
        _ => true,
    }
}

/// Whether `new` can be compared with `old` element by element: where both
/// are present, `old` has an element for every position of `new`.
pub open spec fn list_comparable(new: Option<Seq<Number>>, old: Option<Seq<Number>>) -> bool {
    match (new, old) {
        (Some(n), Some(o)) => n.len() <= o.len(),
        _ => true,
    }
}

/// Whether two optional lists are equal: both absent, or of one length with
/// numerically equal elements.
pub open spec fn list_equal(a: Option<Seq<Number>>, b: Option<Seq<Number>>) -> bool {
    match (a, b) {
        (None, None) => true,
        (Some(x), Some(y)) => x.len() == y.len() && forall|i: int|
            0 <= i < x.len() ==> (#[trigger] x[i]).equals(y[i]),
        _ => false,
    }
}

impl SplitPropsView {
    /// Whether a setting other than the sizes, the minimum sizes and the
    /// collapsed pane differs from `old`: the maximum size, as a scalar or
    /// per pane, the expansion to the minimum, the gutter's size and
    /// alignment, the snap offset, the drag interval, the direction or the
    /// cursor.
    pub open spec fn other_props_changed(self, old: SplitPropsView) -> bool {
        ||| number_changed(self.max_size, old.max_size)
        ||| list_changed(self.max_sizes, old.max_sizes)
        ||| self.expand_to_min != old.expand_to_min
        ||| number_changed(self.gutter_size, old.gutter_size)
        ||| self.gutter_align != old.gutter_align
        ||| number_changed(self.snap_offset, old.snap_offset)
        ||| number_changed(self.drag_interval, old.drag_interval)
        ||| self.direction != old.direction
        ||| self.cursor != old.cursor
    }

    /// Whether the minimum sizes differ from `old`. Where either
    /// configuration lists them per pane, the lists decide and the scalar is
    /// ignored; a list on one side only always counts as a change.
    pub open spec fn min_size_changed(self, old: SplitPropsView) -> bool {
        if self.min_sizes is Some || old.min_sizes is Some {
            list_changed(self.min_sizes, old.min_sizes)
        } else {
            number_changed(self.min_size, old.min_size)
        }
    }

    /// Whether the engine has to be destroyed and built anew to get from
    /// `old` to this configuration.
    pub open spec fn needs_recreate(self, old: SplitPropsView) -> bool {
        self.other_props_changed(old) || self.min_size_changed(old)
    }

    /// Whether the sizes are given and one of them differs from `old`.
    pub open spec fn sizes_changed(self, old: SplitPropsView) -> bool {
        self.sizes matches Some(sizes) && element_changed(sizes, old.sizes.unwrap())
    }

    /// Whether a pane is to be collapsed that was not before: a collapsed
    /// pane is named, and it is not the one that `old` names, if `old`
    /// names any. A collapsed pane that stays or disappears is no change.
    pub open spec fn collapse_changed(self, old: SplitPropsView) -> bool {
        self.collapsed is Some && self.collapsed != old.collapsed
    }

    /// Whether an update from `old` has anything to ask of the engine.
    pub open spec fn asks_engine(self, old: SplitPropsView) -> bool {
        self.needs_recreate(old) || self.sizes_changed(old) || self.collapse_changed(old)
    }

    /// The list, if any, that keeps this configuration from being compared
    /// with `old`. The minimum and maximum sizes are always compared; the
    /// sizes only where the engine stays.
    pub open spec fn update_fault(self, old: SplitPropsView) -> Option<UpdateFault> {
        if !list_comparable(self.min_sizes, old.min_sizes) {
            Some(UpdateFault::MinSizes)
        } else if !list_comparable(self.max_sizes, old.max_sizes) {
            Some(UpdateFault::MaxSizes)
        } else if !self.needs_recreate(old) && self.sizes is Some && (old.sizes is None
            || !list_comparable(self.sizes, old.sizes)) {
            Some(UpdateFault::Sizes)
        } else {
            None
        }
    }

    /// Whether this configuration can follow `old` on a mounted component.
    pub open spec fn follows(self, old: SplitPropsView) -> bool {
        self.update_fault(old) is None
    }

    /// Whether the two configurations are equal field by field, numbers
    /// compared numerically.
    pub open spec fn same_as(self, old: SplitPropsView) -> bool {
        &&& list_equal(self.sizes, old.sizes)
        &&& !number_changed(self.min_size, old.min_size)
        &&& list_equal(self.min_sizes, old.min_sizes)
        &&& !number_changed(self.max_size, old.max_size)
        &&& list_equal(self.max_sizes, old.max_sizes)
        &&& self.expand_to_min == old.expand_to_min
        &&& !number_changed(self.gutter_size, old.gutter_size)
        &&& self.gutter_align == old.gutter_align
        &&& !number_changed(self.snap_offset, old.snap_offset)
        &&& !number_changed(self.drag_interval, old.drag_interval)
        &&& self.direction == old.direction
        &&& self.cursor == old.cursor
        &&& self.gutter == old.gutter
        &&& self.element_style == old.element_style
        &&& self.gutter_style == old.gutter_style
        &&& self.on_drag == old.on_drag
        &&& self.on_drag_start == old.on_drag_start
        &&& self.on_drag_end == old.on_drag_end
        &&& self.collapsed == old.collapsed
    }
}

/// Whether some element of `new` differs from its counterpart in `old`.
fn any_element_changed(new: &Vec<Number>, old: &Vec<Number>) -> (changed: bool)
    requires
        new.len() <= old.len(),
    ensures
        changed == element_changed(new@, old@),
{
    let mut i: usize = 0;
    while i < new.len()
        invariant
            i <= new.len() <= old.len(),
            forall|k: int| 0 <= k < i ==> (#[trigger] new@[k]).equals(old@[k]),
        decreases new.len() - i,
    {
        if new[i] != old[i] {
            return true;
        }
        i += 1;
    }
    false
}

/// Whether an optional list differs from what it was.
fn any_list_changed(new: &Option<Vec<Number>>, old: &Option<Vec<Number>>) -> (changed: bool)
    requires
        list_comparable(list_view(*new), list_view(*old)),
    ensures
        changed == list_changed(list_view(*new), list_view(*old)),
{
    match (new, old) {
        (None, None) => false,
        (Some(n), Some(o)) => any_element_changed(n, o),
        _ => true,
    }
}

/// Whether `old` has an element for every position of `new`.
fn comparable(new: &Option<Vec<Number>>, old: &Option<Vec<Number>>) -> (ok: bool)
    ensures
        ok == list_comparable(list_view(*new), list_view(*old)),
{
    match (new, old) {
        (Some(n), Some(o)) => n.len() <= o.len(),
        _ => true,
    }
}

impl SplitProps {
    /// A configuration that sets nothing: the engine's defaults throughout,
    /// fresh gutters, no pane collapsed.
    pub fn new() -> (props: SplitProps)
        ensures
            props@ == (SplitPropsView {
                sizes: None,
                min_size: None,
                min_sizes: None,
                max_size: None,
                max_sizes: None,
                expand_to_min: None,
                gutter_size: None,
                gutter_align: None,
                snap_offset: None,
                drag_interval: None,
                direction: None,
                cursor: None,
                gutter: GutterFactory::Fresh,
                element_style: None,
                gutter_style: None,
                on_drag: None,
                on_drag_start: None,
                on_drag_end: None,
                collapsed: None,
            }),
    {
        SplitProps {
            sizes: None,
            min_size: None,
            min_sizes: None,
            max_size: None,
            max_sizes: None,
            expand_to_min: None,
            gutter_size: None,
            gutter_align: None,
            snap_offset: None,
            drag_interval: None,
            direction: None,
            cursor: None,
            gutter: GutterFactory::Fresh,
            element_style: None,
            gutter_style: None,
            on_drag: None,
            on_drag_start: None,
            on_drag_end: None,
            collapsed: None,
        }
    }

    /// Whether a setting that the engine cannot adjust in place, the minimum
    /// sizes aside, differs from `old_props`.
    pub fn other_props_changed(&self, old_props: &SplitProps) -> (changed: bool)
        requires
            list_comparable(self@.max_sizes, old_props@.max_sizes),
        ensures
            changed == self@.other_props_changed(old_props@),
    {
        self.max_size != old_props.max_size
            || any_list_changed(&self.max_sizes, &old_props.max_sizes)
            || self.expand_to_min != old_props.expand_to_min
            || self.gutter_size != old_props.gutter_size
            || self.gutter_align != old_props.gutter_align
            || self.snap_offset != old_props.snap_offset
            || self.drag_interval != old_props.drag_interval
            || self.direction != old_props.direction
            || self.cursor != old_props.cursor
    }

    /// Whether getting from `old_props` to this configuration takes a new
    /// engine.
    pub fn needs_recreate(&self, old_props: &SplitProps) -> (recreate: bool)
        requires
            list_comparable(self@.min_sizes, old_props@.min_sizes),
            list_comparable(self@.max_sizes, old_props@.max_sizes),
        ensures
            recreate == self@.needs_recreate(old_props@),
    {
        let mut needs_recreate: bool = self.other_props_changed(old_props);
        if self.min_sizes.is_some() || old_props.min_sizes.is_some() {
            needs_recreate = needs_recreate || any_list_changed(
                &self.min_sizes,
                &old_props.min_sizes,
            );
        } else {
            needs_recreate = needs_recreate || self.min_size != old_props.min_size;
        }
        needs_recreate
    }

    /// The list, if any, that keeps this configuration from following
    /// `old_props` on a mounted component.
    pub fn update_fault(&self, old_props: &SplitProps) -> (fault: Option<UpdateFault>)
        ensures
            fault == self@.update_fault(old_props@),
    {
        if !comparable(&self.min_sizes, &old_props.min_sizes) {
            Some(UpdateFault::MinSizes)
        } else if !comparable(&self.max_sizes, &old_props.max_sizes) {
            Some(UpdateFault::MaxSizes)
        } else if !self.needs_recreate(old_props) && self.sizes.is_some() && (
        old_props.sizes.is_none() || !comparable(&self.sizes, &old_props.sizes)) {
            Some(UpdateFault::Sizes)
        } else {
            None
        }
    }

    /// Whether the sizes are given and one of them differs from
    /// `old_props`.
    pub fn sizes_changed(&self, old_props: &SplitProps) -> (changed: bool)
        requires
            self@.sizes is Some ==> old_props@.sizes is Some && list_comparable(
                self@.sizes,
                old_props@.sizes,
            ),
        ensures
            changed == self@.sizes_changed(old_props@),
    {
        match (&self.sizes, &old_props.sizes) {
            (Some(n), Some(o)) => any_element_changed(n, o),
            _ => false,
        }
    }

    /// Whether a pane is to be collapsed that was not before.
    pub fn collapse_changed(&self, old_props: &SplitProps) -> (changed: bool)
        ensures
            changed == self@.collapse_changed(old_props@),
    {
        match (self.collapsed, old_props.collapsed) {
            (Some(new), Some(old)) => new != old,
            (Some(_), None) => true,
            (None, _) => false,
        }
    }

    /// Whether an update from `old_props` has anything to ask of the
    /// engine.
    pub fn asks_engine(&self, old_props: &SplitProps) -> (asks: bool)
        requires
            self@.follows(old_props@),
        ensures
            asks == self@.asks_engine(old_props@),
    {
        self.needs_recreate(old_props) || self.sizes_changed(old_props) || self.collapse_changed(
            old_props,
        )
    }
}

} // verus!
