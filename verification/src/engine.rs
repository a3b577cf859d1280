//! What the component asks of its surroundings, and what it hears back.
//!
//! The split engine offers five operations: construct an instance over a
//! list of elements, destroy it, read its current sizes, set its sizes, and
//! collapse a pane. The component names the operation it wants performed;
//! it performs none itself.

use crate::number::Number;
use crate::options::{SplitOptions, SplitOptionsView};
use vstd::prelude::*;

verus! {

/// One request of the component to its host.
#[derive(Clone, Debug, PartialEq)]
pub enum Action {
    /// Read the children of the container, in document order, and whether
    /// each carries the gutter marker. Answered by `Event::Children`.
    ReadChildren,
    /// Construct an engine instance over the children at the positions
    /// `elements`, taken from the children last read, with `options`.
    Construct { elements: Vec<usize>, options: SplitOptions },
    /// Destroy the engine instance, keeping the inline styles and the
    /// gutter elements it made as the two flags say.
    Destroy { preserve_styles: bool, preserve_gutter: bool },
    /// Read the current sizes of the panes from the engine instance.
    /// Answered by `Event::Sizes`.
    GetSizes,
    /// Apply `sizes` to the panes of the engine instance.
    SetSizes { sizes: Vec<Number> },
    /// Collapse the pane at `index` to its minimum size.
    Collapse { index: usize },
}

/// A request as a mathematical value.
pub enum ActionView {
    ReadChildren,
    Construct { elements: Seq<usize>, options: SplitOptionsView },
    Destroy { preserve_styles: bool, preserve_gutter: bool },
    GetSizes,
    SetSizes { sizes: Seq<Number> },
    Collapse { index: usize },
}

impl View for Action {
    type V = ActionView;

    open spec fn view(&self) -> ActionView {
        match self {
            Action::ReadChildren => ActionView::ReadChildren,
            Action::Construct { elements, options } => ActionView::Construct {
                elements: elements@,
                options: options@,
            },
            Action::Destroy { preserve_styles, preserve_gutter } => ActionView::Destroy {
                preserve_styles: *preserve_styles,
                preserve_gutter: *preserve_gutter,
            },
            Action::GetSizes => ActionView::GetSizes,
            Action::SetSizes { sizes } => ActionView::SetSizes { sizes: sizes@ },
            Action::Collapse { index } => ActionView::Collapse { index: *index },
        }
    }
}

/// The request that a hook answers with, if any, as a mathematical value.
pub open spec fn next_view(next: Option<Action>) -> Option<ActionView> {
    match next {
        Some(action) => Some(action@),
        None => None,
    }
}

/// What the host reports once it has performed a request.
#[derive(Clone, Debug, PartialEq)]
pub enum Event {
    /// The operation was performed; it has nothing to report.
    Done,
    /// For each child of the container, in document order, whether it
    /// carries the gutter marker.
    Children(Vec<bool>),
    /// The sizes that the engine reported.
    Sizes(Vec<Number>),
}

/// A report as a mathematical value.
pub enum EventView {
    Done,
    Children(Seq<bool>),
    Sizes(Seq<Number>),
}

impl View for Event {
    type V = EventView;

    open spec fn view(&self) -> EventView {
        match self {
            Event::Done => EventView::Done,
            Event::Children(markers) => EventView::Children(markers@),
            Event::Sizes(sizes) => EventView::Sizes(sizes@),
        }
    }
}

impl ActionView {
    /// The report that answers the request where the engine currently
    /// reports the sizes `live` and the children of the container carry the
    /// gutter marker as `markers` says.
    pub open spec fn answer(self, live: Seq<Number>, markers: Seq<bool>) -> EventView {
        match self {
            ActionView::ReadChildren => EventView::Children(markers),
            ActionView::GetSizes => EventView::Sizes(live),
            _ => EventView::Done,
        }
    }
}

} // verus!
