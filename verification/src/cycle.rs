//! Whole cycles: the requests that one hook gives rise to when the host
//! answers each of them in turn, written out as sequences.

use crate::engine::{ActionView, EventView};
use crate::gutter::{all_positions, pane_positions, GutterFactory};
use crate::number::Number;
use crate::options::SplitOptionsView;
use crate::props::SplitPropsView;
use crate::split::StateView;
use vstd::prelude::*;

verus! {

/// What the host finds when the component asks: the sizes that the living
/// engine reports, and for each child of the container whether it carries
/// the gutter marker.
pub struct Surroundings {
    pub live: Seq<Number>,
    pub markers: Seq<bool>,
}

/// A cycle that has run its course: the requests made, in order, and the
/// state the component is left in.
pub struct Cycle {
    pub calls: Seq<ActionView>,
    pub end: StateView,
}

impl StateView {
    /// An upper bound on the number of reports that the state still takes.
    pub open spec fn steps_left(self) -> nat {
        match self {
            StateView::AwaitSizes { .. } => 6,
            StateView::AwaitDestroy { .. } => 5,
            StateView::AwaitChildren { .. } => 4,
            StateView::AwaitConstruct { .. } => 3,
            StateView::AwaitCall { collapse: Some(_) } => 2,
            StateView::AwaitCall { collapse: None } => 1,
            StateView::AwaitTeardown => 1,
            _ => 0,
        }
    }
}

/// The cycle that unfolds from `state` and the request `next` which the
/// component made on entering it: the host performs each request, reports
/// what it found in `around`, and the component resumes, until it asks for
/// nothing more.
pub open spec fn run(state: StateView, next: Option<ActionView>, around: Surroundings) -> Cycle
    decreases state.steps_left(),
{
    match next {
        None => Cycle { calls: Seq::empty(), end: state },
        Some(action) => {
            let event = action.answer(around.live, around.markers);
            if state.expects(event) {
                let step = state.resume(event);
                let rest = run(step.0, step.1, around);
                Cycle { calls: seq![action] + rest.calls, end: rest.end }
            } else {
                Cycle { calls: seq![action], end: state }
            }
        },
    }
}

/// The cycle of the first render of a component configured by `props`.
pub open spec fn mount_cycle(props: SplitPropsView, around: Surroundings) -> Cycle {
    let step = StateView::Mounted.rendered(props, true);
    run(step.0, step.1, around)
}

/// The cycle of an update from `old` to `new` on a component with a
/// living engine.
pub open spec fn update_cycle(
    new: SplitPropsView,
    old: SplitPropsView,
    around: Surroundings,
) -> Cycle {
    let step = StateView::Active.changed(new, old);
    run(step.0, step.1, around)
}

/// The cycle of a teardown.
pub open spec fn teardown_cycle(around: Surroundings) -> Cycle {
    let step = StateView::destroy();
    run(step.0, step.1, around)
}

/// The collapse of a pane, if one is due.
pub open spec fn collapse_calls(collapse: Option<usize>) -> Seq<ActionView> {
    match collapse {
        Some(index) => seq![ActionView::Collapse { index }],
        None => Seq::empty(),
    }
}

/// The requests of a first render: the children are read, the engine is
/// constructed over all of them, and the collapsed pane, if any, is
/// collapsed.
pub open spec fn mount_calls(props: SplitPropsView, around: Surroundings) -> Seq<ActionView> {
    seq![
        ActionView::ReadChildren,
        ActionView::Construct {
            elements: all_positions(around.markers.len()),
            options: props.options(),
        },
    ] + collapse_calls(props.collapsed)
}

/// The options that an engine is rebuilt with: those of the configuration,
/// with the sizes of the outgoing engine where the configuration gives
/// none, and with the reuse of the gutters that are already in place.
pub open spec fn recreate_options(new: SplitPropsView, live: Seq<Number>) -> SplitOptionsView {
    SplitOptionsView {
        sizes: if new.options().lacks_sizes() {
            Some(live)
        } else {
            new.sizes
        },
        gutter: Some(GutterFactory::ReuseExisting),
        ..new.options()
    }
}

/// The requests that rebuild the engine for `new`: the current sizes are
/// read if the configuration gives none; the engine is destroyed with
/// styles and gutters preserved; the children are read; the engine is
/// constructed over those of them that carry no gutter marker; and the
/// collapsed pane, if any, is collapsed.
pub open spec fn recreate_calls(new: SplitPropsView, around: Surroundings) -> Seq<ActionView> {
    (if new.options().lacks_sizes() {
        seq![ActionView::GetSizes]
    } else {
        Seq::empty()
    }) + seq![
        ActionView::Destroy { preserve_styles: true, preserve_gutter: true },
        ActionView::ReadChildren,
        ActionView::Construct {
            elements: pane_positions(around.markers),
            options: recreate_options(new, around.live),
        },
    ] + collapse_calls(new.collapsed)
}

/// The requests that adjust the living engine: the sizes are set if one of
/// them changed, and after that the collapsed pane of `new` is collapsed if
/// it is not the one that `old` names.
pub open spec fn adjust_calls(new: SplitPropsView, old: SplitPropsView) -> Seq<ActionView> {
    (if new.sizes_changed(old) {
        seq![ActionView::SetSizes { sizes: new.sizes.unwrap() }]
    } else {
        Seq::empty()
    }) + (if new.collapse_changed(old) {
        seq![ActionView::Collapse { index: new.collapsed.unwrap() }]
    } else {
        Seq::empty()
    })
}

/// The requests of an update from `old` to `new`.
pub open spec fn update_calls(
    new: SplitPropsView,
    old: SplitPropsView,
    around: Surroundings,
) -> Seq<ActionView> {
    if new.needs_recreate(old) {
        recreate_calls(new, around)
    } else {
        adjust_calls(new, old)
    }
}

/// The one request of a teardown: the engine is destroyed with nothing
/// preserved.
pub open spec fn teardown_calls() -> Seq<ActionView> {
    seq![ActionView::Destroy { preserve_styles: false, preserve_gutter: false }]
}

/// A first render makes the requests of `mount_calls` and leaves the
/// component at rest with a living engine.
pub proof fn lemma_mount_cycle(props: SplitPropsView, around: Surroundings)
    ensures
        mount_cycle(props, around).calls == mount_calls(props, around),
        mount_cycle(props, around).end == StateView::Active,
{
    reveal_with_fuel(run, 5);
    assert(mount_cycle(props, around).calls =~= mount_calls(props, around));
}

/// An update makes the requests of `update_calls` and leaves the component
/// at rest with a living engine.
pub proof fn lemma_update_cycle(new: SplitPropsView, old: SplitPropsView, around: Surroundings)
    ensures
        update_cycle(new, old, around).calls == update_calls(new, old, around),
        update_cycle(new, old, around).end == StateView::Active,
{
    reveal_with_fuel(run, 7);
    assert(update_cycle(new, old, around).calls =~= update_calls(new, old, around));
}

/// A teardown makes the one request of `teardown_calls` and leaves the
/// component unmounted.
pub proof fn lemma_teardown_cycle(around: Surroundings)
    ensures
        teardown_cycle(around).calls == teardown_calls(),
        teardown_cycle(around).end == StateView::Unmounted,
{
    reveal_with_fuel(run, 3);
    assert(teardown_cycle(around).calls =~= teardown_calls());
}

} // verus!
