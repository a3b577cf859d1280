//! The component: one engine instance per mounted node, built after the
//! first render, adjusted or rebuilt on every update, destroyed at teardown.

use crate::engine::{next_view, Action, ActionView, Event, EventView};
use crate::gutter::{all_positions, pane_positions, select_all, select_panes, GutterFactory};
use crate::options::{SplitOptions, SplitOptionsView};
use crate::props::{SplitProps, SplitPropsView};
use vstd::prelude::*;

verus! {

/// Where a component stands in its life.
#[derive(Clone, Copy, Debug, PartialEq, Eq, Structural)]
pub enum Phase {
    /// Not created yet, or torn down.
    Unmounted,
    /// The container exists; no engine instance is alive.
    MountedNoEngine,
    /// An engine instance is alive.
    MountedActive,
}

/// The state of a component: at rest, or waiting for the host's report on
/// the request it made last.
#[derive(Clone, Debug, PartialEq)]
pub enum State {
    /// Torn down.
    Unmounted,
    /// At rest, before the first render: no engine instance.
    Mounted,
    /// At rest, with an engine instance.
    Active,
    /// Waits for the sizes of the engine instance that is about to go.
    AwaitSizes { options: SplitOptions, collapsed: Option<usize> },
    /// Waits for the engine instance to be destroyed, to build the next.
    AwaitDestroy { options: SplitOptions, collapsed: Option<usize> },
    /// Waits for the children of the container. `panes_only` tells whether
    /// gutters may sit among them.
    AwaitChildren { options: SplitOptions, collapsed: Option<usize>, panes_only: bool },
    /// Waits for the new engine instance.
    AwaitConstruct { collapsed: Option<usize> },
    /// Waits for a call on the living engine instance to return, then has
    /// the pane `collapse` collapsed, if any.
    AwaitCall { collapse: Option<usize> },
    /// Waits for the engine instance to be destroyed for good.
    AwaitTeardown,
}

/// A state as a mathematical value.
pub enum StateView {
    Unmounted,
    Mounted,
    Active,
    AwaitSizes { options: SplitOptionsView, collapsed: Option<usize> },
    AwaitDestroy { options: SplitOptionsView, collapsed: Option<usize> },
    AwaitChildren { options: SplitOptionsView, collapsed: Option<usize>, panes_only: bool },
    AwaitConstruct { collapsed: Option<usize> },
    AwaitCall { collapse: Option<usize> },
    AwaitTeardown,
}

impl View for State {
    type V = StateView;

    open spec fn view(&self) -> StateView {
        match self {
            State::Unmounted => StateView::Unmounted,
            State::Mounted => StateView::Mounted,
            State::Active => StateView::Active,
            State::AwaitSizes { options, collapsed } => StateView::AwaitSizes {
                options: options@,
                collapsed: *collapsed,
            },
            State::AwaitDestroy { options, collapsed } => StateView::AwaitDestroy {
                options: options@,
                collapsed: *collapsed,
            },
            State::AwaitChildren { options, collapsed, panes_only } => StateView::AwaitChildren {
                options: options@,
                collapsed: *collapsed,
                panes_only: *panes_only,
            },
            State::AwaitConstruct { collapsed } => StateView::AwaitConstruct {
                collapsed: *collapsed,
            },
            State::AwaitCall { collapse } => StateView::AwaitCall { collapse: *collapse },
            State::AwaitTeardown => StateView::AwaitTeardown,
        }
    }
}

/// What follows a call on the living engine instance: the collapse of a
/// pane, if one is due, and rest after that.
pub open spec fn collapse_or_rest(collapse: Option<usize>) -> (StateView, Option<ActionView>) {
    match collapse {
        Some(index) => (
            StateView::AwaitCall { collapse: None },
            Some(ActionView::Collapse { index }),
        ),
        None => (StateView::Active, None),
    }
}

impl StateView {
    /// The phase of life that the state belongs to. An engine instance
    /// counts as alive from the report of its construction to the report of
    /// its destruction.
    pub open spec fn phase(self) -> Phase {
        match self {
            StateView::Unmounted => Phase::Unmounted,
            StateView::Mounted => Phase::MountedNoEngine,
            StateView::AwaitChildren { .. } => Phase::MountedNoEngine,
            StateView::AwaitConstruct { .. } => Phase::MountedNoEngine,
            _ => Phase::MountedActive,
        }
    }

    /// Whether the component is at rest: it waits for no report.
    pub open spec fn is_idle(self) -> bool {
        self is Unmounted || self is Mounted || self is Active
    }

    /// Whether `event` is the kind of report that the state waits for.
    pub open spec fn expects(self, event: EventView) -> bool {
        match self {
            StateView::Unmounted | StateView::Mounted | StateView::Active => false,
            StateView::AwaitSizes { .. } => event is Sizes,
            StateView::AwaitChildren { .. } => event is Children,
            _ => event is Done,
        }
    }

    /// The first render: the children of the container are asked for, to
    /// construct the engine over all of them with the options that `props`
    /// stands for. Any later render changes nothing.
    pub open spec fn rendered(self, props: SplitPropsView, first_render: bool) -> (
        StateView,
        Option<ActionView>,
    ) {
        if first_render {
            (
                StateView::AwaitChildren {
                    options: props.options(),
                    collapsed: props.collapsed,
                    panes_only: false,
                },
                Some(ActionView::ReadChildren),
            )
        } else {
            (self, None)
        }
    }

    /// An update from `old` to `new`.
    ///
    /// Where the engine has to go, its sizes are asked for first if `new`
    /// gives none, and its destruction otherwise. Where it can stay, the
    /// sizes are set if one of them changed, and after that, or else at
    /// once, the collapsed pane of `new` is collapsed if it is not the one
    /// that `old` names. Where nothing changed, nothing is asked for and
    /// the component stays as it is.
    pub open spec fn changed(self, new: SplitPropsView, old: SplitPropsView) -> (
        StateView,
        Option<ActionView>,
    ) {
        if new.needs_recreate(old) {
            if new.options().lacks_sizes() {
                (
                    StateView::AwaitSizes { options: new.options(), collapsed: new.collapsed },
                    Some(ActionView::GetSizes),
                )
            } else {
                (
                    StateView::AwaitDestroy { options: new.options(), collapsed: new.collapsed },
                    Some(ActionView::Destroy { preserve_styles: true, preserve_gutter: true }),
                )
            }
        } else if new.sizes_changed(old) {
            (
                StateView::AwaitCall {
                    collapse: if new.collapse_changed(old) {
                        new.collapsed
                    } else {
                        None
                    },
                },
                Some(ActionView::SetSizes { sizes: new.sizes.unwrap() }),
            )
        } else if new.collapse_changed(old) {
            (
                StateView::AwaitCall { collapse: None },
                Some(ActionView::Collapse { index: new.collapsed.unwrap() }),
            )
        } else {
            (self, None)
        }
    }

    /// Teardown: the engine instance is destroyed with nothing preserved.
    pub open spec fn destroy() -> (StateView, Option<ActionView>) {
        (
            StateView::AwaitTeardown,
            Some(ActionView::Destroy { preserve_styles: false, preserve_gutter: false }),
        )
    }

    /// The state after `event`, and the next request.
    ///
    /// The sizes that the outgoing engine reported become the sizes of the
    /// options, and the engine is destroyed with its styles and gutters
    /// preserved. Once it is gone, the gutter factory of the options gives
    /// way to the reuse of the gutters left behind, and the children are
    /// asked for. The next engine is constructed over the panes among them:
    /// over every child at the first render, over the children without the
    /// gutter marker after that. Once it stands, the collapsed pane of the
    /// configuration, if any, is collapsed.
    pub open spec fn resume(self, event: EventView) -> (StateView, Option<ActionView>) {
        match (self, event) {
            (StateView::AwaitSizes { options, collapsed }, EventView::Sizes(live)) => (
                StateView::AwaitDestroy {
                    options: SplitOptionsView { sizes: Some(live), ..options },
                    collapsed,
                },
                Some(ActionView::Destroy { preserve_styles: true, preserve_gutter: true }),
            ),
            (StateView::AwaitDestroy { options, collapsed }, EventView::Done) => (
                StateView::AwaitChildren {
                    options: SplitOptionsView {
                        gutter: Some(GutterFactory::ReuseExisting),
                        ..options
                    },
                    collapsed,
                    panes_only: true,
                },
                Some(ActionView::ReadChildren),
            ),
            (
                StateView::AwaitChildren { options, collapsed, panes_only },
                EventView::Children(markers),
            ) => (
                StateView::AwaitConstruct { collapsed },
                Some(
                    ActionView::Construct {
                        elements: if panes_only {
                            pane_positions(markers)
                        } else {
                            all_positions(markers.len())
                        },
                        options,
                    },
                ),
            ),
            (StateView::AwaitConstruct { collapsed }, EventView::Done) => collapse_or_rest(
                collapsed,
            ),
            (StateView::AwaitCall { collapse }, EventView::Done) => collapse_or_rest(collapse),
            (StateView::AwaitTeardown, EventView::Done) => (StateView::Unmounted, None),
            _ => (self, None),
        }
    }
}

/// A split component.
#[derive(Clone, Debug, PartialEq)]
pub struct Split {
    state: State,
}

impl View for Split {
    type V = StateView;

    closed spec fn view(&self) -> StateView {
        self.state@
    }
}

/// The exec counterpart of `collapse_or_rest`.
fn then_collapse(collapse: Option<usize>) -> (step: (State, Option<Action>))
    ensures
        (step.0@, next_view(step.1)) == collapse_or_rest(collapse),
{
    match collapse {
        Some(index) => (State::AwaitCall { collapse: None }, Some(Action::Collapse { index })),
        None => (State::Active, None),
    }
}

impl Split {
    /// A component whose container is about to be rendered: no engine yet.
    pub fn create() -> (split: Split)
        ensures
            split@ == StateView::Mounted,
    {
        Split { state: State::Mounted }
    }

    /// The state of the component.
    pub fn state(&self) -> (state: &State)
        ensures
            state@ == self@,
    {
        &self.state
    }

    /// The phase of life that the component is in.
    pub fn phase(&self) -> (phase: Phase)
        ensures
            phase == self@.phase(),
    {
        match &self.state {
            State::Unmounted => Phase::Unmounted,
            State::Mounted => Phase::MountedNoEngine,
            State::AwaitChildren { .. } => Phase::MountedNoEngine,
            State::AwaitConstruct { .. } => Phase::MountedNoEngine,
            _ => Phase::MountedActive,
        }
    }

    /// Whether the component waits for no report.
    pub fn is_idle(&self) -> (idle: bool)
        ensures
            idle == self@.is_idle(),
    {
        match &self.state {
            State::Unmounted => true,
            State::Mounted => true,
            State::Active => true,
            _ => false,
        }
    }

    /// Whether `event` is the kind of report that the component waits for.
    pub fn expects(&self, event: &Event) -> (expected: bool)
        ensures
            expected == self@.expects(event@),
    {
        match &self.state {
            State::Unmounted => false,
            State::Mounted => false,
            State::Active => false,
            State::AwaitSizes { .. } => match event {
                Event::Sizes(_) => true,
                _ => false,
            },
            State::AwaitChildren { .. } => match event {
                Event::Children(_) => true,
                _ => false,
            },
            _ => match event {
                Event::Done => true,
                _ => false,
            },
        }
    }

    /// The hook after a render was committed to the document. On the first
    /// render the component starts to build its engine.
    pub fn rendered(&mut self, props: &SplitProps, first_render: bool) -> (next: Option<Action>)
        requires
            first_render ==> old(self)@ is Mounted,
        ensures
            (final(self)@, next_view(next)) == old(self)@.rendered(props@, first_render),
    {
        if first_render {
            self.state = State::AwaitChildren {
                options: props.make_options_object(),
                collapsed: props.collapsed,
                panes_only: false,
            };
            Some(Action::ReadChildren)
        } else {
            None
        }
    }

    /// The hook on a change of configuration from `old_props` to `props`.
    /// An update that asks something of the engine takes a living engine;
    /// one that asks nothing may come at any time the component rests.
    pub fn changed(&mut self, props: &SplitProps, old_props: &SplitProps) -> (next: Option<Action>)
        requires
            old(self)@.is_idle(),
            props@.follows(old_props@),
            props@.asks_engine(old_props@) ==> old(self)@ is Active,
        ensures
            (final(self)@, next_view(next)) == old(self)@.changed(props@, old_props@),
    {
        if props.needs_recreate(old_props) {
            let options = props.make_options_object();
            if options.lacks_sizes() {
                self.state = State::AwaitSizes { options, collapsed: props.collapsed };
                Some(Action::GetSizes)
            } else {
                self.state = State::AwaitDestroy { options, collapsed: props.collapsed };
                Some(Action::Destroy { preserve_styles: true, preserve_gutter: true })
            }
        } else if props.sizes_changed(old_props) {
            let collapse = if props.collapse_changed(old_props) {
                props.collapsed
            } else {
                None
            };
            self.state = State::AwaitCall { collapse };
            match &props.sizes {
                Some(sizes) => Some(Action::SetSizes { sizes: crate::options::copy_numbers(sizes) }),
                None => None,
            }
        } else if props.collapse_changed(old_props) {
            self.state = State::AwaitCall { collapse: None };
            match props.collapsed {
                Some(index) => Some(Action::Collapse { index }),
                None => None,
            }
        } else {
            None
        }
    }

    /// The hook before the component is removed from the document.
    pub fn destroy(&mut self) -> (next: Option<Action>)
        requires
            old(self)@ is Active,
        ensures
            (final(self)@, next_view(next)) == StateView::destroy(),
    {
        self.state = State::AwaitTeardown;
        Some(Action::Destroy { preserve_styles: false, preserve_gutter: false })
    }

    /// Takes the host's report on the request made last and answers with
    /// the next request, or with `None` once the component is at rest.
    pub fn resume(&mut self, event: Event) -> (next: Option<Action>)
        requires
            old(self)@.expects(event@),
        ensures
            (final(self)@, next_view(next)) == old(self)@.resume(event@),
    {
        let mut state = State::Unmounted;
        core::mem::swap(&mut self.state, &mut state);
        match (state, event) {
            (State::AwaitSizes { options, collapsed }, Event::Sizes(live)) => {
                let mut options = options;
                options.sizes = Some(live);
                self.state = State::AwaitDestroy { options, collapsed };
                Some(Action::Destroy { preserve_styles: true, preserve_gutter: true })
            },
            (State::AwaitDestroy { options, collapsed }, Event::Done) => {
                let mut options = options;
                options.gutter = Some(GutterFactory::ReuseExisting);
                self.state = State::AwaitChildren { options, collapsed, panes_only: true };
                Some(Action::ReadChildren)
            },
            (State::AwaitChildren { options, collapsed, panes_only }, Event::Children(markers)) => {
                let elements = if panes_only {
                    select_panes(&markers)
                } else {
                    select_all(markers.len())
                };
                self.state = State::AwaitConstruct { collapsed };
                Some(Action::Construct { elements, options })
            },
            (State::AwaitConstruct { collapsed }, Event::Done) => {
                let (state, next) = then_collapse(collapsed);
                self.state = state;
                next
            },
            (State::AwaitCall { collapse }, Event::Done) => {
                let (state, next) = then_collapse(collapse);
                self.state = state;
                next
            },
            (State::AwaitTeardown, Event::Done) => {
                self.state = State::Unmounted;
                None
            },
            (state, _) => {
                self.state = state;
                None
            },
        }
    }
}

} // verus!
