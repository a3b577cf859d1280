//! What holds of every component, whatever its configurations and whatever
//! the host finds around it.

use crate::cycle::{
    adjust_calls, collapse_calls, lemma_mount_cycle, lemma_teardown_cycle, lemma_update_cycle,
    mount_calls, mount_cycle, recreate_calls, recreate_options, teardown_calls, teardown_cycle,
    update_calls, update_cycle, Surroundings,
};
use crate::engine::ActionView;
use crate::gutter::{all_positions, lemma_pane_positions, pane_positions, GutterFactory};
use crate::number::Number;
use crate::options::SizeOptionView;
use crate::props::SplitPropsView;
use crate::split::StateView;
use crate::tokens::{Cursor, Direction, GutterAlign};
use vstd::prelude::*;

verus! {

/// By how much a request changes the number of living engine instances.
pub open spec fn engines_added(call: ActionView) -> int {
    match call {
        ActionView::Construct { .. } => 1,
        ActionView::Destroy { .. } => -1,
        _ => 0,
    }
}

/// The number of living engine instances after `calls`, where `alive` of
/// them lived before.
pub open spec fn engines_after(alive: int, calls: Seq<ActionView>) -> int
    decreases calls.len(),
{
    if calls.len() == 0 {
        alive
    } else {
        engines_after(alive, calls.drop_last()) + engines_added(calls.last())
    }
}

/// Whether at every point of `calls` there lives one engine instance or
/// none, where `alive` of them lived before.
pub open spec fn never_two(alive: int, calls: Seq<ActionView>) -> bool {
    forall|k: int| 0 <= k <= calls.len() ==> 0 <= #[trigger] engines_after(alive, calls.take(k)) <= 1
}

/// The requests of a mounted component up to now: those of its first
/// render under `configs[0]`, then those of each update from one entry of
/// `configs` to the next. `around[i]` is what the host finds during the
/// cycle that brings `configs[i]` into force.
pub open spec fn mounted_calls(configs: Seq<SplitPropsView>, around: Seq<Surroundings>) -> Seq<
    ActionView,
>
    decreases configs.len(),
{
    if configs.len() == 0 {
        Seq::empty()
    } else if configs.len() == 1 {
        mount_cycle(configs[0], around[0]).calls
    } else {
        mounted_calls(configs.drop_last(), around.drop_last()) + update_cycle(
            configs.last(),
            configs[configs.len() - 2],
            around[configs.len() - 1],
        ).calls
    }
}

/// The requests of a whole life: mount, updates, teardown.
pub open spec fn lifetime_calls(
    configs: Seq<SplitPropsView>,
    around: Seq<Surroundings>,
    at_teardown: Surroundings,
) -> Seq<ActionView> {
    mounted_calls(configs, around) + teardown_cycle(at_teardown).calls
}

proof fn lemma_engines_push(alive: int, calls: Seq<ActionView>, call: ActionView)
    requires
        never_two(alive, calls),
        0 <= engines_after(alive, calls) + engines_added(call) <= 1,
    ensures
        never_two(alive, calls.push(call)),
        engines_after(alive, calls.push(call)) == engines_after(alive, calls) + engines_added(call),
{
    let longer = calls.push(call);
    assert(longer.drop_last() =~= calls);
    assert forall|k: int| 0 <= k <= longer.len() implies 0 <= #[trigger] engines_after(
        alive,
        longer.take(k),
    ) <= 1 by {
        if k <= calls.len() {
            assert(longer.take(k) =~= calls.take(k));
        } else {
            assert(longer.take(k) =~= longer);
        }
    }
}

proof fn lemma_engines_none(alive: int)
    requires
        0 <= alive <= 1,
    ensures
        never_two(alive, Seq::empty()),
        engines_after(alive, Seq::empty()) == alive,
{
    assert forall|k: int| 0 <= k <= 0 implies 0 <= #[trigger] engines_after(
        alive,
        Seq::<ActionView>::empty().take(k),
    ) <= 1 by {
        assert(Seq::<ActionView>::empty().take(k) =~= Seq::<ActionView>::empty());
    }
}

proof fn lemma_engines_concat(alive: int, first: Seq<ActionView>, second: Seq<ActionView>)
    requires
        never_two(alive, first),
        never_two(engines_after(alive, first), second),
    ensures
        never_two(alive, first + second),
        engines_after(alive, first + second) == engines_after(
            engines_after(alive, first),
            second,
        ),
    decreases second.len(),
{
    if second.len() == 0 {
        assert(first + second =~= first);
    } else {
        let front = second.drop_last();
        assert forall|k: int| 0 <= k <= front.len() implies 0 <= #[trigger] engines_after(
            engines_after(alive, first),
            front.take(k),
        ) <= 1 by {
            assert(front.take(k) =~= second.take(k));
        }
        lemma_engines_concat(alive, first, front);
        let before = engines_after(alive, first);
        assert(second.take(second.len() as int) =~= second);
        assert(0 <= engines_after(before, second.take(second.len() as int)) <= 1);
        assert(engines_after(before, second) == engines_after(before, front) + engines_added(
            second.last(),
        ));
        assert((first + front).push(second.last()) =~= first + second);
        lemma_engines_push(alive, first + front, second.last());
    }
}

proof fn lemma_engines_collapse(alive: int, calls: Seq<ActionView>, collapse: Option<usize>)
    requires
        never_two(alive, calls),
        0 <= engines_after(alive, calls) <= 1,
    ensures
        never_two(alive, calls + collapse_calls(collapse)),
        engines_after(alive, calls + collapse_calls(collapse)) == engines_after(alive, calls),
{
    match collapse {
        Some(index) => {
            lemma_engines_push(alive, calls, ActionView::Collapse { index });
            assert(calls.push(ActionView::Collapse { index }) =~= calls + collapse_calls(collapse));
        },
        None => {
            assert(calls + collapse_calls(collapse) =~= calls);
        },
    }
}

/// A first render starts without an engine and ends with one.
pub proof fn lemma_mount_engines(props: SplitPropsView, around: Surroundings)
    ensures
        never_two(0, mount_calls(props, around)),
        engines_after(0, mount_calls(props, around)) == 1,
{
    let read = ActionView::ReadChildren;
    let construct = mount_calls(props, around)[1];
    lemma_engines_none(0);
    lemma_engines_push(0, Seq::empty(), read);
    lemma_engines_push(0, seq![read], construct);
    assert(seq![read].push(construct) =~= seq![read, construct]);
    lemma_engines_collapse(0, seq![read, construct], props.collapsed);
}

/// An update starts with one engine and ends with one.
pub proof fn lemma_update_engines(new: SplitPropsView, old: SplitPropsView, around: Surroundings)
    ensures
        never_two(1, update_calls(new, old, around)),
        engines_after(1, update_calls(new, old, around)) == 1,
{
    lemma_engines_none(1);
    if new.needs_recreate(old) {
        let head = if new.options().lacks_sizes() {
            seq![ActionView::GetSizes]
        } else {
            Seq::empty()
        };
        if new.options().lacks_sizes() {
            lemma_engines_push(1, Seq::empty(), ActionView::GetSizes);
            assert(Seq::<ActionView>::empty().push(ActionView::GetSizes) =~= head);
        }
        let destroy = ActionView::Destroy { preserve_styles: true, preserve_gutter: true };
        let construct = ActionView::Construct {
            elements: pane_positions(around.markers),
            options: recreate_options(new, around.live),
        };
        lemma_engines_push(1, head, destroy);
        lemma_engines_push(1, head.push(destroy), ActionView::ReadChildren);
        lemma_engines_push(1, head.push(destroy).push(ActionView::ReadChildren), construct);
        let body = head.push(destroy).push(ActionView::ReadChildren).push(construct);
        assert(body =~= head + seq![destroy, ActionView::ReadChildren, construct]);
        lemma_engines_collapse(1, body, new.collapsed);
    } else {
        let sizes = if new.sizes_changed(old) {
            seq![ActionView::SetSizes { sizes: new.sizes.unwrap() }]
        } else {
            Seq::empty()
        };
        if new.sizes_changed(old) {
            lemma_engines_push(1, Seq::empty(), ActionView::SetSizes { sizes: new.sizes.unwrap() });
            assert(Seq::<ActionView>::empty().push(
                ActionView::SetSizes { sizes: new.sizes.unwrap() },
            ) =~= sizes);
        }
        lemma_engines_collapse(
            1,
            sizes,
            if new.collapse_changed(old) {
                new.collapsed
            } else {
                None
            },
        );
        assert(adjust_calls(new, old) =~= sizes + collapse_calls(
            if new.collapse_changed(old) {
                new.collapsed
            } else {
                None
            },
        ));
    }
}

proof fn lemma_mounted_engines(configs: Seq<SplitPropsView>, around: Seq<Surroundings>)
    requires
        configs.len() >= 1,
    ensures
        never_two(0, mounted_calls(configs, around)),
        engines_after(0, mounted_calls(configs, around)) == 1,
    decreases configs.len(),
{
    if configs.len() == 1 {
        lemma_mount_cycle(configs[0], around[0]);
        lemma_mount_engines(configs[0], around[0]);
    } else {
        let last = configs.len() - 1;
        lemma_mounted_engines(configs.drop_last(), around.drop_last());
        lemma_update_cycle(configs[last], configs[last - 1], around[last]);
        lemma_update_engines(configs[last], configs[last - 1], around[last]);
        lemma_engines_concat(
            0,
            mounted_calls(configs.drop_last(), around.drop_last()),
            update_cycle(configs[last], configs[last - 1], around[last]).calls,
        );
    }
}

/// One engine at a time. Through a whole life of a component, from its
/// first render through any number of updates to its teardown, there is at
/// every point one living engine instance or none; there is exactly one
/// whenever the component rests between two hooks, and none once it is
/// torn down. The first render constructs one instance and destroys none.
pub proof fn law_single_engine(
    configs: Seq<SplitPropsView>,
    around: Seq<Surroundings>,
    at_teardown: Surroundings,
)
    requires
        configs.len() >= 1,
    ensures
        never_two(0, mounted_calls(configs, around)),
        engines_after(0, mounted_calls(configs, around)) == 1,
        never_two(0, lifetime_calls(configs, around, at_teardown)),
        engines_after(0, lifetime_calls(configs, around, at_teardown)) == 0,
        mount_cycle(configs[0], around[0]).calls.filter(|c: ActionView| c is Construct).len() == 1,
        mount_cycle(configs[0], around[0]).calls.filter(|c: ActionView| c is Destroy).len() == 0,
{
    lemma_mounted_engines(configs, around);
    lemma_teardown_cycle(at_teardown);
    let destroy = ActionView::Destroy { preserve_styles: false, preserve_gutter: false };
    lemma_engines_none(1);
    lemma_engines_push(1, Seq::empty(), destroy);
    assert(Seq::<ActionView>::empty().push(destroy) =~= teardown_calls());
    lemma_engines_concat(0, mounted_calls(configs, around), teardown_calls());
    lemma_mount_cycle(configs[0], around[0]);
    lemma_mount_counts(configs[0], around[0]);
}

proof fn lemma_mount_counts(props: SplitPropsView, around: Surroundings)
    ensures
        mount_calls(props, around).filter(|c: ActionView| c is Construct).len() == 1,
        mount_calls(props, around).filter(|c: ActionView| c is Destroy).len() == 0,
{
    let calls = mount_calls(props, around);
    let is_construct = |c: ActionView| c is Construct;
    let is_destroy = |c: ActionView| c is Destroy;
    reveal_with_fuel(Seq::filter, 4);
    let two = seq![calls[0], calls[1]];
    assert(two.drop_last() =~= seq![calls[0]]);
    assert(seq![calls[0]].drop_last() =~= Seq::<ActionView>::empty());
    assert(two.filter(is_construct) =~= seq![calls[1]]);
    assert(two.filter(is_destroy) =~= Seq::<ActionView>::empty());
    match props.collapsed {
        Some(index) => {
            assert(calls.drop_last() =~= two);
        },
        None => {
            assert(calls =~= two);
        },
    }
}

/// Nothing changed, nothing done. An update between two configurations
/// that are equal field by field is admissible, asks nothing of the
/// engine, and leaves the component as it was, whatever state it is in.
pub proof fn law_equal_configurations_do_nothing(
    state: StateView,
    new: SplitPropsView,
    old: SplitPropsView,
    around: Surroundings,
)
    requires
        new.same_as(old),
    ensures
        new.follows(old),
        !new.asks_engine(old),
        state.changed(new, old) == (state, None::<ActionView>),
        update_cycle(new, old, around).calls == Seq::<ActionView>::empty(),
{
    lemma_update_cycle(new, old, around);
    assert(update_calls(new, old, around) =~= Seq::<ActionView>::empty());
}

/// Sizes are adjusted in place. Where nothing calls for a new engine, an
/// update neither destroys nor constructs one; it sets the sizes, to the
/// whole new list, exactly when one of them changed, and that is its first
/// request.
pub proof fn law_sizes_adjust_in_place(
    new: SplitPropsView,
    old: SplitPropsView,
    around: Surroundings,
)
    requires
        !new.needs_recreate(old),
    ensures
        forall|k: int|
            0 <= k < update_cycle(new, old, around).calls.len() ==> {
                let call = #[trigger] update_cycle(new, old, around).calls[k];
                !(call is Construct) && !(call is Destroy) && !(call is GetSizes)
            },
        new.sizes_changed(old) ==> update_cycle(new, old, around).calls[0]
            == (ActionView::SetSizes { sizes: new.sizes.unwrap() }),
        forall|k: int|
            0 <= k < update_cycle(new, old, around).calls.len() && (#[trigger] update_cycle(
                new,
                old,
                around,
            ).calls[k]) is SetSizes ==> k == 0 && new.sizes_changed(old),
{
    lemma_update_cycle(new, old, around);
}

/// A newly named pane is collapsed in place. Where nothing calls for a new
/// engine, an update collapses a pane exactly when the new configuration
/// names one and the old configuration does not name the same: it then
/// asks for that one collapse, as its last request, after the sizes are
/// set if they are. A collapsed pane that stays, or that is named no
/// longer, is never asked for.
pub proof fn law_collapse_in_place(new: SplitPropsView, old: SplitPropsView, around: Surroundings)
    requires
        !new.needs_recreate(old),
    ensures
        ({
            let calls = update_cycle(new, old, around).calls;
            let due = new.collapsed is Some && new.collapsed != old.collapsed;
            &&& due ==> calls.len() >= 1 && calls.last() == (ActionView::Collapse {
                index: new.collapsed.unwrap(),
            })
            &&& forall|k: int|
                0 <= k < calls.len() && (#[trigger] calls[k]) is Collapse ==> due && k
                    == calls.len() - 1
        }),
{
    lemma_update_cycle(new, old, around);
}

/// A new engine replaces the old one in one stroke. Where an update calls
/// for a new engine, its requests are, in this order: the current sizes,
/// if the configuration gives none; the destruction of the engine with
/// styles and gutters preserved; the children; and the construction of the
/// next engine. The options of the construction hold the tokens of the new
/// configuration, the sizes that the old engine reported where the
/// configuration gives none, and the reuse of the gutters in place.
pub proof fn law_recreate_replaces_engine(
    new: SplitPropsView,
    old: SplitPropsView,
    around: Surroundings,
)
    requires
        new.needs_recreate(old),
    ensures
        ({
            let calls = update_cycle(new, old, around).calls;
            let at: int = if new.options().lacks_sizes() {
                1
            } else {
                0
            };
            &&& calls.len() == at + 3 + collapse_calls(new.collapsed).len()
            &&& at == 1 ==> calls[0] == ActionView::GetSizes
            &&& calls[at] == (ActionView::Destroy { preserve_styles: true, preserve_gutter: true })
            &&& calls[at + 1] == ActionView::ReadChildren
            &&& calls[at + 2] == (ActionView::Construct {
                elements: pane_positions(around.markers),
                options: recreate_options(new, around.live),
            })
            &&& forall|k: int|
                0 <= k < calls.len() && k != at ==> !((#[trigger] calls[k]) is Destroy)
            &&& forall|k: int|
                0 <= k < calls.len() && k != at + 2 ==> !((#[trigger] calls[k]) is Construct)
        }),
        recreate_options(new, around.live).direction == new.options().direction,
        new.direction matches Some(d) ==> recreate_options(new, around.live).direction == Some(
            d.token(),
        ),
        new.sizes is None ==> recreate_options(new, around.live).sizes == Some(around.live),
        recreate_options(new, around.live).gutter == Some(GutterFactory::ReuseExisting),
{
    lemma_update_cycle(new, old, around);
}

/// A list per pane displaces the scalar. Where a configuration lists the
/// minimum sizes per pane, the options hold that list whatever the scalar
/// minimum size is; the same goes for the maximum sizes.
pub proof fn law_list_displaces_scalar(props: SplitPropsView)
    ensures
        props.min_sizes matches Some(list) ==> props.options().min_size == Some(
            SizeOptionView::PerPane(list),
        ),
        props.max_sizes matches Some(list) ==> props.options().max_size == Some(
            SizeOptionView::PerPane(list),
        ),
{
}

/// A list on one side only forces a new engine. Where exactly one of two
/// configurations lists the minimum sizes per pane, the update between
/// them calls for a new engine, whatever else they hold.
pub proof fn law_list_presence_forces_recreate(new: SplitPropsView, old: SplitPropsView)
    requires
        (new.min_sizes is Some) != (old.min_sizes is Some),
    ensures
        new.needs_recreate(old),
{
}

/// Collapse follows construction. Where an update calls for a new engine
/// and the new configuration names a collapsed pane, the last request of
/// the update collapses that pane, and the request before it constructs
/// the engine, whether or not the collapsed pane changed.
pub proof fn law_collapse_after_recreate(
    new: SplitPropsView,
    old: SplitPropsView,
    around: Surroundings,
    index: usize,
)
    requires
        new.needs_recreate(old),
        new.collapsed == Some(index),
    ensures
        ({
            let calls = update_cycle(new, old, around).calls;
            &&& calls.len() >= 4
            &&& calls[calls.len() - 1] == (ActionView::Collapse { index })
            &&& calls[calls.len() - 2] is Construct
        }),
{
    lemma_update_cycle(new, old, around);
}

/// Teardown preserves nothing; an update preserves everything. The one
/// request of a teardown destroys the engine with neither styles nor
/// gutters preserved, and every destruction in the course of an update
/// preserves both.
pub proof fn law_teardown_is_clean(
    new: SplitPropsView,
    old: SplitPropsView,
    around: Surroundings,
)
    ensures
        teardown_cycle(around).calls == seq![
            ActionView::Destroy { preserve_styles: false, preserve_gutter: false },
        ],
        forall|k: int|
            0 <= k < update_cycle(new, old, around).calls.len() && (#[trigger] update_cycle(
                new,
                old,
                around,
            ).calls[k]) is Destroy ==> update_cycle(new, old, around).calls[k] == (
            ActionView::Destroy { preserve_styles: true, preserve_gutter: true }),
{
    lemma_teardown_cycle(around);
    lemma_update_cycle(new, old, around);
}

/// No gutter among the panes. Every engine that an update constructs is
/// constructed over children that carry no gutter marker, over all such
/// children, and in document order.
pub proof fn law_gutters_excluded(
    new: SplitPropsView,
    old: SplitPropsView,
    around: Surroundings,
)
    requires
        around.markers.len() <= usize::MAX,
    ensures
        forall|k: int|
            0 <= k < update_cycle(new, old, around).calls.len() ==> (#[trigger] update_cycle(
                new,
                old,
                around,
            ).calls[k] matches ActionView::Construct { elements, .. } ==> {
                &&& elements == pane_positions(around.markers)
                &&& forall|j: int|
                    0 <= j < elements.len() ==> (#[trigger] elements[j]) < around.markers.len()
                        && !around.markers[elements[j] as int]
                &&& forall|i: int|
                    0 <= i < around.markers.len() && !#[trigger] around.markers[i]
                        ==> elements.contains(i as usize)
                &&& forall|i: int, j: int|
                    0 <= i < j < elements.len() ==> elements[i] < elements[j]
            }),
{
    lemma_update_cycle(new, old, around);
    lemma_pane_positions(around.markers);
}

/// Before the engine has made a gutter, every child is a pane. Where no
/// child carries the gutter marker, the panes are all the children, so the
/// first render and a later rebuild select alike.
pub proof fn law_without_gutters_all_are_panes(markers: Seq<bool>)
    requires
        markers.len() <= usize::MAX,
        forall|i: int| 0 <= i < markers.len() ==> !markers[i],
    ensures
        pane_positions(markers) == all_positions(markers.len()),
    decreases markers.len(),
{
    if markers.len() > 0 {
        law_without_gutters_all_are_panes(markers.drop_last());
    }
    assert(pane_positions(markers) =~= all_positions(markers.len()));
}

/// Numbers compare as numbers. Equality is symmetric; a number equals
/// itself unless it is a NaN; and the two zeros are equal although their
/// bit patterns differ.
pub proof fn law_number_equality(a: Number, b: Number)
    ensures
        a.equals(b) == b.equals(a),
        a.equals(a) == !a.is_nan(),
        (Number { bits: 0 }).equals(Number { bits: 0x8000_0000_0000_0000 }),
{
}

/// Tokens name their settings. No two alignments, no two directions and no
/// two cursors share a token.
pub proof fn law_tokens_distinct(
    a: GutterAlign,
    b: GutterAlign,
    d: Direction,
    e: Direction,
    c: Cursor,
    f: Cursor,
)
    ensures
        a.token() == b.token() ==> a == b,
        d.token() == e.token() ==> d == e,
        c.token() == f.token() ==> c == f,
{
    reveal_strlit("start");
    reveal_strlit("end");
    reveal_strlit("center");
    reveal_strlit("vertical");
    reveal_strlit("horizontal");
    reveal_strlit("col-resize");
    reveal_strlit("row-resize");
    // Tokens of one kind differ in length or in their first character.
    assert("start"@.len() == 5 && "end"@.len() == 3 && "center"@.len() == 6);
    assert("vertical"@.len() == 8 && "horizontal"@.len() == 10);
    assert("col-resize"@[0] == 'c' && "row-resize"@[0] == 'r');
}

} // verus!
