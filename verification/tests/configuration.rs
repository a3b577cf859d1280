use yew_split::{
    Callback, Cursor, Direction, GutterAlign, GutterFactory, Number, OptionEntry, OptionValue,
    SizeOption, SplitOptions, SplitProps, UpdateFault,
};

fn n(value: f64) -> Number {
    Number::from_bits(value.to_bits())
}

fn list(values: &[f64]) -> Option<Vec<Number>> {
    Some(values.iter().map(|v| n(*v)).collect())
}

fn entry(key: &str, value: OptionValue) -> OptionEntry {
    OptionEntry { key: key.to_string(), value }
}

#[test]
fn empty_configuration_sets_nothing_but_the_gutter() {
    let options = SplitProps::new().make_options_object();
    let mut expected = SplitOptions::new();
    expected.gutter = Some(GutterFactory::Fresh);
    assert_eq!(options, expected);
    assert!(options.lacks_sizes());
}

#[test]
fn options_copy_every_setting() {
    let mut props = SplitProps::new();
    props.sizes = list(&[25.0, 75.0]);
    props.min_size = Some(n(100.0));
    props.max_size = Some(n(900.0));
    props.expand_to_min = Some(true);
    props.gutter_size = Some(n(10.0));
    props.gutter_align = Some(GutterAlign::Center);
    props.snap_offset = Some(n(30.0));
    props.drag_interval = Some(n(1.0));
    props.direction = Some(Direction::Horizontal);
    props.cursor = Some(Cursor::ColResize);
    props.gutter = GutterFactory::Custom(Callback { id: 9 });
    props.element_style = Some(Callback { id: 1 });
    props.gutter_style = Some(Callback { id: 2 });
    props.on_drag = Some(Callback { id: 3 });
    props.on_drag_start = Some(Callback { id: 4 });
    props.on_drag_end = Some(Callback { id: 5 });
    props.collapsed = Some(1);

    let options = props.make_options_object();
    assert_eq!(options.sizes, list(&[25.0, 75.0]));
    assert_eq!(options.min_size, Some(SizeOption::Uniform(n(100.0))));
    assert_eq!(options.max_size, Some(SizeOption::Uniform(n(900.0))));
    assert_eq!(options.expand_to_min, Some(true));
    assert_eq!(options.gutter_size, Some(n(10.0)));
    assert_eq!(options.gutter_align, Some("center".to_string()));
    assert_eq!(options.snap_offset, Some(n(30.0)));
    assert_eq!(options.drag_interval, Some(n(1.0)));
    assert_eq!(options.direction, Some("horizontal".to_string()));
    assert_eq!(options.cursor, Some("col-resize".to_string()));
    assert_eq!(options.gutter, Some(GutterFactory::Custom(Callback { id: 9 })));
    assert_eq!(options.element_style, Some(Callback { id: 1 }));
    assert_eq!(options.gutter_style, Some(Callback { id: 2 }));
    assert_eq!(options.on_drag, Some(Callback { id: 3 }));
    assert_eq!(options.on_drag_start, Some(Callback { id: 4 }));
    assert_eq!(options.on_drag_end, Some(Callback { id: 5 }));
    assert!(!options.lacks_sizes());
}

#[test]
fn min_sizes_take_precedence_over_min_size() {
    let mut props = SplitProps::new();
    props.min_size = Some(n(100.0));
    props.min_sizes = list(&[50.0, 150.0]);
    let options = props.make_options_object();
    assert_eq!(options.min_size, Some(SizeOption::PerPane(vec![n(50.0), n(150.0)])));
    assert_ne!(options.min_size, Some(SizeOption::Uniform(n(100.0))));
}

#[test]
fn max_sizes_take_precedence_over_max_size() {
    let mut props = SplitProps::new();
    props.max_size = Some(n(400.0));
    props.max_sizes = list(&[300.0, 500.0]);
    let options = props.make_options_object();
    assert_eq!(options.max_size, Some(SizeOption::PerPane(vec![n(300.0), n(500.0)])));
}

#[test]
fn empty_sizes_count_as_lacking() {
    let mut props = SplitProps::new();
    props.sizes = Some(Vec::new());
    let options = props.make_options_object();
    assert_eq!(options.sizes, Some(Vec::new()));
    assert!(options.lacks_sizes());
}

#[test]
fn set_option_writes_what_is_present() {
    let mut slot: Option<u32> = None;
    SplitProps::set_option(&mut slot, &Some(20u32), |v: &u32| *v + 1);
    assert_eq!(slot, Some(21));
}

#[test]
fn set_option_leaves_the_slot_when_absent() {
    let mut slot: Option<u32> = Some(5);
    SplitProps::set_option(&mut slot, &None::<u32>, |v: &u32| *v + 1);
    assert_eq!(slot, Some(5));
    let mut empty: Option<String> = None;
    SplitProps::set_option(&mut empty, &None::<Direction>, |d: &Direction| d.to_string());
    assert_eq!(empty, None);
}

#[test]
fn equal_configurations_change_nothing() {
    let mut old = SplitProps::new();
    old.sizes = list(&[50.0, 50.0]);
    old.min_sizes = list(&[10.0, 10.0]);
    old.max_sizes = list(&[90.0, 90.0]);
    old.direction = Some(Direction::Vertical);
    old.collapsed = Some(0);
    let new = old.clone();
    assert!(new == old);
    assert_eq!(new.update_fault(&old), None);
    assert!(!new.other_props_changed(&old));
    assert!(!new.needs_recreate(&old));
    assert!(!new.sizes_changed(&old));
    assert!(!new.collapse_changed(&old));
}

#[test]
fn each_engine_setting_counts_as_a_change() {
    let old = SplitProps::new();

    let mut new = SplitProps::new();
    new.max_size = Some(n(500.0));
    assert!(new.other_props_changed(&old));

    let mut new = SplitProps::new();
    new.max_sizes = list(&[500.0, 500.0]);
    assert!(new.other_props_changed(&old));

    let mut new = SplitProps::new();
    new.expand_to_min = Some(false);
    assert!(new.other_props_changed(&old));

    let mut new = SplitProps::new();
    new.gutter_size = Some(n(10.0));
    assert!(new.other_props_changed(&old));

    let mut new = SplitProps::new();
    new.gutter_align = Some(GutterAlign::Start);
    assert!(new.other_props_changed(&old));

    let mut new = SplitProps::new();
    new.snap_offset = Some(n(30.0));
    assert!(new.other_props_changed(&old));

    let mut new = SplitProps::new();
    new.drag_interval = Some(n(1.0));
    assert!(new.other_props_changed(&old));

    let mut new = SplitProps::new();
    new.direction = Some(Direction::Vertical);
    assert!(new.other_props_changed(&old));

    let mut new = SplitProps::new();
    new.cursor = Some(Cursor::RowResize);
    assert!(new.other_props_changed(&old));
}

#[test]
fn other_settings_leave_the_engine_alone() {
    let old = SplitProps::new();
    let mut new = SplitProps::new();
    new.sizes = list(&[30.0, 70.0]);
    new.min_size = Some(n(5.0));
    new.min_sizes = list(&[5.0, 5.0]);
    new.gutter = GutterFactory::Custom(Callback { id: 1 });
    new.element_style = Some(Callback { id: 2 });
    new.gutter_style = Some(Callback { id: 3 });
    new.on_drag = Some(Callback { id: 4 });
    new.on_drag_start = Some(Callback { id: 5 });
    new.on_drag_end = Some(Callback { id: 6 });
    new.collapsed = Some(1);
    assert!(!new.other_props_changed(&old));
}

#[test]
fn changed_settings_between_present_values() {
    let mut old = SplitProps::new();
    old.max_size = Some(n(500.0));
    old.max_sizes = list(&[100.0, 200.0]);
    old.direction = Some(Direction::Horizontal);
    let mut new = old.clone();
    assert!(!new.other_props_changed(&old));
    new.max_size = Some(n(501.0));
    assert!(new.other_props_changed(&old));
    new.max_size = Some(n(500.0));
    new.max_sizes = list(&[100.0, 201.0]);
    assert!(new.other_props_changed(&old));
    new.max_sizes = None;
    assert!(new.other_props_changed(&old));
    new.max_sizes = list(&[100.0, 200.0]);
    new.direction = Some(Direction::Vertical);
    assert!(new.other_props_changed(&old));
}

#[test]
fn min_sizes_on_one_side_force_a_new_engine() {
    let mut old = SplitProps::new();
    old.min_sizes = list(&[50.0, 50.0]);
    let new = SplitProps::new();
    assert_eq!(new.update_fault(&old), None);
    assert!(!new.other_props_changed(&old));
    assert!(new.needs_recreate(&old));
    // The other way round as well.
    assert_eq!(old.update_fault(&new), None);
    assert!(old.needs_recreate(&new));
}

#[test]
fn min_sizes_decide_where_both_sides_list_them() {
    let mut old = SplitProps::new();
    old.min_size = Some(n(1.0));
    old.min_sizes = list(&[50.0, 50.0]);
    let mut new = SplitProps::new();
    new.min_size = Some(n(2.0));
    new.min_sizes = list(&[50.0, 50.0]);
    // The scalar differs, but the lists decide.
    assert!(!new.needs_recreate(&old));
    new.min_sizes = list(&[50.0, 60.0]);
    assert!(new.needs_recreate(&old));
}

#[test]
fn min_size_decides_where_neither_side_lists() {
    let mut old = SplitProps::new();
    old.min_size = Some(n(100.0));
    let mut new = SplitProps::new();
    new.min_size = Some(n(100.0));
    assert!(!new.needs_recreate(&old));
    new.min_size = Some(n(120.0));
    assert!(new.needs_recreate(&old));
    new.min_size = None;
    assert!(new.needs_recreate(&old));
}

#[test]
fn a_shorter_list_is_compared_as_far_as_it_goes() {
    let mut old = SplitProps::new();
    old.min_sizes = list(&[50.0, 50.0, 80.0]);
    let mut new = SplitProps::new();
    new.min_sizes = list(&[50.0, 50.0]);
    assert_eq!(new.update_fault(&old), None);
    assert!(!new.needs_recreate(&old));
}

#[test]
fn a_nan_always_counts_as_changed() {
    let mut old = SplitProps::new();
    old.gutter_size = Some(n(f64::NAN));
    let new = old.clone();
    assert!(new != old);
    assert!(new.other_props_changed(&old));
    assert!(new.needs_recreate(&old));
}

#[test]
fn zeros_of_either_sign_are_unchanged() {
    let mut old = SplitProps::new();
    old.snap_offset = Some(n(0.0));
    old.sizes = list(&[0.0, 100.0]);
    let mut new = SplitProps::new();
    new.snap_offset = Some(n(-0.0));
    new.sizes = list(&[-0.0, 100.0]);
    assert!(!new.needs_recreate(&old));
    assert!(!new.sizes_changed(&old));
}

#[test]
fn update_fault_names_the_list() {
    let mut old = SplitProps::new();
    old.min_sizes = list(&[50.0]);
    old.max_sizes = list(&[90.0]);
    old.sizes = list(&[100.0]);

    let mut new = old.clone();
    new.min_sizes = list(&[50.0, 50.0]);
    new.max_sizes = list(&[90.0, 90.0]);
    assert_eq!(new.update_fault(&old), Some(UpdateFault::MinSizes));

    let mut new = old.clone();
    new.max_sizes = list(&[90.0, 90.0]);
    assert_eq!(new.update_fault(&old), Some(UpdateFault::MaxSizes));

    let mut new = old.clone();
    new.sizes = list(&[50.0, 50.0]);
    assert_eq!(new.update_fault(&old), Some(UpdateFault::Sizes));

    // New sizes where there were none, and the engine stays.
    let old = SplitProps::new();
    let mut new = SplitProps::new();
    new.sizes = list(&[50.0, 50.0]);
    assert_eq!(new.update_fault(&old), Some(UpdateFault::Sizes));

    // The same sizes are no fault where the engine goes anyway.
    new.direction = Some(Direction::Vertical);
    assert_eq!(new.update_fault(&old), None);
}

#[test]
fn sizes_change_element_by_element() {
    let mut old = SplitProps::new();
    old.sizes = list(&[50.0, 50.0]);
    let mut new = SplitProps::new();
    new.sizes = list(&[50.0, 50.0]);
    assert!(!new.sizes_changed(&old));
    new.sizes = list(&[30.0, 70.0]);
    assert!(new.sizes_changed(&old));
    new.sizes = list(&[50.0, 50.1]);
    assert!(new.sizes_changed(&old));
    new.sizes = None;
    assert!(!new.sizes_changed(&old));
}

#[test]
fn collapse_changes_where_a_new_pane_is_named() {
    let mut old = SplitProps::new();
    let mut new = SplitProps::new();
    new.collapsed = Some(1);
    // Appears.
    assert!(new.collapse_changed(&old));
    // Stays.
    old.collapsed = Some(1);
    assert!(!new.collapse_changed(&old));
    // Moves.
    old.collapsed = Some(0);
    assert!(new.collapse_changed(&old));
    // Disappears.
    new.collapsed = None;
    assert!(!new.collapse_changed(&old));
    // Was never there.
    old.collapsed = None;
    assert!(!new.collapse_changed(&old));
}

#[test]
fn asks_engine_for_recreation_sizes_or_collapse() {
    let mut old = SplitProps::new();
    old.sizes = list(&[50.0, 50.0]);
    let same = old.clone();
    assert!(!same.asks_engine(&old));

    let mut new = old.clone();
    new.sizes = list(&[30.0, 70.0]);
    assert!(new.asks_engine(&old));

    let mut new = old.clone();
    new.collapsed = Some(0);
    assert!(new.asks_engine(&old));

    let mut new = old.clone();
    new.gutter_size = Some(n(8.0));
    assert!(new.asks_engine(&old));

    let mut new = old.clone();
    new.element_style = Some(Callback { id: 1 });
    new.gutter = GutterFactory::Custom(Callback { id: 0 });
    assert!(!new.asks_engine(&old));
}

#[test]
fn entries_leave_out_what_is_not_set() {
    assert_eq!(SplitOptions::new().entries(), Vec::<OptionEntry>::new());
    let options = SplitProps::new().make_options_object();
    assert_eq!(options.entries(), vec![entry("gutter", OptionValue::Gutter(GutterFactory::Fresh))]);
}

#[test]
fn entries_serialize_min_sizes_under_min_size() {
    let mut props = SplitProps::new();
    props.min_size = Some(n(100.0));
    props.min_sizes = list(&[50.0, 150.0]);
    let entries = props.make_options_object().entries();
    assert_eq!(
        entries,
        vec![
            entry("minSize", OptionValue::Numbers(vec![n(50.0), n(150.0)])),
            entry("gutter", OptionValue::Gutter(GutterFactory::Fresh)),
        ]
    );
    assert!(!entries.iter().any(|e| e.value == OptionValue::Number(n(100.0))));
}

#[test]
fn entries_name_every_option() {
    let mut props = SplitProps::new();
    props.sizes = list(&[25.0, 75.0]);
    props.min_size = Some(n(100.0));
    props.max_sizes = list(&[300.0, 500.0]);
    props.expand_to_min = Some(false);
    props.gutter_size = Some(n(10.0));
    props.gutter_align = Some(GutterAlign::End);
    props.snap_offset = Some(n(30.0));
    props.drag_interval = Some(n(1.0));
    props.direction = Some(Direction::Vertical);
    props.cursor = Some(Cursor::RowResize);
    props.gutter = GutterFactory::Custom(Callback { id: 0 });
    props.element_style = Some(Callback { id: 1 });
    props.gutter_style = Some(Callback { id: 2 });
    props.on_drag = Some(Callback { id: 3 });
    props.on_drag_start = Some(Callback { id: 4 });
    props.on_drag_end = Some(Callback { id: 5 });
    assert_eq!(
        props.make_options_object().entries(),
        vec![
            entry("sizes", OptionValue::Numbers(vec![n(25.0), n(75.0)])),
            entry("minSize", OptionValue::Number(n(100.0))),
            entry("maxSize", OptionValue::Numbers(vec![n(300.0), n(500.0)])),
            entry("expandToMin", OptionValue::Flag(false)),
            entry("gutterSize", OptionValue::Number(n(10.0))),
            entry("gutterAlign", OptionValue::Token("end".to_string())),
            entry("snapOffset", OptionValue::Number(n(30.0))),
            entry("dragInterval", OptionValue::Number(n(1.0))),
            entry("direction", OptionValue::Token("vertical".to_string())),
            entry("cursor", OptionValue::Token("row-resize".to_string())),
            entry("gutter", OptionValue::Gutter(GutterFactory::Custom(Callback { id: 0 }))),
            entry("elementStyle", OptionValue::Function(Callback { id: 1 })),
            entry("gutterStyle", OptionValue::Function(Callback { id: 2 })),
            entry("onDrag", OptionValue::Function(Callback { id: 3 })),
            entry("onDragStart", OptionValue::Function(Callback { id: 4 })),
            entry("onDragEnd", OptionValue::Function(Callback { id: 5 })),
        ]
    );
}
