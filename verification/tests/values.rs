use yew_split::{Callback, Cursor, Direction, GutterAlign, GutterFactory, Number};
use yew_split::gutter::{select_all, select_panes};

fn num(value: f64) -> Number {
    Number::from_bits(value.to_bits())
}

#[test]
fn number_keeps_its_bits() {
    let n = num(33.3);
    assert_eq!(n.to_bits(), 33.3f64.to_bits());
    assert_eq!(f64::from_bits(n.to_bits()), 33.3);
    assert_eq!(Number::from_bits(7).to_bits(), 7);
}

#[test]
fn number_equality_is_numeric() {
    assert!(num(50.0) == num(50.0));
    assert!(num(50.0) != num(50.5));
    assert!(num(-1.0) != num(1.0));
    assert!(num(f64::INFINITY) == num(f64::INFINITY));
    assert!(num(f64::INFINITY) != num(f64::NEG_INFINITY));
}

#[test]
fn number_zeros_are_equal() {
    assert_ne!(0.0f64.to_bits(), (-0.0f64).to_bits());
    assert!(num(0.0) == num(-0.0));
    assert!(num(-0.0) == num(0.0));
}

#[test]
fn number_nan_equals_nothing() {
    let nan = num(f64::NAN);
    assert!(nan != nan);
    assert!(nan != num(0.0));
    assert!(num(1.0) != nan);
    // A NaN with another payload and sign.
    let other = Number::from_bits(0xfff8_0000_0000_0001);
    assert!(other != other);
    // The largest finite magnitude is no NaN.
    assert!(num(f64::MAX) == num(f64::MAX));
}

#[test]
fn number_equality_agrees_with_floats() {
    let samples = [
        0.0,
        -0.0,
        1.0,
        -1.0,
        30.0,
        70.0,
        0.1,
        f64::MIN_POSITIVE,
        f64::MAX,
        f64::MIN,
        f64::INFINITY,
        f64::NEG_INFINITY,
        f64::NAN,
    ];
    for a in samples {
        for b in samples {
            assert_eq!(num(a) == num(b), a == b);
        }
    }
}

#[test]
fn gutter_align_tokens() {
    assert_eq!(GutterAlign::Start.to_string(), "start");
    assert_eq!(GutterAlign::End.to_string(), "end");
    assert_eq!(GutterAlign::Center.to_string(), "center");
}

#[test]
fn direction_tokens() {
    assert_eq!(Direction::Vertical.to_string(), "vertical");
    assert_eq!(Direction::Horizontal.to_string(), "horizontal");
}

#[test]
fn cursor_tokens() {
    assert_eq!(Cursor::ColResize.to_string(), "col-resize");
    assert_eq!(Cursor::RowResize.to_string(), "row-resize");
}

#[test]
fn fresh_gutter_is_named_after_the_direction() {
    let fresh = GutterFactory::Fresh;
    assert_eq!(fresh.class_name("horizontal"), Some("gutter gutter-horizontal".to_string()));
    assert_eq!(fresh.class_name("vertical"), Some("gutter gutter-vertical".to_string()));
    assert_eq!(fresh.class_name("diagonal"), Some("gutter gutter-diagonal".to_string()));
    assert_eq!(fresh.class_name(""), Some("gutter gutter-".to_string()));
}

#[test]
fn reused_gutter_is_vertical_unless_horizontal() {
    let reuse = GutterFactory::ReuseExisting;
    assert_eq!(reuse.class_name("horizontal"), Some("gutter gutter-horizontal".to_string()));
    assert_eq!(reuse.class_name("vertical"), Some("gutter gutter-vertical".to_string()));
    assert_eq!(reuse.class_name("diagonal"), Some("gutter gutter-vertical".to_string()));
    assert_eq!(reuse.class_name(""), Some("gutter gutter-vertical".to_string()));
}

#[test]
fn custom_gutter_names_itself() {
    let custom = GutterFactory::Custom(Callback { id: 4 });
    assert_eq!(custom.class_name("horizontal"), None);
}

#[test]
fn panes_are_the_unmarked_children() {
    assert_eq!(select_panes(&vec![false, true, false, true, false]), vec![0, 2, 4]);
    assert_eq!(select_panes(&vec![true, false]), vec![1]);
    assert_eq!(select_panes(&vec![true, true]), Vec::<usize>::new());
    assert_eq!(select_panes(&vec![false, false, false]), vec![0, 1, 2]);
    assert_eq!(select_panes(&vec![]), Vec::<usize>::new());
}

#[test]
fn all_children_in_order() {
    assert_eq!(select_all(0), Vec::<usize>::new());
    assert_eq!(select_all(1), vec![0]);
    assert_eq!(select_all(4), vec![0, 1, 2, 3]);
}
