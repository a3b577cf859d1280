//! The options record that the split engine is constructed with, and how a
//! configuration is written into it.

use crate::gutter::{Callback, GutterFactory};
use crate::number::Number;
use crate::props::{list_view, SplitProps, SplitPropsView};
use crate::tokens::{Cursor, Direction, GutterAlign};
use vstd::prelude::*;

verus! {

/// A minimum or maximum size as the engine takes it: one number for all
/// panes, or one number per pane.
#[derive(Clone, Debug, PartialEq)]
pub enum SizeOption {
    Uniform(Number),
    PerPane(Vec<Number>),
}

/// A size option as a mathematical value.
pub enum SizeOptionView {
    Uniform(Number),
    PerPane(Seq<Number>),
}

impl View for SizeOption {
    type V = SizeOptionView;

    open spec fn view(&self) -> SizeOptionView {
        match self {
            SizeOption::Uniform(n) => SizeOptionView::Uniform(*n),
            SizeOption::PerPane(v) => SizeOptionView::PerPane(v@),
        }
    }
}

/// The options that the engine is constructed with. A field that is `None`
/// is left out of what the engine receives, so that the engine's own
/// default applies. Each field stands for the engine's option of the same
/// name in camel case.
#[derive(Clone, Debug, PartialEq)]
pub struct SplitOptions {
    pub sizes: Option<Vec<Number>>,
    pub min_size: Option<SizeOption>,
    pub max_size: Option<SizeOption>,
    pub expand_to_min: Option<bool>,
    pub gutter_size: Option<Number>,
    pub gutter_align: Option<String>,
    pub snap_offset: Option<Number>,
    pub drag_interval: Option<Number>,
    pub direction: Option<String>,
    pub cursor: Option<String>,
    pub gutter: Option<GutterFactory>,
    pub element_style: Option<Callback>,
    pub gutter_style: Option<Callback>,
    pub on_drag: Option<Callback>,
    pub on_drag_start: Option<Callback>,
    pub on_drag_end: Option<Callback>,
}

/// An options record as a mathematical value: lists are sequences of
/// numbers, tokens are sequences of characters.
pub struct SplitOptionsView {
    pub sizes: Option<Seq<Number>>,
    pub min_size: Option<SizeOptionView>,
    pub max_size: Option<SizeOptionView>,
    pub expand_to_min: Option<bool>,
    pub gutter_size: Option<Number>,
    pub gutter_align: Option<Seq<char>>,
    pub snap_offset: Option<Number>,
    pub drag_interval: Option<Number>,
    pub direction: Option<Seq<char>>,
    pub cursor: Option<Seq<char>>,
    pub gutter: Option<GutterFactory>,
    pub element_style: Option<Callback>,
    pub gutter_style: Option<Callback>,
    pub on_drag: Option<Callback>,
    pub on_drag_start: Option<Callback>,
    pub on_drag_end: Option<Callback>,
}

/// An optional size option as a mathematical value.
pub open spec fn size_view(size: Option<SizeOption>) -> Option<SizeOptionView> {
    match size {
        Some(s) => Some(s@),
        None => None,
    }
}

/// An optional token as an optional sequence of characters.
pub open spec fn token_view(token: Option<String>) -> Option<Seq<char>> {
    match token {
        Some(t) => Some(t@),
        None => None,
    }
}

impl View for SplitOptions {
    type V = SplitOptionsView;

    open spec fn view(&self) -> SplitOptionsView {
        SplitOptionsView {
            sizes: list_view(self.sizes),
            min_size: size_view(self.min_size),
            max_size: size_view(self.max_size),
            expand_to_min: self.expand_to_min,
            gutter_size: self.gutter_size,
            gutter_align: token_view(self.gutter_align),
            snap_offset: self.snap_offset,
            drag_interval: self.drag_interval,
            direction: token_view(self.direction),
            cursor: token_view(self.cursor),
            gutter: self.gutter,
            element_style: self.element_style,
            gutter_style: self.gutter_style,
            on_drag: self.on_drag,
            on_drag_start: self.on_drag_start,
            on_drag_end: self.on_drag_end,
        }
    }
}

/// The size option for a scalar and a per-pane list of one kind: the list
/// where there is one, else the scalar, else nothing.
pub open spec fn size_option(scalar: Option<Number>, per_pane: Option<Seq<Number>>) -> Option<
    SizeOptionView,
> {
    match (per_pane, scalar) {
        (Some(list), _) => Some(SizeOptionView::PerPane(list)),
        (None, Some(n)) => Some(SizeOptionView::Uniform(n)),
        (None, None) => None,
    }
}

impl SplitOptionsView {
    /// The record in which no option is set.
    pub open spec fn empty() -> SplitOptionsView {
        SplitOptionsView {
            sizes: None,
            min_size: None,
            max_size: None,
            expand_to_min: None,
            gutter_size: None,
            gutter_align: None,
            snap_offset: None,
            drag_interval: None,
            direction: None,
            cursor: None,
            gutter: None,
            element_style: None,
            gutter_style: None,
            on_drag: None,
            on_drag_start: None,
            on_drag_end: None,
        }
    }

    /// Whether the record leaves the sizes to be filled in: they are unset,
    /// or set to an empty list.
    pub open spec fn lacks_sizes(self) -> bool {
        match self.sizes {
            Some(sizes) => sizes.len() == 0,
            None => true,
        }
    }
}

impl SplitPropsView {
    /// The options that the configuration stands for: numbers and flags as
    /// they are, lists element by element, enumerated settings as their
    /// tokens, the gutter factory always, and nothing for a setting that is
    /// absent. A per-pane list of minimum or maximum sizes displaces the
    /// scalar of its kind.
    pub open spec fn options(self) -> SplitOptionsView {
        SplitOptionsView {
            sizes: self.sizes,
            min_size: size_option(self.min_size, self.min_sizes),
            max_size: size_option(self.max_size, self.max_sizes),
            expand_to_min: self.expand_to_min,
            gutter_size: self.gutter_size,
            gutter_align: match self.gutter_align {
                Some(align) => Some(align.token()),
                None => None,
            },
            snap_offset: self.snap_offset,
            drag_interval: self.drag_interval,
            direction: match self.direction {
                Some(direction) => Some(direction.token()),
                None => None,
            },
            cursor: match self.cursor {
                Some(cursor) => Some(cursor.token()),
                None => None,
            },
            gutter: Some(self.gutter),
            element_style: self.element_style,
            gutter_style: self.gutter_style,
            on_drag: self.on_drag,
            on_drag_start: self.on_drag_start,
            on_drag_end: self.on_drag_end,
        }
    }
}

/// A copy of a list of numbers.
pub fn copy_numbers(list: &Vec<Number>) -> (copy: Vec<Number>)
    ensures
        copy@ == list@,
{
    let mut copy: Vec<Number> = Vec::new();
    let mut i: usize = 0;
    while i < list.len()
        invariant
            i <= list.len(),
            copy@ == list@.take(i as int),
        decreases list.len() - i,
    {
        copy.push(list[i]);
        assert(copy@ =~= list@.take(i + 1));
        i += 1;
    }
    assert(list@.take(i as int) =~= list@);
    copy
}

/// A list of numbers as a size for each pane.
fn per_pane(list: &Vec<Number>) -> (size: SizeOption)
    ensures
        size@ == SizeOptionView::PerPane(list@),
{
    SizeOption::PerPane(copy_numbers(list))
}

/// A number as the size of every pane.
fn uniform(n: &Number) -> (size: SizeOption)
    ensures
        size@ == SizeOptionView::Uniform(*n),
{
    SizeOption::Uniform(*n)
}

/// The value behind a reference.
fn copied<T: Copy>(value: &T) -> (copy: T)
    ensures
        copy == *value,
{
    *value
}

impl SplitOptions {
    /// The record in which no option is set.
    pub fn new() -> (options: SplitOptions)
        ensures
            options@ == SplitOptionsView::empty(),
    {
        SplitOptions {
            sizes: None,
            min_size: None,
            max_size: None,
            expand_to_min: None,
            gutter_size: None,
            gutter_align: None,
            snap_offset: None,
            drag_interval: None,
            direction: None,
            cursor: None,
            gutter: None,
            element_style: None,
            gutter_style: None,
            on_drag: None,
            on_drag_start: None,
            on_drag_end: None,
        }
    }

    /// Whether the sizes are unset or empty.
    pub fn lacks_sizes(&self) -> (lacking: bool)
        ensures
            lacking == self@.lacks_sizes(),
    {
        match &self.sizes {
            Some(sizes) => sizes.len() == 0,
            None => true,
        }
    }
}

impl SplitProps {
    /// Writes `value`, converted by `f`, into the option `slot`. An absent
    /// value leaves the slot as it is.
    pub fn set_option<T, U, F: Fn(&T) -> U>(slot: &mut Option<U>, value: &Option<T>, f: F)
        requires
            value matches Some(v) ==> call_requires(f, (&v,)),
        ensures
            value is None ==> *final(slot) == *old(slot),
            value matches Some(v) ==> *final(slot) matches Some(written) && call_ensures(
                f,
                (&v,),
                written,
            ),
    {
        match value {
            Some(v) => {
                *slot = Some(f(v));
            },
            None => {},
        }
    }

    /// The options record for this configuration.
    pub fn make_options_object(&self) -> (options: SplitOptions)
        ensures
            options@ == self@.options(),
    {
        let mut options = SplitOptions::new();

        Self::set_option(&mut options.sizes, &self.sizes, copy_numbers);

        if self.min_sizes.is_some() {
            Self::set_option(&mut options.min_size, &self.min_sizes, per_pane);
        } else if self.min_size.is_some() {
            Self::set_option(&mut options.min_size, &self.min_size, uniform);
        }

        if self.max_sizes.is_some() {
            Self::set_option(&mut options.max_size, &self.max_sizes, per_pane);
        } else if self.max_size.is_some() {
            Self::set_option(&mut options.max_size, &self.max_size, uniform);
        }

        Self::set_option(&mut options.expand_to_min, &self.expand_to_min, copied);
        Self::set_option(&mut options.gutter_size, &self.gutter_size, copied);
        Self::set_option(&mut options.gutter_align, &self.gutter_align, GutterAlign::to_string);
        Self::set_option(&mut options.snap_offset, &self.snap_offset, copied);
        Self::set_option(&mut options.drag_interval, &self.drag_interval, copied);
        Self::set_option(&mut options.direction, &self.direction, Direction::to_string);
        Self::set_option(&mut options.cursor, &self.cursor, Cursor::to_string);
        Self::set_option(&mut options.gutter, &Some(self.gutter), copied);
        Self::set_option(&mut options.element_style, &self.element_style, copied);
        Self::set_option(&mut options.gutter_style, &self.gutter_style, copied);
        Self::set_option(&mut options.on_drag, &self.on_drag, copied);
        Self::set_option(&mut options.on_drag_start, &self.on_drag_start, copied);
        Self::set_option(&mut options.on_drag_end, &self.on_drag_end, copied);

        options
    }
}

/// The value of one option as the engine receives it.
#[derive(Clone, Debug, PartialEq)]
pub enum OptionValue {
    Number(Number),
    Numbers(Vec<Number>),
    Flag(bool),
    Token(String),
    Gutter(GutterFactory),
    Function(Callback),
}

/// An option value as a mathematical value.
pub enum OptionValueView {
    Number(Number),
    Numbers(Seq<Number>),
    Flag(bool),
    Token(Seq<char>),
    Gutter(GutterFactory),
    Function(Callback),
}

impl View for OptionValue {
    type V = OptionValueView;

    open spec fn view(&self) -> OptionValueView {
        match self {
            OptionValue::Number(n) => OptionValueView::Number(*n),
            OptionValue::Numbers(list) => OptionValueView::Numbers(list@),
            OptionValue::Flag(flag) => OptionValueView::Flag(*flag),
            OptionValue::Token(token) => OptionValueView::Token(token@),
            OptionValue::Gutter(factory) => OptionValueView::Gutter(*factory),
            OptionValue::Function(handle) => OptionValueView::Function(*handle),
        }
    }
}

/// One option that is set: the engine's name for it, and its value.
#[derive(Clone, Debug, PartialEq)]
pub struct OptionEntry {
    pub key: String,
    pub value: OptionValue,
}

/// An entry as a mathematical value.
pub struct OptionEntryView {
    pub key: Seq<char>,
    pub value: OptionValueView,
}

impl View for OptionEntry {
    type V = OptionEntryView;

    open spec fn view(&self) -> OptionEntryView {
        OptionEntryView { key: self.key@, value: self.value@ }
    }
}

/// A list of entries as a sequence of mathematical values.
pub open spec fn entries_view(entries: Seq<OptionEntry>) -> Seq<OptionEntryView> {
    entries.map_values(|e: OptionEntry| e@)
}

/// The entry for an option under the name `key`: none where the option is
/// not set.
pub open spec fn entry(key: Seq<char>, value: Option<OptionValueView>) -> Seq<OptionEntryView> {
    match value {
        Some(value) => seq![OptionEntryView { key, value }],
        None => Seq::empty(),
    }
}

/// An optional list of numbers as an option value.
pub open spec fn numbers_value(list: Option<Seq<Number>>) -> Option<OptionValueView> {
    match list {
        Some(list) => Some(OptionValueView::Numbers(list)),
        None => None,
    }
}

/// An optional number as an option value.
pub open spec fn number_value(n: Option<Number>) -> Option<OptionValueView> {
    match n {
        Some(n) => Some(OptionValueView::Number(n)),
        None => None,
    }
}

/// An optional size as an option value: a number, or a list of numbers.
pub open spec fn size_value(size: Option<SizeOptionView>) -> Option<OptionValueView> {
    match size {
        Some(SizeOptionView::Uniform(n)) => Some(OptionValueView::Number(n)),
        Some(SizeOptionView::PerPane(list)) => Some(OptionValueView::Numbers(list)),
        None => None,
    }
}

/// An optional flag as an option value.
pub open spec fn flag_value(flag: Option<bool>) -> Option<OptionValueView> {
    match flag {
        Some(flag) => Some(OptionValueView::Flag(flag)),
        None => None,
    }
}

/// An optional token as an option value.
pub open spec fn token_value(token: Option<Seq<char>>) -> Option<OptionValueView> {
    match token {
        Some(token) => Some(OptionValueView::Token(token)),
        None => None,
    }
}

/// An optional gutter factory as an option value.
pub open spec fn gutter_value(factory: Option<GutterFactory>) -> Option<OptionValueView> {
    match factory {
        Some(factory) => Some(OptionValueView::Gutter(factory)),
        None => None,
    }
}

/// An optional function handle as an option value.
pub open spec fn function_value(handle: Option<Callback>) -> Option<OptionValueView> {
    match handle {
        Some(handle) => Some(OptionValueView::Function(handle)),
        None => None,
    }
}

impl SplitOptionsView {
    /// The options that are set, each under the engine's name for it, in the
    /// order in which the engine receives them. An option that is not set
    /// has no entry.
    pub open spec fn entries(self) -> Seq<OptionEntryView> {
        Seq::empty() + entry("sizes"@, numbers_value(self.sizes)) + entry(
            "minSize"@,
            size_value(self.min_size),
        ) + entry("maxSize"@, size_value(self.max_size)) + entry(
            "expandToMin"@,
            flag_value(self.expand_to_min),
        ) + entry("gutterSize"@, number_value(self.gutter_size)) + entry(
            "gutterAlign"@,
            token_value(self.gutter_align),
        ) + entry("snapOffset"@, number_value(self.snap_offset)) + entry(
            "dragInterval"@,
            number_value(self.drag_interval),
        ) + entry("direction"@, token_value(self.direction)) + entry(
            "cursor"@,
            token_value(self.cursor),
        ) + entry("gutter"@, gutter_value(self.gutter)) + entry(
            "elementStyle"@,
            function_value(self.element_style),
        ) + entry("gutterStyle"@, function_value(self.gutter_style)) + entry(
            "onDrag"@,
            function_value(self.on_drag),
        ) + entry("onDragStart"@, function_value(self.on_drag_start)) + entry(
            "onDragEnd"@,
            function_value(self.on_drag_end),
        )
    }
}

/// The view of an optional option value.
pub open spec fn value_view(value: Option<OptionValue>) -> Option<OptionValueView> {
    match value {
        Some(v) => Some(v@),
        None => None,
    }
}

/// Appends the entry for `value` under `key`, if there is a value.
fn push_entry(entries: &mut Vec<OptionEntry>, key: &str, value: Option<OptionValue>)
    ensures
        entries_view(final(entries)@) == entries_view(old(entries)@) + entry(
            key@,
            value_view(value),
        ),
{
    match value {
        Some(value) => {
            let added = OptionEntry { key: key.to_owned(), value };
            entries.push(added);
            assert(entries_view(entries@) =~= entries_view(old(entries)@) + seq![added@]);
        },
        None => {
            assert(entries_view(entries@) =~= entries_view(old(entries)@) + Seq::empty());
        },
    }
}

fn numbers_of(list: &Option<Vec<Number>>) -> (value: Option<OptionValue>)
    ensures
        value_view(value) == numbers_value(list_view(*list)),
{
    match list {
        Some(list) => Some(OptionValue::Numbers(copy_numbers(list))),
        None => None,
    }
}

fn number_of(n: &Option<Number>) -> (value: Option<OptionValue>)
    ensures
        value_view(value) == number_value(*n),
{
    match n {
        Some(n) => Some(OptionValue::Number(*n)),
        None => None,
    }
}

fn size_of(size: &Option<SizeOption>) -> (value: Option<OptionValue>)
    ensures
        value_view(value) == size_value(size_view(*size)),
{
    match size {
        Some(SizeOption::Uniform(n)) => Some(OptionValue::Number(*n)),
        Some(SizeOption::PerPane(list)) => Some(OptionValue::Numbers(copy_numbers(list))),
        None => None,
    }
}

fn flag_of(flag: &Option<bool>) -> (value: Option<OptionValue>)
    ensures
        value_view(value) == flag_value(*flag),
{
    match flag {
        Some(flag) => Some(OptionValue::Flag(*flag)),
        None => None,
    }
}

fn token_of(token: &Option<String>) -> (value: Option<OptionValue>)
    ensures
        value_view(value) == token_value(token_view(*token)),
{
    match token {
        Some(token) => Some(OptionValue::Token(token.clone())),
        None => None,
    }
}

fn gutter_of(factory: &Option<GutterFactory>) -> (value: Option<OptionValue>)
    ensures
        value_view(value) == gutter_value(*factory),
{
    match factory {
        Some(factory) => Some(OptionValue::Gutter(*factory)),
        None => None,
    }
}

fn function_of(handle: &Option<Callback>) -> (value: Option<OptionValue>)
    ensures
        value_view(value) == function_value(*handle),
{
    match handle {
        Some(handle) => Some(OptionValue::Function(*handle)),
        None => None,
    }
}

impl SplitOptions {
    /// The options that are set, each under the engine's name for it.
    pub fn entries(&self) -> (entries: Vec<OptionEntry>)
        ensures
            entries_view(entries@) == self@.entries(),
    {
        let mut entries: Vec<OptionEntry> = Vec::new();
        assert(entries_view(entries@) =~= Seq::empty());
        push_entry(&mut entries, "sizes", numbers_of(&self.sizes));
        push_entry(&mut entries, "minSize", size_of(&self.min_size));
        push_entry(&mut entries, "maxSize", size_of(&self.max_size));
        push_entry(&mut entries, "expandToMin", flag_of(&self.expand_to_min));
        push_entry(&mut entries, "gutterSize", number_of(&self.gutter_size));
        push_entry(&mut entries, "gutterAlign", token_of(&self.gutter_align));
        push_entry(&mut entries, "snapOffset", number_of(&self.snap_offset));
        push_entry(&mut entries, "dragInterval", number_of(&self.drag_interval));
        push_entry(&mut entries, "direction", token_of(&self.direction));
        push_entry(&mut entries, "cursor", token_of(&self.cursor));
        push_entry(&mut entries, "gutter", gutter_of(&self.gutter));
        push_entry(&mut entries, "elementStyle", function_of(&self.element_style));
        push_entry(&mut entries, "gutterStyle", function_of(&self.gutter_style));
        push_entry(&mut entries, "onDrag", function_of(&self.on_drag));
        push_entry(&mut entries, "onDragStart", function_of(&self.on_drag_start));
        push_entry(&mut entries, "onDragEnd", function_of(&self.on_drag_end));
        entries
    }
}

} // verus!
