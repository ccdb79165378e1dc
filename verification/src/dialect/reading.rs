//! What the store's text syntaxes read from a text, and how it renders
//! floating-point numbers.
//!
//! The text forms of UUIDs, network addresses, ranges, vectors and the like are
//! the store's. Whoever binds a statement hands over, as plain values, what
//! the store reads from the texts of that statement.
use crate::datatype::{DataType, DataTypeView};
use crate::text::text_eq;
use crate::value::{FloatValue, FloatValueView, Value, ValueView};
use vstd::prelude::*;

verus! {

/// The value that a text stands for in a type.
#[derive(Debug, PartialEq)]
pub struct Reading {
    pub data_type: DataType,
    pub text: String,
    pub value: Value,
}

/// The model of a [`Reading`].
pub struct ReadingView {
    pub data_type: DataTypeView,
    pub text: Seq<char>,
    pub value: ValueView,
}

impl Reading {
    pub open spec fn view(&self) -> ReadingView {
        ReadingView { data_type: self.data_type@, text: self.text@, value: self.value@ }
    }
}

/// A finite floating-point number in decimal digits: with so many digits after
/// the point, or in the shortest form that reads back as the same number, of
/// single precision where `single` says so and else of double precision.
#[derive(Debug, PartialEq)]
pub struct Rendering {
    pub value: FloatValue,
    pub digits: Option<u32>,
    pub single: bool,
    pub text: String,
}

/// The model of a [`Rendering`].
pub struct RenderingView {
    pub value: FloatValueView,
    pub digits: Option<u32>,
    pub single: bool,
    pub text: Seq<char>,
}

impl Rendering {
    pub open spec fn view(&self) -> RenderingView {
        RenderingView {
            value: self.value@,
            digits: self.digits,
            single: self.single,
            text: self.text@,
        }
    }
}

/// The readings and renderings that a statement may need.
#[derive(Debug, PartialEq)]
pub struct Readings {
    pub texts: Vec<Reading>,
    pub floats: Vec<Rendering>,
}

/// The model of [`Readings`].
pub struct ReadingsView {
    pub texts: Seq<ReadingView>,
    pub floats: Seq<RenderingView>,
}

/// The first value, from the `i`-th reading on, that a text stands for in a type.
pub open spec fn read_from(s: Seq<ReadingView>, t: DataTypeView, text: Seq<char>, i: int) -> Option<
    ValueView,
>
    decreases s.len() - i,
{
    if i < 0 || i >= s.len() {
        None
    } else if s[i].data_type == t && s[i].text == text {
        Some(s[i].value)
    } else {
        read_from(s, t, text, i + 1)
    }
}

/// The first rendering, from the `i`-th on, of a number with so many digits and
/// of a precision.
pub open spec fn render_from(
    s: Seq<RenderingView>,
    value: FloatValueView,
    digits: Option<u32>,
    single: bool,
    i: int,
) -> Option<Seq<char>>
    decreases s.len() - i,
{
    if i < 0 || i >= s.len() {
        None
    } else if s[i].value == value && s[i].digits == digits && s[i].single == single {
        Some(s[i].text)
    } else {
        render_from(s, value, digits, single, i + 1)
    }
}

/// The value that a text stands for in a type.
pub open spec fn read_as(r: ReadingsView, t: DataTypeView, text: Seq<char>) -> Option<ValueView> {
    read_from(r.texts, t, text, 0)
}

/// The decimal digits of a number. A double brings its shortest form along.
pub open spec fn rendered(
    r: ReadingsView,
    value: FloatValueView,
    digits: Option<u32>,
    single: bool,
) -> Option<Seq<char>> {
    match (value, digits) {
        (FloatValueView::Bits { shown, .. }, None) if !single => Some(shown),
        _ => render_from(r.floats, value, digits, single, 0),
    }
}

/// An optional value as a model.
pub open spec fn value_of(v: Option<Value>) -> Option<ValueView> {
    match v {
        Some(x) => Some(x@),
        None => None,
    }
}

impl Readings {
    pub open spec fn view(&self) -> ReadingsView {
        ReadingsView {
            texts: Seq::new(self.texts@.len(), |i: int| self.texts@[i]@),
            floats: Seq::new(self.floats@.len(), |i: int| self.floats@[i]@),
        }
    }

    /// No readings.
    pub fn new() -> (r: Readings)
        ensures
            r@.texts == Seq::<ReadingView>::empty(),
            r@.floats == Seq::<RenderingView>::empty(),
    {
        let r = Readings { texts: Vec::new(), floats: Vec::new() };
        assert(r@.texts =~= Seq::<ReadingView>::empty());
        assert(r@.floats =~= Seq::<RenderingView>::empty());
        r
    }

    /// The value that a text stands for in a type.
    pub fn read(&self, t: &DataType, text: &str) -> (found: Option<Value>)
        ensures
            value_of(found) == read_as(self@, t@, text@),
    {
        let mut i: usize = 0;
        while i < self.texts.len()
            invariant
                i <= self.texts.len(),
                read_from(self@.texts, t@, text@, i as int) == read_as(self@, t@, text@),
            decreases self.texts.len() - i,
        {
            let entry = &self.texts[i];
            assert(entry@ == self@.texts[i as int]);
            if entry.data_type.same(t) && text_eq(entry.text.as_str(), text) {
                return Some(entry.value.duplicate());
            }
            i = i + 1;
        }
        None
    }

    /// The decimal digits of a number.
    pub fn render(&self, value: &FloatValue, digits: Option<u32>, single: bool) -> (found: Option<
        String,
    >)
        ensures
            (match found {
                Some(s) => Some(s@),
                None => None,
            }) == rendered(self@, value@, digits, single),
    {
        if digits.is_none() && !single {
            if let FloatValue::Bits { shown, .. } = value {
                return Some(shown.clone());
            }
        }
        let mut i: usize = 0;
        while i < self.floats.len()
            invariant
                i <= self.floats.len(),
                render_from(self@.floats, value@, digits, single, i as int) == render_from(
                    self@.floats,
                    value@,
                    digits,
                    single,
                    0,
                ),
                rendered(self@, value@, digits, single) == render_from(
                    self@.floats,
                    value@,
                    digits,
                    single,
                    0,
                ),
            decreases self.floats.len() - i,
        {
            let entry = &self.floats[i];
            assert(entry@ == self@.floats[i as int]);
            if entry.value.same(value) && same_digits(entry.digits, digits) && entry.single == single {
                return Some(entry.text.clone());
            }
            i = i + 1;
        }
        None
    }
}

fn same_digits(a: Option<u32>, b: Option<u32>) -> (yes: bool)
    ensures
        yes == (a == b),
{
    match (a, b) {
        (Some(x), Some(y)) => x == y,
        (None, None) => true,
        _ => false,
    }
}

/// The reading that was added last for a type and a text is found when no
/// earlier one is for them.
pub proof fn reading_is_found(r: ReadingsView, t: DataTypeView, text: Seq<char>, value: ValueView)
    requires
        read_as(r, t, text) is None,
    ensures
        read_as(
            ReadingsView {
                texts: r.texts.push(ReadingView { data_type: t, text, value }),
                floats: r.floats,
            },
            t,
            text,
        ) == Some(value),
{
    let more = r.texts.push(ReadingView { data_type: t, text, value });
    found_at_end(r.texts, more, t, text, value, 0);
}

proof fn found_at_end(
    s: Seq<ReadingView>,
    more: Seq<ReadingView>,
    t: DataTypeView,
    text: Seq<char>,
    value: ValueView,
    i: int,
)
    requires
        0 <= i <= s.len(),
        more == s.push(ReadingView { data_type: t, text, value }),
        read_from(s, t, text, i) is None,
    ensures
        read_from(more, t, text, i) == Some(value),
    decreases s.len() - i,
{
    if i < s.len() {
        found_at_end(s, more, t, text, value, i + 1);
    }
}

} // verus!
