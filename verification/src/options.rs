//! Lists of option values: finding a value's place and the value at a place.

use crate::text::str_eq;
use vstd::prelude::*;

verus! {

/// The place of the first option that reads as `value`, or the number of options.
pub open spec fn first_listed(options: Seq<&str>, value: Seq<char>) -> int
    decreases options.len(),
{
    if options.len() == 0 || options[0]@ == value {
        0
    } else {
        1 + first_listed(options.drop_first(), value)
    }
}

/// Some option reads as `value`.
pub open spec fn listed(options: Seq<&str>, value: Seq<char>) -> bool {
    first_listed(options, value) < options.len()
}

/// The place of `value` among `options`, or `fallback` if it is not among them.
pub open spec fn index_in(options: Seq<&str>, value: Seq<char>, fallback: u32) -> u32 {
    if listed(options, value) {
        first_listed(options, value) as u32
    } else {
        fallback
    }
}

/// The option at `index`, or `fallback` if there is none.
pub open spec fn option_at(options: Seq<&str>, index: int, fallback: Seq<char>) -> Seq<char> {
    if 0 <= index < options.len() {
        options[index]@
    } else {
        fallback
    }
}

/// A place that holds `value` with none before it is the first.
pub proof fn lemma_first_listed(options: Seq<&str>, value: Seq<char>, i: int)
    requires
        0 <= i <= options.len(),
        forall|j: int| 0 <= j < i ==> (#[trigger] options[j])@ != value,
        i < options.len() ==> options[i]@ == value,
    ensures
        first_listed(options, value) == i,
    decreases options.len(),
{
    if options.len() > 0 && i > 0 {
        let rest = options.drop_first();
        assert forall|j: int| 0 <= j < i - 1 implies (#[trigger] rest[j])@ != value by {
            assert(rest[j] == options[j + 1]);
        }
        assert(i < options.len() ==> rest[i - 1] == options[i]);
        assert(options[0]@ != value);
        lemma_first_listed(rest, value, i - 1);
    }
}

/// The first listed place is within the list or at its end, and holds the value in the
/// first case.
pub proof fn lemma_first_listed_holds(options: Seq<&str>, value: Seq<char>)
    ensures
        0 <= first_listed(options, value) <= options.len(),
        listed(options, value) ==> options[first_listed(options, value)]@ == value,
    decreases options.len(),
{
    if options.len() > 0 && options[0]@ != value {
        lemma_first_listed_holds(options.drop_first(), value);
    }
}

/// A listed value stands at its own index; an index finds itself through the option that
/// it holds, as long as no option occurs twice.
pub proof fn index_and_value_agree(options: Seq<&str>, value: Seq<char>, index: int, fallback: u32)
    requires
        options.len() <= u32::MAX,
    ensures
        listed(options, value) ==> option_at(
            options,
            index_in(options, value, fallback) as int,
            Seq::empty(),
        ) == value,
        0 <= index < options.len() && (forall|i: int, j: int|
            0 <= i < j < options.len() ==> (#[trigger] options[i])@ != (#[trigger] options[j])@)
            ==> index_in(options, option_at(options, index, Seq::empty()), fallback) == index,
{
    lemma_first_listed_holds(options, value);
    if 0 <= index < options.len() && (forall|i: int, j: int|
        0 <= i < j < options.len() ==> (#[trigger] options[i])@ != (#[trigger] options[j])@) {
        lemma_first_listed(options, options[index]@, index);
    }
}

/// A value is listed exactly if some option reads as it. Its index is the first of those; a
/// value that is not listed gets the fallback, and so does an index without an option.
pub proof fn listed_values_have_an_option(
    options: Seq<&str>,
    value: Seq<char>,
    fallback: u32,
    index: int,
    missing: Seq<char>,
)
    requires
        options.len() <= u32::MAX,
    ensures
        listed(options, value) <==> exists|i: int|
            0 <= i < options.len() && (#[trigger] options[i])@ == value,
        !listed(options, value) ==> index_in(options, value, fallback) == fallback,
        listed(options, value) ==> index_in(options, value, fallback) < options.len(),
        forall|i: int|
            0 <= i < options.len() && (#[trigger] options[i])@ == value ==> index_in(
                options,
                value,
                fallback,
            ) <= i && options[index_in(options, value, fallback) as int]@ == value,
        index < 0 || options.len() <= index ==> option_at(options, index, missing) == missing,
        0 <= index < options.len() ==> option_at(options, index, missing) == options[index]@,
{
    lemma_first_listed_holds(options, value);
    lemma_first_listed_is_first(options, value);
}

proof fn lemma_first_listed_is_first(options: Seq<&str>, value: Seq<char>)
    ensures
        forall|i: int|
            0 <= i < options.len() && (#[trigger] options[i])@ == value ==> first_listed(
                options,
                value,
            ) <= i,
    decreases options.len(),
{
    if options.len() > 0 && options[0]@ != value {
        let rest = options.drop_first();
        lemma_first_listed_is_first(rest, value);
        assert forall|i: int|
            0 <= i < options.len() && (#[trigger] options[i])@ == value implies first_listed(
            options,
            value,
        ) <= i by {
            assert(rest[i - 1] == options[i]);
        }
    }
}

/// Whether some option reads as `value`.
pub fn contains_option(options: &[&str], value: &str) -> (r: bool)
    ensures
        r == listed(options@, value@),
{
    let mut i: usize = 0;
    while i < options.len()
        invariant
            i <= options.len(),
            forall|j: int| 0 <= j < i ==> (#[trigger] options@[j])@ != value@,
        decreases options.len() - i,
    {
        if str_eq(options[i], value) {
            proof {
                lemma_first_listed(options@, value@, i as int);
            }
            return true;
        }
        i = i + 1;
    }
    proof {
        lemma_first_listed(options@, value@, i as int);
    }
    false
}

/// Index of `value` in `options`, or `fallback` when it is not listed.
pub fn index_of(options: &[&str], value: &str, fallback: u32) -> (r: u32)
    ensures
        r == index_in(options@, value@, fallback),
{
    let mut i: usize = 0;
    while i < options.len()
        invariant
            i <= options.len(),
            forall|j: int| 0 <= j < i ==> (#[trigger] options@[j])@ != value@,
        decreases options.len() - i,
    {
        if str_eq(options[i], value) {
            proof {
                lemma_first_listed(options@, value@, i as int);
            }
            return i as u32;
        }
        i = i + 1;
    }
    proof {
        lemma_first_listed(options@, value@, i as int);
    }
    fallback
}

/// Value at `index` in `options`, or `fallback` when the index is out of range.
pub fn value_at(options: &[&'static str], index: usize, fallback: &'static str) -> (r: &'static str)
    ensures
        r@ == option_at(options@, index as int, fallback@),
{
    if index < options.len() {
        options[index]
    } else {
        fallback
    }
}

} // verus!
