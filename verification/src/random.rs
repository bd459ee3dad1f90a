//! The random-number capability: bounds read from two optional
//! configuration texts, normalized, then one uniform draw.

use vstd::prelude::*;
use rand::Rng;
use crate::decimal::parse_i32_spec;
use crate::decimal::parse_i32;

verus! {

/// View of an optional configuration text.
pub open spec fn opt_text_view(t: Option<&str>) -> Option<Seq<char>> {
    match t {
        Option::None => Option::None,
        Option::Some(s) => Option::Some(s@),
    }
}

/// The bound a configuration text denotes: its value as a decimal
/// integer, or `default` when the text is absent or unparsable.
pub open spec fn bound_of(text: Option<Seq<char>>, default: int) -> int {
    match text {
        Option::None => default,
        Option::Some(s) => match parse_i32_spec(s) {
            Option::Some(v) => v as int,
            Option::None => default,
        },
    }
}

/// Lower end of the effective range: the two bounds in order, swapped
/// when the configured minimum exceeds the configured maximum.
pub open spec fn effective_min(min_text: Option<Seq<char>>, max_text: Option<Seq<char>>) -> int {
    let a = bound_of(min_text, 1);
    let b = bound_of(max_text, 100);
    if a <= b {
        a
    } else {
        b
    }
}

/// Upper end of the effective range.
pub open spec fn effective_max(min_text: Option<Seq<char>>, max_text: Option<Seq<char>>) -> int {
    let a = bound_of(min_text, 1);
    let b = bound_of(max_text, 100);
    if a <= b {
        b
    } else {
        a
    }
}

/// Relies on rand's `thread_rng` and `Rng::gen_range`: one value drawn
/// uniformly from the closed range `min..=max`, which is non-empty.
/// Nothing more than the bounds can be promised of a random draw.
#[verifier::external_body]
fn draw_in_range(min: i32, max: i32) -> (r: i32)
    requires
        min <= max,
    ensures
        min <= r <= max,
{
    rand::thread_rng().gen_range(min..=max)
}

/// Parse one configured bound, falling back to `default` when the
/// text is absent or not an integer.
fn configured_bound(text: Option<&str>, default: i32) -> (r: i32)
    ensures
        r as int == bound_of(opt_text_view(text), default as int),
{
    match text {
        None => default,
        Some(t) => match parse_i32(t) {
            Some(v) => v,
            None => default,
        },
    }
}

/// Draw one integer uniformly from the configured inclusive range.
///
/// `min_text` and `max_text` are the raw configuration texts for the
/// two bounds (absent or unparsable texts fall back to 1 and 100);
/// inverted bounds are swapped before the draw. The result always
/// lies within the effective range.
pub fn generate_random_number(min_text: Option<&str>, max_text: Option<&str>) -> (r: i32)
    ensures
        effective_min(opt_text_view(min_text), opt_text_view(max_text)) <= r as int
            <= effective_max(opt_text_view(min_text), opt_text_view(max_text)),
{
    let a = configured_bound(min_text, 1);
    let b = configured_bound(max_text, 100);
    let (lo, hi) = if a <= b {
        (a, b)
    } else {
        (b, a)
    };
    draw_in_range(lo, hi)
}

/// With both bounds configured in order, the draw stays between them
/// as given: the effective range is exactly (min, max).
pub proof fn lemma_range_in_order(min_text: Option<Seq<char>>, max_text: Option<Seq<char>>)
    requires
        bound_of(min_text, 1) <= bound_of(max_text, 100),
    ensures
        effective_min(min_text, max_text) == bound_of(min_text, 1),
        effective_max(min_text, max_text) == bound_of(max_text, 100),
{
}

/// With inverted bounds, the effective range is the swapped pair.
pub proof fn lemma_range_swapped(min_text: Option<Seq<char>>, max_text: Option<Seq<char>>)
    requires
        bound_of(min_text, 1) > bound_of(max_text, 100),
    ensures
        effective_min(min_text, max_text) == bound_of(max_text, 100),
        effective_max(min_text, max_text) == bound_of(min_text, 1),
{
}

/// A bound whose text does not parse as an integer acts exactly as an
/// absent one: the default applies.
pub proof fn lemma_unparsable_defaults(s: Seq<char>, default: int)
    requires
        parse_i32_spec(s) is None,
    ensures
        bound_of(Option::Some(s), default) == bound_of(Option::None, default),
{
}

} // verus!
