//! Topic derivation.
//!
//! Every reading is published under `meters/solis/<name>_<unit>`, where
//! `<name>` is the descriptor's name in lower case with each space turned
//! into an underscore, and `<unit>` is its unit in lower case without any
//! degree sign.

use vstd::prelude::*;

verus! {

/// The lower-case form of a string, as `str::to_lowercase` computes it.
pub uninterp spec fn lowercase_of(s: Seq<char>) -> Seq<char>;

/// `str::to_lowercase` of the standard library. Its result depends on the
/// characters of its argument alone, by the case mappings of Unicode; the
/// contract names that result and states nothing else of it.
pub assume_specification[ str::to_lowercase ](s: &str) -> (r: String)
    ensures
        r@ == lowercase_of(s@),
;

/// `String::push` of the standard library: the string afterwards is the
/// string before with the character appended.
pub assume_specification[ String::push ](s: &mut String, c: char)
    ensures
        final(s)@ == old(s)@.push(c),
;

/// The degree sign, which no topic carries.
pub const DEGREE_SIGN: char = '\u{b0}';

/// `s` with each space replaced by an underscore.
pub open spec fn spaces_to_underscores(s: Seq<char>) -> Seq<char> {
    s.map_values(|c: char| if c == ' ' { '_' } else { c })
}

/// The characters that a unit keeps: all but the degree sign.
pub open spec fn kept_in_unit() -> spec_fn(char) -> bool {
    |c: char| c != DEGREE_SIGN
}

/// `s` without its degree signs, the other characters in their order.
pub open spec fn without_degree_signs(s: Seq<char>) -> Seq<char> {
    s.filter(kept_in_unit())
}

/// The topic of a quantity whose name and unit are already in lower case.
pub open spec fn composed_topic(lower_name: Seq<char>, lower_unit: Seq<char>) -> Seq<char> {
    "meters/solis/"@ + spaces_to_underscores(lower_name) + seq!['_'] + without_degree_signs(
        lower_unit,
    )
}

/// The topic of a quantity with the given name and unit.
pub open spec fn topic_of(name: Seq<char>, unit: Seq<char>) -> Seq<char> {
    composed_topic(lowercase_of(name), lowercase_of(unit))
}

/// Composes the topic from a name and a unit that are already in lower
/// case: the fixed prefix, the name with underscores for spaces, an
/// underscore, and the unit without degree signs.
pub fn compose_topic(lower_name: &str, lower_unit: &str) -> (r: String)
    ensures
        r@ == composed_topic(lower_name@, lower_unit@),
{
    let mut out = "meters/solis/".to_owned();
    let ghost prefix = out@;
    for c in it: lower_name.chars()
        invariant
            it.seq() == lower_name@,
            out@ == prefix + spaces_to_underscores(lower_name@.take(it.index())),
    {
        assert(lower_name@.take(it.index() + 1) == lower_name@.take(it.index()).push(c));
        if c == ' ' {
            out.push('_');
        } else {
            out.push(c);
        }
    }
    assert(lower_name@.take(lower_name@.len() as int) == lower_name@);
    out.push('_');
    let ghost head = out@;
    for c in it: lower_unit.chars()
        invariant
            it.seq() == lower_unit@,
            out@ == head + without_degree_signs(lower_unit@.take(it.index())),
    {
        proof {
            assert(lower_unit@.take(it.index() + 1) == lower_unit@.take(it.index()).push(c));
            lower_unit@.take(it.index()).lemma_filter_push(c, kept_in_unit());
        }
        if c != DEGREE_SIGN {
            out.push(c);
        }
    }
    assert(lower_unit@.take(lower_unit@.len() as int) == lower_unit@);
    out
}

/// Derives the publish topic from a descriptor's name and unit. Every name
/// and unit has a topic.
pub fn derive_topic(name: &str, unit: &str) -> (r: String)
    ensures
        r@ == topic_of(name@, unit@),
{
    let lower_name = name.to_lowercase();
    let lower_unit = unit.to_lowercase();
    compose_topic(lower_name.as_str(), lower_unit.as_str())
}

} // verus!
