//! The progress ring: the remaining share of a phase written into the SVG
//! template of the ring.

use crate::session::FULL_PROGRESS;
use crate::text::{
    contains_text, decimal, digit_char, digit_str, first_occurrence, first_occurrence_exists,
    occurs_at, push_decimal, replace_first, replaced_first, replacing_by_itself_changes_nothing,
};
use vstd::prelude::*;

verus! {

/// The attribute of the template that stands for a full ring.
pub open spec fn full_ring_attribute() -> Seq<char> {
    "stroke-dasharray=\"100, 100\""@
}

/// The decimals of a number of thousandths below one thousand: nothing for
/// zero, else a dot and the digits up to the last one that is not zero.
pub open spec fn fraction_text(thousandths: nat) -> Seq<char> {
    if thousandths == 0 {
        Seq::empty()
    } else if thousandths % 100 == 0 {
        seq!['.', digit_char((thousandths / 100) as int)]
    } else if thousandths % 10 == 0 {
        seq![
            '.',
            digit_char((thousandths / 100) as int),
            digit_char((thousandths / 10 % 10) as int),
        ]
    } else {
        seq![
            '.',
            digit_char((thousandths / 100) as int),
            digit_char((thousandths / 10 % 10) as int),
            digit_char((thousandths % 10) as int),
        ]
    }
}

/// A progress in thousandths of a percent, written in percent: the whole
/// percents, and up to three decimals without trailing zeros. A whole number
/// of percents has no dot.
pub open spec fn percent_text(progress: nat) -> Seq<char> {
    decimal(progress / 1000) + fraction_text(progress % 1000)
}

/// The attribute that draws the ring for a progress.
pub open spec fn ring_attribute(progress: nat) -> Seq<char> {
    "stroke-dasharray=\""@ + percent_text(progress) + ", 100\""@
}

/// A progress clamped to a full ring.
pub open spec fn clamped(progress: u32) -> nat {
    if progress <= FULL_PROGRESS {
        progress as nat
    } else {
        FULL_PROGRESS as nat
    }
}

/// The attribute for a full ring is the attribute of the template.
pub proof fn full_ring_is_the_template_attribute()
    ensures
        percent_text(FULL_PROGRESS as nat) == seq!['1', '0', '0'],
        ring_attribute(FULL_PROGRESS as nat) == full_ring_attribute(),
{
    reveal_with_fuel(decimal, 3);
    reveal_strlit("stroke-dasharray=\"100, 100\"");
    reveal_strlit("stroke-dasharray=\"");
    reveal_strlit(", 100\"");
    assert(percent_text(FULL_PROGRESS as nat) =~= seq!['1', '0', '0']);
    assert(ring_attribute(FULL_PROGRESS as nat) =~= full_ring_attribute());
}

/// A template in which the ring is drawn full is the template as it was.
pub proof fn full_ring_leaves_the_template(template: Seq<char>, at: int)
    requires
        occurs_at(template, full_ring_attribute(), at),
    ensures
        replaced_first(
            template,
            full_ring_attribute(),
            ring_attribute(FULL_PROGRESS as nat),
            at,
        ) == template,
{
    full_ring_is_the_template_attribute();
    replacing_by_itself_changes_nothing(template, full_ring_attribute(), at);
}

/// Writes a progress in thousandths of a percent as percent, with up to
/// three decimals and no trailing zeros.
pub fn percent_string(progress: u32) -> (text: String)
    ensures
        text@ == percent_text(progress as nat),
{
    let whole: u64 = (progress / 1000) as u64;
    let thousandths: u64 = (progress % 1000) as u64;
    let mut text: String = String::new();
    push_decimal(&mut text, whole);
    if thousandths != 0 {
        text.append(".");
        text.append(digit_str(thousandths / 100));
        if thousandths % 100 != 0 {
            text.append(digit_str(thousandths / 10 % 10));
            if thousandths % 10 != 0 {
                text.append(digit_str(thousandths % 10));
            }
        }
    }
    proof {
        reveal_strlit(".");
        assert("."@ =~= seq!['.']);
        assert(text@ =~= percent_text(progress as nat));
    }
    text
}

/// Draws the ring for `progress`, which is in thousandths of a percent and
/// is clamped to [`FULL_PROGRESS`]: the first full-ring attribute of the
/// template is replaced by the attribute for the progress. A template without
/// that attribute comes back unchanged, and so does every template for a full
/// ring.
pub fn update_progress_svg(template: &str, progress: u32) -> (svg: String)
    ensures
        !contains_text(template@, full_ring_attribute()) ==> svg@ == template@,
        forall|at: int|
            first_occurrence(template@, full_ring_attribute(), at) ==> svg@ == replaced_first(
                template@,
                full_ring_attribute(),
                ring_attribute(clamped(progress)),
                at,
            ),
        progress >= FULL_PROGRESS ==> svg@ == template@,
{
    let shown: u32 = if progress <= FULL_PROGRESS {
        progress
    } else {
        FULL_PROGRESS
    };
    let mut attribute: String = "stroke-dasharray=\"".to_owned();
    attribute.append(percent_string(shown).as_str());
    attribute.append(", 100\"");
    let svg: String = replace_first(template, "stroke-dasharray=\"100, 100\"", attribute.as_str());
    proof {
        if progress >= FULL_PROGRESS && contains_text(template@, full_ring_attribute()) {
            let i = choose|i: int| occurs_at(template@, full_ring_attribute(), i);
            first_occurrence_exists(template@, full_ring_attribute(), i);
            let at = choose|at: int|
                0 <= at <= i && first_occurrence(template@, full_ring_attribute(), at);
            full_ring_leaves_the_template(template@, at);
        }
    }
    svg
}

} // verus!
