//! What holds of texts, however they are taken apart and put together.

use vstd::prelude::*;

use crate::text::{
    blank, decimal, digit, has_part, has_prefix, joined, text_below, text_order_is_total,
    text_rank, trimmed, trimmed_end, trimmed_start, whitespace, Rank,
};

verus! {

/// The first place where two texts differ decides their order.
pub proof fn the_first_difference_orders_texts(a: Seq<char>, b: Seq<char>, k: int)
    requires
        0 <= k < a.len(),
        k < b.len(),
        forall|i: int| 0 <= i < k ==> a[i] == b[i],
        (a[k] as int) < (b[k] as int),
    ensures
        text_below(a, b),
        !text_below(b, a),
        text_rank(a, b) == Rank::Before,
        text_rank(b, a) == Rank::After,
    decreases k,
{
    if k > 0 {
        assert forall|i: int| 0 <= i < k - 1 implies a.drop_first()[i] == b.drop_first()[i] by {
            assert(a[i + 1] == b[i + 1]);
        }
        assert(a[0] == b[0]);
        the_first_difference_orders_texts(a.drop_first(), b.drop_first(), k - 1);
    }
    assert(a[k] != b[k]);
    text_order_is_total(a, b);
}

/// A text comes right before the longer ones that begin with it, and has its own
/// rank.
pub proof fn a_beginning_comes_first(a: Seq<char>, more: Seq<char>)
    ensures
        more.len() > 0 ==> text_rank(a, a + more) == Rank::Before && text_rank(a + more, a)
            == Rank::After && text_below(a, a + more),
        text_rank(a, a) == Rank::Same,
    decreases a.len(),
{
    if more.len() > 0 {
        let whole = a + more;
        if a.len() > 0 {
            a_beginning_comes_first(a.drop_first(), more);
            assert(whole.drop_first() =~= a.drop_first() + more);
            assert(whole[0] == a[0]);
        }
        assert(whole.len() != a.len());
        text_order_is_total(a, whole);
    }
}

/// Joining lists and joining what came of them is the same, and one part is
/// itself.
pub proof fn joining_goes_part_by_part(
    left: Seq<Seq<char>>,
    right: Seq<Seq<char>>,
    separator: Seq<char>,
)
    ensures
        left.len() > 0 && right.len() > 0 ==> joined(left + right, separator) == joined(
            left,
            separator,
        ) + separator + joined(right, separator),
        left.len() == 1 ==> joined(left, separator) == left[0],
        left.len() == 0 ==> joined(left, separator).len() == 0,
    decreases right.len(),
{
    if left.len() > 0 && right.len() > 0 {
        let whole = left + right;
        assert(whole.drop_last() =~= left + right.drop_last());
        assert(whole.last() == right.last());
        if right.len() == 1 {
            assert(left + right.drop_last() =~= left);
        } else {
            joining_goes_part_by_part(left, right.drop_last(), separator);
            assert(joined(whole, separator) =~= joined(left, separator) + separator + joined(
                right,
                separator,
            ));
        }
    }
}

/// A number's digits are those of its tenth, and then its last one.
pub proof fn a_number_is_spelled_in_decimal(tens: nat, last: nat)
    requires
        last < 10,
    ensures
        decimal(last) == seq![digit(last)],
        tens > 0 ==> decimal(10 * tens + last) == decimal(tens).push(digit(last)),
        digit(last) as int == 48 + last,
{
    if tens > 0 {
        let value = 10 * tens + last;
        assert(value / 10 == tens && value % 10 == last) by (nonlinear_arith)
            requires
                value == 10 * tens + last,
                last < 10,
        ;
    }
}

/// What a text begins with, and what stands in it.
pub proof fn a_text_holds_its_parts(before: Seq<char>, part: Seq<char>, after: Seq<char>)
    ensures
        has_part(before + part + after, part),
        has_prefix(part + after, part),
{
    let text = before + part + after;
    let at = before.len() as int;
    assert(text.subrange(at, at + part.len()) =~= part);
    assert((part + after).take(part.len() as int) =~= part);
}

/// What stands in a text stands between two others in it.
pub proof fn a_part_stands_between_others(text: Seq<char>, part: Seq<char>)
    ensures
        has_part(text, part) ==> exists|before: Seq<char>, after: Seq<char>|
            text == #[trigger] (before + part + after),
        has_prefix(text, part) ==> exists|after: Seq<char>| text == #[trigger] (part + after),
{
    if has_part(text, part) {
        let at = choose|at: int|
            0 <= at <= text.len() - part.len() && #[trigger] text.subrange(at, at + part.len())
                == part;
        assert(text =~= text.take(at) + part + text.skip(at + part.len()));
    }
    if has_prefix(text, part) {
        assert(text =~= part + text.skip(part.len() as int));
    }
}

/// Trimming takes blanks away, as many as there are at the two ends, and nothing
/// else.
pub proof fn trimming_takes_the_blanks_around(
    before: Seq<char>,
    text: Seq<char>,
    after: Seq<char>,
)
    requires
        forall|i: int| 0 <= i < before.len() ==> whitespace(#[trigger] before[i]),
        forall|i: int| 0 <= i < after.len() ==> whitespace(#[trigger] after[i]),
        text.len() > 0 ==> !whitespace(text[0]) && !whitespace(text[text.len() - 1]),
    ensures
        trimmed(before + text + after) == text,
        blank(before),
{
    start_is_trimmed(before, text + after);
    assert(before + text + after =~= before + (text + after));
    if text.len() > 0 {
        assert((text + after)[0] == text[0]);
        assert(trimmed_start(text + after) == text + after);
        end_is_trimmed(text, after);
    } else {
        assert(text + after =~= after + Seq::<char>::empty());
        start_is_trimmed(after, Seq::empty());
        assert(text =~= Seq::<char>::empty());
    }
}

proof fn start_is_trimmed(before: Seq<char>, rest: Seq<char>)
    requires
        forall|i: int| 0 <= i < before.len() ==> whitespace(#[trigger] before[i]),
    ensures
        trimmed_start(before + rest) == trimmed_start(rest),
    decreases before.len(),
{
    if before.len() > 0 {
        start_is_trimmed(before.drop_first(), rest);
        assert((before + rest).drop_first() =~= before.drop_first() + rest);
        assert((before + rest)[0] == before[0]);
    } else {
        assert(before + rest =~= rest);
    }
}

proof fn end_is_trimmed(text: Seq<char>, after: Seq<char>)
    requires
        text.len() > 0,
        !whitespace(text[text.len() - 1]),
        forall|i: int| 0 <= i < after.len() ==> whitespace(#[trigger] after[i]),
    ensures
        trimmed_end(text + after) == text,
    decreases after.len(),
{
    if after.len() > 0 {
        end_is_trimmed(text, after.drop_last());
        assert((text + after).drop_last() =~= text + after.drop_last());
        assert((text + after).last() == after[after.len() - 1]);
    } else {
        assert(text + after =~= text);
    }
}

} // verus!
