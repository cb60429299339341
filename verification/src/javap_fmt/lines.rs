//! A listing as lines, each with the depth at which it is indented.
//!
//! A listing is built line by line, and a part of it nested one level deeper than the
//! line before it. How deep a level is, in spaces, is the business of whoever prints the
//! lines. A listing stops at the first value it cannot show: the result is then that
//! failure.

use crate::error::{ClassFormatErr, SpecClassFormatErr};
use vstd::prelude::*;

verus! {

/// One line of a listing: its indentation depth and its text.
#[derive(Debug, Clone, PartialEq, Eq)]
pub struct JavapLine {
    pub depth: usize,
    pub text: String,
}

impl View for JavapLine {
    type V = (usize, Seq<char>);

    open spec fn view(&self) -> (usize, Seq<char>) {
        (self.depth, self.text@)
    }
}

/// The lines of `v`, each as its depth and text.
pub open spec fn spec_lines(v: Seq<JavapLine>) -> Seq<(usize, Seq<char>)> {
    v.map_values(|l: JavapLine| l@)
}

/// A listing, or the failure that stopped it.
pub type SpecListing = Result<Seq<(usize, Seq<char>)>, SpecClassFormatErr>;

/// A text, or the failure that stopped it.
pub type SpecText = Result<Seq<char>, SpecClassFormatErr>;

/// The listing `a` followed by the listing `b`; the first failure wins.
pub open spec fn spec_cat(a: SpecListing, b: SpecListing) -> SpecListing {
    match a {
        Err(e) => Err(e),
        Ok(x) => match b {
            Err(e) => Err(e),
            Ok(y) => Ok(x + y),
        },
    }
}

/// A single line at `depth` holding the text `t`, or the failure that `t` is.
pub open spec fn spec_line(depth: usize, t: SpecText) -> SpecListing {
    match t {
        Err(e) => Err(e),
        Ok(s) => Ok(seq![(depth, s)]),
    }
}

/// The text `a` followed by the text `b`; the first failure wins.
pub open spec fn spec_text_cat(a: SpecText, b: SpecText) -> SpecText {
    match a {
        Err(e) => Err(e),
        Ok(x) => match b {
            Err(e) => Err(e),
            Ok(y) => Ok(x + y),
        },
    }
}

/// The text `t` between `pre` and `post`, or the failure that `t` is.
pub open spec fn spec_wrap(pre: Seq<char>, t: SpecText, post: Seq<char>) -> SpecText {
    match t {
        Err(e) => Err(e),
        Ok(s) => Ok(pre + s + post),
    }
}

/// The listings of the items of `items` one after the other, each made by `f` from the
/// item's position and the item.
pub open spec fn spec_each<T>(items: Seq<T>, f: spec_fn(int, T) -> SpecListing) -> SpecListing
    decreases items.len(),
{
    if items.len() == 0 {
        Ok(seq![])
    } else {
        spec_cat(spec_each(items.drop_last(), f), f(items.len() - 1, items.last()))
    }
}

/// The texts that `f` makes of the items of `items`, joined by `sep`.
pub open spec fn spec_join_each<T>(items: Seq<T>, f: spec_fn(T) -> Seq<char>, sep: Seq<char>) -> Seq<char>
    decreases items.len(),
{
    if items.len() == 0 {
        seq![]
    } else if items.len() == 1 {
        f(items[0])
    } else {
        spec_join_each(items.drop_last(), f, sep) + sep + f(items.last())
    }
}

/// The texts that `f` makes of the items of `items`, joined by `sep`; the first failure
/// wins.
pub open spec fn spec_try_join_each<T>(items: Seq<T>, f: spec_fn(T) -> SpecText, sep: Seq<char>) -> SpecText
    decreases items.len(),
{
    if items.len() == 0 {
        Ok(seq![])
    } else if items.len() == 1 {
        f(items[0])
    } else {
        spec_text_cat(spec_text_cat(spec_try_join_each(items.drop_last(), f, sep), Ok(sep)), f(items.last()))
    }
}

/// One more item of a listing made item by item.
pub proof fn lemma_each_step<T>(items: Seq<T>, f: spec_fn(int, T) -> SpecListing, i: int)
    requires
        0 <= i < items.len(),
    ensures
        spec_each(items.take(i + 1), f) == spec_cat(spec_each(items.take(i), f), f(i, items[i])),
{
    assert(items.take(i + 1).drop_last() =~= items.take(i));
}

/// A listing made item by item fails as soon as the part made so far fails.
pub proof fn lemma_each_err<T>(items: Seq<T>, f: spec_fn(int, T) -> SpecListing, j: int)
    requires
        0 <= j <= items.len(),
        spec_each(items.take(j), f) is Err,
    ensures
        spec_each(items, f) == spec_each(items.take(j), f),
    decreases items.len() - j,
{
    if j == items.len() {
        assert(items.take(j) =~= items);
    } else {
        lemma_each_step(items, f, j);
        lemma_each_err(items, f, j + 1);
    }
}

/// A listing made item by item over all items.
pub proof fn lemma_each_all<T>(items: Seq<T>, f: spec_fn(int, T) -> SpecListing)
    ensures
        spec_each(items.take(items.len() as int), f) == spec_each(items, f),
{
    assert(items.take(items.len() as int) =~= items);
}

/// One more item of a joined text.
pub proof fn lemma_join_each_step<T>(items: Seq<T>, f: spec_fn(T) -> Seq<char>, sep: Seq<char>, i: int)
    requires
        0 <= i < items.len(),
    ensures
        spec_join_each(items.take(i + 1), f, sep) == (if i == 0 {
            f(items[0])
        } else {
            spec_join_each(items.take(i), f, sep) + sep + f(items[i])
        }),
{
    assert(items.take(i + 1).drop_last() =~= items.take(i));
    assert(items.take(i + 1)[0] == items[0]);
}

/// One more item of a joined text that may fail.
pub proof fn lemma_try_join_each_step<T>(items: Seq<T>, f: spec_fn(T) -> SpecText, sep: Seq<char>, i: int)
    requires
        0 <= i < items.len(),
    ensures
        spec_try_join_each(items.take(i + 1), f, sep) == (if i == 0 {
            f(items[0])
        } else {
            spec_text_cat(spec_text_cat(spec_try_join_each(items.take(i), f, sep), Ok(sep)), f(items[i]))
        }),
{
    assert(items.take(i + 1).drop_last() =~= items.take(i));
    assert(items.take(i + 1)[0] == items[0]);
}

/// A joined text that may fail fails as soon as the part made so far fails.
pub proof fn lemma_try_join_each_err<T>(items: Seq<T>, f: spec_fn(T) -> SpecText, sep: Seq<char>, j: int)
    requires
        1 <= j <= items.len(),
        spec_try_join_each(items.take(j), f, sep) is Err,
    ensures
        spec_try_join_each(items, f, sep) == spec_try_join_each(items.take(j), f, sep),
    decreases items.len() - j,
{
    if j == items.len() {
        assert(items.take(j) =~= items);
    } else {
        lemma_try_join_each_step(items, f, sep, j);
        lemma_try_join_each_err(items, f, sep, j + 1);
    }
}

/// Appends a line at `depth` holding `text`.
pub fn emit(out: &mut Vec<JavapLine>, depth: usize, text: String)
    ensures
        spec_lines(final(out)@) == spec_lines(old(out)@).push((depth, text@)),
{
    let ghost t = text@;
    out.push(JavapLine { depth, text });
    assert(spec_lines(final(out)@) =~= spec_lines(old(out)@).push((depth, t)));
}

/// Whether an outcome of appending to a listing is what `spec` says: on success the
/// lines `spec` gives follow the old ones, and a failure is the one `spec` gives.
pub open spec fn appended(
    r: Result<(), ClassFormatErr>,
    before: Seq<JavapLine>,
    after: Seq<JavapLine>,
    spec: SpecListing,
) -> bool {
    match spec {
        Ok(ls) => r is Ok && spec_lines(after) == spec_lines(before) + ls,
        Err(e) => r matches Err(x) && x@ == e,
    }
}

/// Whether an outcome is the text that `spec` gives, or the failure it gives.
pub open spec fn text_is(r: Result<String, ClassFormatErr>, spec: SpecText) -> bool {
    match spec {
        Ok(s) => r matches Ok(x) && x@ == s,
        Err(e) => r matches Err(x) && x@ == e,
    }
}

} // verus!
