//! Text in the style of `javap -v -p`.

use vstd::prelude::*;

pub mod annotations;
pub mod class;
pub mod attribute;
pub mod code;
pub mod field;
pub mod constant_pool;
pub mod flags;
pub mod instruction;
pub mod lines;
pub mod method;

verus! {

/// `w` when `on`, nothing otherwise.
pub open spec fn word(on: bool, w: Seq<char>) -> Seq<char> {
    if on {
        w
    } else {
        seq![]
    }
}

/// Appends `w` when `on`.
pub fn add_word(out: &mut String, on: bool, w: &str)
    ensures
        final(out)@ == old(out)@ + word(on, w@),
{
    if on {
        out.append(w);
    } else {
        assert(old(out)@ + word(on, w@) =~= old(out)@);
    }
}

/// The views of a list of (selected, name) pairs.
pub open spec fn flag_items(items: Seq<(bool, &str)>) -> Seq<(bool, Seq<char>)> {
    items.map_values(|p: (bool, &str)| (p.0, p.1@))
}

/// The names whose flag is set, in order.
pub open spec fn spec_selected(items: Seq<(bool, Seq<char>)>) -> Seq<Seq<char>>
    decreases items.len(),
{
    if items.len() == 0 {
        seq![]
    } else {
        let prev = spec_selected(items.drop_last());
        if items.last().0 {
            prev.push(items.last().1)
        } else {
            prev
        }
    }
}

/// `parts` joined by `sep`.
pub open spec fn spec_join(parts: Seq<Seq<char>>, sep: Seq<char>) -> Seq<char>
    decreases parts.len(),
{
    if parts.len() == 0 {
        seq![]
    } else if parts.len() == 1 {
        parts[0]
    } else {
        spec_join(parts.drop_last(), sep) + sep + parts.last()
    }
}

/// The names of the set flags joined by `sep`.
pub fn flag_list(items: &Vec<(bool, &str)>, sep: &str) -> (r: String)
    ensures
        r@ == spec_join(spec_selected(flag_items(items@)), sep@),
{
    let mut out = String::new();
    let mut first = true;
    let mut i: usize = 0;
    while i < items.len()
        invariant
            i <= items@.len(),
            out@ == spec_join(spec_selected(flag_items(items@.take(i as int))), sep@),
            first == (spec_selected(flag_items(items@.take(i as int))).len() == 0),
        decreases items@.len() - i,
    {
        let (on, name) = items[i];
        let ghost prev = items@.take(i as int);
        let ghost next = items@.take(i + 1);
        assert(flag_items(next).drop_last() =~= flag_items(prev));
        assert(flag_items(next).last() == (on, name@));
        if on {
            if !first {
                out.append(sep);
            }
            out.append(name);
            first = false;
            let ghost sel = spec_selected(flag_items(prev));
            assert(spec_selected(flag_items(next)) == sel.push(name@));
            assert(sel.push(name@).drop_last() =~= sel);
        }
        i = i + 1;
    }
    assert(items@.take(items@.len() as int) =~= items@);
    out
}

/// A class name as Java source writes it: without leading `L` and trailing `;`,
/// with `.` for `/`.
pub open spec fn spec_fmt_class_name(name: Seq<char>) -> Seq<char> {
    crate::text::spec_replace_char(
        crate::text::spec_trim_end(crate::text::spec_trim_start(name, 'L'), ';'),
        '/',
        '.',
    )
}

/// Transforms a class name from internal JVM format to Java-like format.
/// Trims leading 'L' and trailing ';', replaces '/' with '.'.
pub fn fmt_class_name(name: &str) -> (r: String)
    ensures
        r@ == spec_fmt_class_name(name@),
{
    let trimmed = crate::text::trim_both(name, 'L', ';');
    crate::text::replace_char(trimmed.as_str(), '/', '.')
}

/// A method name as javap shows it: `<init>` is quoted.
pub open spec fn spec_fmt_method_name(name: Seq<char>) -> Seq<char> {
    if name == "<init>"@ {
        crate::text::spec_quoted(name)
    } else {
        name
    }
}

/// Formats a method name for javap output. Wraps `<init>` in quotes.
pub fn fmt_method_name(name: &str) -> (r: String)
    ensures
        r@ == spec_fmt_method_name(name@),
{
    if crate::attribute::kind::str_eq(name, "<init>") {
        crate::text::quoted(name)
    } else {
        name.to_string()
    }
}

} // verus!
