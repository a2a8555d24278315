//! Small string-building helpers shared by the rendering code.

use vstd::prelude::*;

verus! {

/// The character sequences of a sequence of strings.
pub open spec fn string_views(items: Seq<String>) -> Seq<Seq<char>> {
    items.map_values(|s: String| s@)
}

/// `items` joined with `sep` between neighbouring entries.
pub open spec fn joined_with(items: Seq<Seq<char>>, sep: Seq<char>) -> Seq<char>
    decreases items.len(),
{
    if items.len() == 0 {
        Seq::empty()
    } else if items.len() == 1 {
        items[0]
    } else {
        items[0] + sep + joined_with(items.drop_first(), sep)
    }
}

/// How a boolean is rendered in the info screen.
pub open spec fn bool_text(b: bool) -> Seq<char> {
    if b {
        "true"@
    } else {
        "false"@
    }
}

/// Renders a boolean the way the info screen shows it.
pub fn bool_label(b: bool) -> (r: String)
    ensures
        r@ == bool_text(b),
{
    if b {
        String::from_str("true")
    } else {
        String::from_str("false")
    }
}

fn join_from(items: &Vec<String>, i: usize, sep: &str) -> (r: String)
    requires
        i <= items.len(),
    ensures
        r@ == joined_with(string_views(items@).skip(i as int), sep@),
    decreases items.len() - i,
{
    let ghost tail = string_views(items@).skip(i as int);
    if i == items.len() {
        let r = String::new();
        proof {
            assert(tail =~= Seq::<Seq<char>>::empty());
        }
        r
    } else if i + 1 == items.len() {
        let r = String::from_str(items[i].as_str());
        proof {
            assert(tail.len() == 1);
            assert(tail[0] == items@[i as int]@);
        }
        r
    } else {
        let rest = join_from(items, i + 1, sep);
        let r = String::from_str(items[i].as_str()).concat(sep).concat(rest.as_str());
        proof {
            assert(tail.drop_first() =~= string_views(items@).skip(i as int + 1));
            assert(tail[0] == items@[i as int]@);
            assert(r@ =~= joined_with(tail, sep@));
        }
        r
    }
}

/// Joins the strings of `items` with `sep` between neighbouring entries.
pub fn join_all(items: &Vec<String>, sep: &str) -> (r: String)
    ensures
        r@ == joined_with(string_views(items@), sep@),
{
    let r = join_from(items, 0, sep);
    proof {
        assert(string_views(items@).skip(0) =~= string_views(items@));
    }
    r
}

/// Copies a string, preserving its characters.
pub fn copy_string(s: &String) -> (r: String)
    ensures
        r == *s,
{
    s.clone()
}

/// Copies an optional string, preserving its value.
pub fn copy_opt_string(s: &Option<String>) -> (r: Option<String>)
    ensures
        r == *s,
{
    match s {
        Some(v) => Some(v.clone()),
        None => None,
    }
}

} // verus!
