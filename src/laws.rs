//! What holds of every rendering: scalars are their own JSON text in one
//! color, and containers are their JSON text up to whitespace.

use vstd::prelude::*;

use crate::ansi::paint;
use crate::json::Json;
use crate::palette::{ColorScheme, Token};
use crate::render::{indent_text, quoted, render, render_fields, render_items};

verus! {

broadcast use vstd::seq_lib::group_filter_ensures;

/// The compact JSON text of `j`: no whitespace between tokens, strings and
/// keys between double quotes.
pub open spec fn json_text(j: Json) -> Seq<char>
    decreases j,
{
    match j {
        Json::Null => "null"@,
        Json::Bool(b) => if b { "true"@ } else { "false"@ },
        Json::Number(t) => t,
        Json::Str(s) => quoted(s),
        Json::Array(items) => seq!['['] + items_text(items) + seq![']'],
        Json::Object(fields) => seq!['{'] + fields_text(fields) + seq!['}'],
    }
}

/// The texts of `items` joined by commas.
pub open spec fn items_text(items: Seq<Json>) -> Seq<char>
    decreases items,
{
    if items.len() == 0 {
        Seq::empty()
    } else if items.len() == 1 {
        json_text(items[0])
    } else {
        items_text(items.subrange(0, items.len() - 1)) + seq![','] + json_text(
            items[items.len() - 1],
        )
    }
}

/// The members of `fields` as `"key":value`, joined by commas.
pub open spec fn fields_text(fields: Seq<(Seq<char>, Json)>) -> Seq<char>
    decreases fields,
{
    if fields.len() == 0 {
        Seq::empty()
    } else if fields.len() == 1 {
        quoted(fields[0].0) + seq![':'] + json_text(fields[0].1)
    } else {
        fields_text(fields.subrange(0, fields.len() - 1)) + seq![','] + quoted(
            fields[fields.len() - 1].0,
        ) + seq![':'] + json_text(fields[fields.len() - 1].1)
    }
}

/// The kind of token that a scalar is.
pub open spec fn scalar_token(j: Json) -> Token {
    match j {
        Json::Null => Token::Null,
        Json::Bool(_) => Token::Bool,
        Json::Number(_) => Token::Number,
        _ => Token::Str,
    }
}

/// Whether `c` is JSON whitespace.
pub open spec fn is_ws(c: char) -> bool {
    c == ' ' || c == '\n' || c == '\t' || c == '\r'
}

/// `s` without its whitespace characters.
pub open spec fn strip_ws(s: Seq<char>) -> Seq<char> {
    s.filter(|c: char| !is_ws(c))
}

/// A scalar renders as its own JSON text, in the scheme's color for its
/// kind, with no brackets and no indentation at any level; without colors
/// the rendering is that text alone.
pub proof fn lemma_scalar_renders_as_text(p: ColorScheme, j: Json, d: nat)
    requires
        !(j is Array),
        !(j is Object),
    ensures
        render(Some(p), j, d) == paint(p.color(scalar_token(j)), json_text(j)),
        render(None, j, d) == json_text(j),
{
}

proof fn lemma_strip_add(a: Seq<char>, b: Seq<char>)
    ensures
        strip_ws(a + b) == strip_ws(a) + strip_ws(b),
{
    Seq::filter_distributes_over_add(a, b, |c: char| !is_ws(c));
}

proof fn lemma_strip_one(c: char)
    ensures
        strip_ws(seq![c]) == if is_ws(c) { Seq::<char>::empty() } else { seq![c] },
{
    reveal_with_fuel(Seq::filter, 2);
    assert(seq![c].drop_last() =~= Seq::<char>::empty());
}

proof fn lemma_strip_two(c: char, e: char)
    ensures
        strip_ws(seq![c, e]) == strip_ws(seq![c]) + strip_ws(seq![e]),
{
    assert(seq![c, e] =~= seq![c] + seq![e]);
    lemma_strip_add(seq![c], seq![e]);
}

proof fn lemma_strip_indent(d: nat)
    ensures
        strip_ws(indent_text(d)) == Seq::<char>::empty(),
    decreases d,
{
    if d > 0 {
        lemma_strip_indent((d - 1) as nat);
        lemma_strip_add(indent_text((d - 1) as nat), seq![' ', ' ']);
        lemma_strip_two(' ', ' ');
        lemma_strip_one(' ');
    }
}

/// Taking the colors away from the rendering of any value at any level, and
/// then all whitespace, leaves the compact JSON text of the value with its
/// whitespace taken away: the same tokens in the same order, members in the
/// order of the value.
pub proof fn lemma_render_is_json_text(j: Json, d: nat)
    ensures
        strip_ws(render(None, j, d)) == strip_ws(json_text(j)),
    decreases j,
{
    match j {
        Json::Array(items) => {
            lemma_items_are_json_text(items, d + 1);
            let r = render_items(None, items, d + 1);
            lemma_strip_add(seq!['[', '\n'] + r + seq!['\n'] + indent_text(d), seq![']']);
            lemma_strip_add(seq!['[', '\n'] + r + seq!['\n'], indent_text(d));
            lemma_strip_add(seq!['[', '\n'] + r, seq!['\n']);
            lemma_strip_add(seq!['[', '\n'], r);
            lemma_strip_two('[', '\n');
            lemma_strip_one('[');
            lemma_strip_one('\n');
            lemma_strip_one(']');
            lemma_strip_indent(d);
            let t = items_text(items);
            lemma_strip_add(seq!['['] + t, seq![']']);
            lemma_strip_add(seq!['['], t);
            assert(strip_ws(render(None, j, d)) =~= strip_ws(json_text(j)));
        },
        Json::Object(fields) => {
            lemma_fields_are_json_text(fields, d + 1);
            let r = render_fields(None, fields, d + 1);
            lemma_strip_add(seq!['{', '\n'] + r + seq!['\n'] + indent_text(d), seq!['}']);
            lemma_strip_add(seq!['{', '\n'] + r + seq!['\n'], indent_text(d));
            lemma_strip_add(seq!['{', '\n'] + r, seq!['\n']);
            lemma_strip_add(seq!['{', '\n'], r);
            lemma_strip_two('{', '\n');
            lemma_strip_one('{');
            lemma_strip_one('\n');
            lemma_strip_one('}');
            lemma_strip_indent(d);
            let t = fields_text(fields);
            lemma_strip_add(seq!['{'] + t, seq!['}']);
            lemma_strip_add(seq!['{'], t);
            assert(strip_ws(render(None, j, d)) =~= strip_ws(json_text(j)));
        },
        _ => {},
    }
}

proof fn lemma_items_are_json_text(items: Seq<Json>, d: nat)
    ensures
        strip_ws(render_items(None, items, d)) == strip_ws(items_text(items)),
    decreases items,
{
    if items.len() == 1 {
        lemma_render_is_json_text(items[0], d);
        lemma_strip_add(indent_text(d), render(None, items[0], d));
        lemma_strip_indent(d);
        assert(strip_ws(render_items(None, items, d)) =~= strip_ws(items_text(items)));
    } else if items.len() > 1 {
        let pre = items.subrange(0, items.len() - 1);
        let last = items[items.len() - 1];
        lemma_items_are_json_text(pre, d);
        lemma_render_is_json_text(last, d);
        let a = render_items(None, pre, d);
        let x = render(None, last, d);
        lemma_strip_add(a + seq![',', '\n'] + indent_text(d), x);
        lemma_strip_add(a + seq![',', '\n'], indent_text(d));
        lemma_strip_add(a, seq![',', '\n']);
        lemma_strip_two(',', '\n');
        lemma_strip_one(',');
        lemma_strip_one('\n');
        lemma_strip_indent(d);
        let b = items_text(pre);
        lemma_strip_add(b + seq![','], json_text(last));
        lemma_strip_add(b, seq![',']);
        assert(strip_ws(render_items(None, items, d)) =~= strip_ws(items_text(items)));
    }
}

proof fn lemma_fields_are_json_text(fields: Seq<(Seq<char>, Json)>, d: nat)
    ensures
        strip_ws(render_fields(None, fields, d)) == strip_ws(fields_text(fields)),
    decreases fields,
{
    lemma_strip_two(':', ' ');
    lemma_strip_one(':');
    lemma_strip_one(' ');
    lemma_strip_indent(d);
    if fields.len() == 1 {
        let k = quoted(fields[0].0);
        let v = fields[0].1;
        lemma_render_is_json_text(v, d);
        let x = render(None, v, d);
        lemma_strip_add(indent_text(d) + k + seq![':', ' '], x);
        lemma_strip_add(indent_text(d) + k, seq![':', ' ']);
        lemma_strip_add(indent_text(d), k);
        lemma_strip_add(k + seq![':'], json_text(v));
        lemma_strip_add(k, seq![':']);
        assert(strip_ws(render_fields(None, fields, d)) =~= strip_ws(fields_text(fields)));
    } else if fields.len() > 1 {
        let pre = fields.subrange(0, fields.len() - 1);
        let k = quoted(fields[fields.len() - 1].0);
        let v = fields[fields.len() - 1].1;
        lemma_fields_are_json_text(pre, d);
        lemma_render_is_json_text(v, d);
        let a = render_fields(None, pre, d);
        let x = render(None, v, d);
        lemma_strip_add(a + seq![',', '\n'] + indent_text(d) + k + seq![':', ' '], x);
        lemma_strip_add(a + seq![',', '\n'] + indent_text(d) + k, seq![':', ' ']);
        lemma_strip_add(a + seq![',', '\n'] + indent_text(d), k);
        lemma_strip_add(a + seq![',', '\n'], indent_text(d));
        lemma_strip_add(a, seq![',', '\n']);
        lemma_strip_two(',', '\n');
        lemma_strip_one(',');
        lemma_strip_one('\n');
        let b = fields_text(pre);
        lemma_strip_add(b + seq![','] + k + seq![':'], json_text(v));
        lemma_strip_add(b + seq![','] + k, seq![':']);
        lemma_strip_add(b + seq![','], k);
        lemma_strip_add(b, seq![',']);
        assert(strip_ws(render_fields(None, fields, d)) =~= strip_ws(fields_text(fields)));
    }
}

} // verus!
