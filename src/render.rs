//! Indented, colored rendering of JSON values, and the line formatter.

use vstd::prelude::*;

use crate::ansi::{paint, paint_text};
use crate::json::{
    map_entries, map_model, models, nests_below, number_string, parse_json, parse_value,
    value_model, Json,
};
use crate::palette::{ColorScheme, Token};

verus! {

/// `t` colored as a token of kind `k` under the scheme `p`; with no scheme,
/// `t` itself.
pub open spec fn tint(p: Option<ColorScheme>, k: Token, t: Seq<char>) -> Seq<char> {
    match p {
        Some(s) => paint(s.color(k), t),
        None => t,
    }
}

/// Two spaces for each of `d` levels.
pub open spec fn indent_text(d: nat) -> Seq<char>
    decreases d,
{
    if d == 0 {
        Seq::empty()
    } else {
        indent_text((d - 1) as nat) + seq![' ', ' ']
    }
}

/// `s` between double quotes.
pub open spec fn quoted(s: Seq<char>) -> Seq<char> {
    seq!['"'] + s + seq!['"']
}

/// The rendering of `j` as it stands at nesting level `d`. Scalars are one
/// colored token. An array or object opens its bracket where it stands, puts
/// each element or member on a line of its own one level deeper, separated by
/// commas, and closes on a line of its own at level `d`. An empty array or
/// object follows the same rule and so has one empty line between its
/// brackets.
pub open spec fn render(p: Option<ColorScheme>, j: Json, d: nat) -> Seq<char>
    decreases j,
{
    match j {
        Json::Null => tint(p, Token::Null, "null"@),
        Json::Bool(b) => tint(p, Token::Bool, if b { "true"@ } else { "false"@ }),
        Json::Number(t) => tint(p, Token::Number, t),
        Json::Str(s) => tint(p, Token::Str, quoted(s)),
        Json::Array(items) => seq!['[', '\n'] + render_items(p, items, d + 1) + seq!['\n']
            + indent_text(d) + seq![']'],
        Json::Object(fields) => seq!['{', '\n'] + render_fields(p, fields, d + 1) + seq!['\n']
            + indent_text(d) + seq!['}'],
    }
}

/// The lines of `items` at level `d`, joined by a comma and a line break.
pub open spec fn render_items(p: Option<ColorScheme>, items: Seq<Json>, d: nat) -> Seq<char>
    decreases items,
{
    if items.len() == 0 {
        Seq::empty()
    } else if items.len() == 1 {
        indent_text(d) + render(p, items[0], d)
    } else {
        render_items(p, items.subrange(0, items.len() - 1), d) + seq![',', '\n'] + indent_text(d)
            + render(p, items[items.len() - 1], d)
    }
}

/// The lines of `fields` at level `d`, each a colored quoted key, a colon
/// and the value, joined by a comma and a line break.
pub open spec fn render_fields(p: Option<ColorScheme>, fields: Seq<(Seq<char>, Json)>, d: nat) -> Seq<char>
    decreases fields,
{
    if fields.len() == 0 {
        Seq::empty()
    } else if fields.len() == 1 {
        indent_text(d) + tint(p, Token::Key, quoted(fields[0].0)) + seq![':', ' '] + render(
            p,
            fields[0].1,
            d,
        )
    } else {
        render_fields(p, fields.subrange(0, fields.len() - 1), d) + seq![',', '\n'] + indent_text(d)
            + tint(p, Token::Key, quoted(fields[fields.len() - 1].0)) + seq![':', ' '] + render(
            p,
            fields[fields.len() - 1].1,
            d,
        )
    }
}

/// What the formatter makes of `line` under the scheme `p`: the rendering at
/// level zero of the JSON value that the line holds, or the line itself.
pub open spec fn formatted(p: ColorScheme, line: Seq<char>) -> Seq<char> {
    match parse_json(line) {
        Some(j) => render(Some(p), j, 0),
        None => line,
    }
}

/// Two spaces for each level of `depth`.
pub fn indent(depth: usize) -> (r: String)
    ensures
        r@ == indent_text(depth as nat),
{
    let mut r = String::new();
    let mut i: usize = 0;
    proof {
        reveal_strlit("  ");
        assert("  "@ =~= seq![' ', ' ']);
    }
    while i < depth
        invariant
            i <= depth,
            r@ == indent_text(i as nat),
            "  "@ == seq![' ', ' '],
        decreases depth - i,
    {
        r.append("  ");
        i += 1;
    }
    r
}

/// `s` between double quotes, as a string.
fn quote(s: &str) -> (r: String)
    ensures
        r@ == quoted(s@),
{
    proof {
        reveal_strlit("\"");
    }
    let mut r = String::new();
    r.append("\"");
    r.append(s);
    r.append("\"");
    assert(r@ =~= quoted(s@));
    r
}

/// Whether `j` nests arrays and objects `n` levels deep or less, for a
/// larger `n`.
pub proof fn lemma_nests_below_mono(j: Json, n: nat, m: nat)
    requires
        nests_below(j, n),
        n <= m,
    ensures
        nests_below(j, m),
    decreases j,
{
    match j {
        Json::Array(items) => {
            assert forall|i: int| 0 <= i < items.len() implies nests_below(
                #[trigger] items[i],
                (m - 1) as nat,
            ) by {
                lemma_nests_below_mono(items[i], (n - 1) as nat, (m - 1) as nat);
            }
        },
        Json::Object(fields) => {
            assert forall|i: int| 0 <= i < fields.len() implies nests_below(
                #[trigger] fields[i].1,
                (m - 1) as nat,
            ) by {
                lemma_nests_below_mono(fields[i].1, (n - 1) as nat, (m - 1) as nat);
            }
        },
        _ => {},
    }
}

/// Formats lines with one color scheme.
#[derive(Clone, Copy, Debug)]
pub struct FormatService {
    pub colors: ColorScheme,
}

impl FormatService {
    /// The rendering of the JSON value that `line` holds, at level zero; a
    /// line that is no JSON value comes back unchanged.
    pub fn format_input(&self, line: &str) -> (r: String)
        ensures
            r@ == formatted(self.colors, line@),
    {
        match parse_value(line) {
            Ok(j) => {
                proof {
                    lemma_nests_below_mono(value_model(j), 128, usize::MAX as nat);
                }
                self.format_json(&j, 0)
            },
            Err(_) => line.to_owned(),
        }
    }

    /// The rendering of `value` at level `depth`.
    pub fn format_json(&self, value: &serde_json::Value, depth: usize) -> (r: String)
        requires
            nests_below(value_model(*value), (usize::MAX - depth) as nat),
        ensures
            r@ == render(Some(self.colors), value_model(*value), depth as nat),
        decreases value_model(*value), 1nat,
    {
        proof {
            reveal_strlit("null");
            reveal_strlit("true");
            reveal_strlit("false");
        }
        if value.is_null() {
            paint_text("null", self.colors.null)
        } else if let Some(b) = value.as_bool() {
            if b {
                paint_text("true", self.colors.bool)
            } else {
                paint_text("false", self.colors.bool)
            }
        } else if let Some(n) = value.as_number() {
            let t = number_string(n);
            paint_text(t.as_str(), self.colors.number)
        } else if let Some(s) = value.as_str() {
            let q = quote(s);
            paint_text(q.as_str(), self.colors.string)
        } else if let Some(a) = value.as_array() {
            proof {
                let s = models(a@);
                let n = (usize::MAX - depth) as nat;
                assert(value_model(*value) == Json::Array(s));
                assert(nests_below(Json::Array(s), n));
                assert(decreases_to!(value_model(*value) => value_model(*value)->Array_0));
                assert forall|i: int| 0 <= i < a@.len() implies nests_below(
                    #[trigger] value_model(a@[i]),
                    (usize::MAX - (depth + 1)) as nat,
                ) by {
                    assert(s[i] == value_model(a@[i]));
                }
            }
            self.format_array(a, depth + 1)
        } else if let Some(m) = value.as_object() {
            proof {
                let f = map_model(*m);
                let n = (usize::MAX - depth) as nat;
                assert(value_model(*value) == Json::Object(f));
                assert(nests_below(Json::Object(f), n));
                assert(decreases_to!(value_model(*value) => value_model(*value)->Object_0));
            }
            self.format_object(m, depth + 1)
        } else {
            proof {
                assert(false);
            }
            String::new()
        }
    }

    fn format_array(&self, values: &Vec<serde_json::Value>, depth: usize) -> (r: String)
        requires
            1 <= depth,
            forall|i: int|
                0 <= i < values@.len() ==> nests_below(
                    #[trigger] value_model(values@[i]),
                    (usize::MAX - depth) as nat,
                ),
        ensures
            r@ == seq!['[', '\n'] + render_items(Some(self.colors), models(values@), depth as nat)
                + seq!['\n'] + indent_text((depth - 1) as nat) + seq![']'],
        decreases models(values@), 0nat,
    {
        let ghost p = Some(self.colors);
        let ghost s = models(values@);
        proof {
            reveal_strlit("[\n");
            reveal_strlit(",\n");
            reveal_strlit("\n");
            reveal_strlit("]");
        }
        let mut out = String::new();
        out.append("[\n");
        let mut i: usize = 0;
        while i < values.len()
            invariant
                i <= values@.len(),
                s == models(values@),
                p == Some(self.colors),
                1 <= depth,
                forall|k: int|
                    0 <= k < values@.len() ==> nests_below(
                        #[trigger] value_model(values@[k]),
                        (usize::MAX - depth) as nat,
                    ),
                out@ == seq!['[', '\n'] + render_items(p, s.take(i as int), depth as nat),
            decreases values@.len() - i,
        {
            proof {
                reveal_strlit(",\n");
                reveal_strlit(": ");
            }
            if i > 0 {
                out.append(",\n");
            }
            let ind = indent(depth);
            out.append(ind.as_str());
            proof {
                assert(s[i as int] == value_model(values@[i as int]));
                assert(decreases_to!(s => s[i as int]));
            }
            let item = self.format_json(&values[i], depth);
            out.append(item.as_str());
            proof {
                let t = s.take(i + 1);
                assert(t.subrange(0, t.len() - 1) =~= s.take(i as int));
                assert(t[t.len() - 1] == s[i as int]);
                if i == 0 {
                    assert(t[0] == s[0]);
                    assert(render_items(p, t, depth as nat) == indent_text(depth as nat) + render(
                        p,
                        s[0],
                        depth as nat,
                    ));
                } else {
                    assert(render_items(p, t, depth as nat) == render_items(p, s.take(i as int), depth as nat)
                        + seq![',', '\n'] + indent_text(depth as nat) + render(p, s[i as int], depth as nat));
                }
                assert(out@ =~= seq!['[', '\n'] + render_items(p, t, depth as nat));
            }
            i += 1;
        }
        out.append("\n");
        let ind = indent(depth - 1);
        out.append(ind.as_str());
        out.append("]");
        proof {
            assert(s.take(values@.len() as int) =~= s);
        }
        assert(out@ =~= seq!['[', '\n'] + render_items(p, s, depth as nat) + seq!['\n']
            + indent_text((depth - 1) as nat) + seq![']']);
        out
    }

    fn format_object(
        &self,
        map: &serde_json::Map<String, serde_json::Value>,
        depth: usize,
    ) -> (r: String)
        requires
            1 <= depth,
            forall|i: int|
                0 <= i < map_model(*map).len() ==> nests_below(
                    #[trigger] map_model(*map)[i].1,
                    (usize::MAX - depth) as nat,
                ),
        ensures
            r@ == seq!['{', '\n'] + render_fields(Some(self.colors), map_model(*map), depth as nat)
                + seq!['\n'] + indent_text((depth - 1) as nat) + seq!['}'],
        decreases map_model(*map), 0nat,
    {
        let ghost p = Some(self.colors);
        let ghost f = map_model(*map);
        proof {
            reveal_strlit("{\n");
            reveal_strlit(",\n");
            reveal_strlit(": ");
            reveal_strlit("\n");
            reveal_strlit("}");
        }
        let entries = map_entries(map);
        let mut out = String::new();
        out.append("{\n");
        let mut i: usize = 0;
        while i < entries.len()
            invariant
                i <= entries@.len(),
                f == map_model(*map),
                entries@.len() == f.len(),
                forall|k: int| 0 <= k < entries@.len() ==> (#[trigger] entries@[k]).0@ == f[k].0
                    && value_model(*entries@[k].1) == f[k].1,
                p == Some(self.colors),
                1 <= depth,
                forall|k: int|
                    0 <= k < f.len() ==> nests_below(
                        #[trigger] f[k].1,
                        (usize::MAX - depth) as nat,
                    ),
                out@ == seq!['{', '\n'] + render_fields(p, f.take(i as int), depth as nat),
            decreases entries@.len() - i,
        {
            proof {
                reveal_strlit(",\n");
                reveal_strlit(": ");
            }
            if i > 0 {
                out.append(",\n");
            }
            let ind = indent(depth);
            out.append(ind.as_str());
            let (k, v) = entries[i];
            let q = quote(k.as_str());
            let key = paint_text(q.as_str(), self.colors.object_key);
            out.append(key.as_str());
            out.append(": ");
            proof {
                assert(entries@[i as int].0@ == f[i as int].0);
                assert(value_model(*v) == f[i as int].1);
                assert(decreases_to!(f => f[i as int]));
                assert(decreases_to!(f[i as int] => f[i as int].1));
            }
            let item = self.format_json(v, depth);
            out.append(item.as_str());
            proof {
                let t = f.take(i + 1);
                assert(t.subrange(0, t.len() - 1) =~= f.take(i as int));
                assert(t[t.len() - 1] == f[i as int]);
                let key_text = tint(p, Token::Key, quoted(f[i as int].0));
                let val_text = render(p, f[i as int].1, depth as nat);
                if i == 0 {
                    assert(t[0] == f[0]);
                    assert(render_fields(p, t, depth as nat) == indent_text(depth as nat) + key_text
                        + seq![':', ' '] + val_text);
                } else {
                    assert(render_fields(p, t, depth as nat) == render_fields(p, f.take(i as int), depth as nat)
                        + seq![',', '\n'] + indent_text(depth as nat) + key_text + seq![':', ' '] + val_text);
                }
                assert(out@ =~= seq!['{', '\n'] + render_fields(p, t, depth as nat));
            }
            i += 1;
        }
        out.append("\n");
        let ind = indent(depth - 1);
        out.append(ind.as_str());
        out.append("}");
        proof {
            assert(f.take(entries@.len() as int) =~= f);
        }
        assert(out@ =~= seq!['{', '\n'] + render_fields(p, f, depth as nat) + seq!['\n']
            + indent_text((depth - 1) as nat) + seq!['}']);
        out
    }
}

} // verus!
