//! Building the JSON response body: a compact array of tag-record objects,
//! with the string escaping the JSON grammar requires. The body is specified
//! character by character, so a response is pinned down exactly.

use vstd::prelude::*;
use vstd::string::StringExecFns;
use crate::strutil::chars_vec;
use crate::tag::{Tag, TagView, views_of};

verus! {

/// The character for one digit value, decimal or hexadecimal (lowercase).
pub open spec fn digit_char(d: int) -> char {
    if d == 0 {
        '0'
    } else if d == 1 {
        '1'
    } else if d == 2 {
        '2'
    } else if d == 3 {
        '3'
    } else if d == 4 {
        '4'
    } else if d == 5 {
        '5'
    } else if d == 6 {
        '6'
    } else if d == 7 {
        '7'
    } else if d == 8 {
        '8'
    } else if d == 9 {
        '9'
    } else if d == 10 {
        'a'
    } else if d == 11 {
        'b'
    } else if d == 12 {
        'c'
    } else if d == 13 {
        'd'
    } else if d == 14 {
        'e'
    } else {
        'f'
    }
}

/// The decimal digits of a nonnegative number, most significant first.
pub open spec fn dec_of(n: int) -> Seq<char>
    recommends
        n >= 0,
    decreases n,
{
    if n < 10 {
        seq![digit_char(n)]
    } else {
        dec_of(n / 10).push(digit_char(n % 10))
    }
}

/// The JSON text of an integer: decimal digits, with a leading minus sign
/// when negative.
pub open spec fn json_int(n: int) -> Seq<char> {
    if n < 0 {
        seq!['-'] + dec_of(-n)
    } else {
        dec_of(n)
    }
}

/// What one character of a string value contributes to its JSON text: quote,
/// backslash and the named control characters get short escapes, the other
/// control characters a `\u00..` escape, and everything else stands as is.
pub open spec fn json_escape_char(c: char) -> Seq<char> {
    if c == '"' {
        seq!['\\', '"']
    } else if c == '\\' {
        seq!['\\', '\\']
    } else if c == '\u{8}' {
        seq!['\\', 'b']
    } else if c == '\u{c}' {
        seq!['\\', 'f']
    } else if c == '\n' {
        seq!['\\', 'n']
    } else if c == '\r' {
        seq!['\\', 'r']
    } else if c == '\t' {
        seq!['\\', 't']
    } else if (c as u32) < 32 {
        seq!['\\', 'u', '0', '0', digit_char((c as u32) as int / 16), digit_char(
            (c as u32) as int % 16,
        )]
    } else {
        seq![c]
    }
}

/// The JSON text of a string value's content: each character's contribution,
/// concatenated in order.
pub open spec fn json_escape_seq(s: Seq<char>) -> Seq<char>
    decreases s.len(),
{
    if s.len() == 0 {
        Seq::empty()
    } else {
        json_escape_char(s[0]) + json_escape_seq(s.drop_first())
    }
}

pub proof fn lemma_json_escape_push(s: Seq<char>, c: char)
    ensures
        json_escape_seq(s.push(c)) == json_escape_seq(s) + json_escape_char(c),
    decreases s.len(),
{
    if s.len() == 0 {
        assert(s.push(c)[0] == c);
        assert(s.push(c).drop_first() =~= Seq::<char>::empty());
        assert(json_escape_seq(s.push(c).drop_first()) =~= Seq::<char>::empty());
        assert(json_escape_seq(s.push(c)) =~= json_escape_char(c) + json_escape_seq(
            s.push(c).drop_first(),
        ));
        assert(json_escape_seq(s) =~= Seq::<char>::empty());
        assert(json_escape_seq(s.push(c)) =~= json_escape_seq(s) + json_escape_char(c));
    } else {
        assert(s.push(c).drop_first() =~= s.drop_first().push(c));
        lemma_json_escape_push(s.drop_first(), c);
        assert(json_escape_seq(s.push(c)) =~= json_escape_seq(s) + json_escape_char(c));
    }
}

/// The JSON text of one tag record: an object with the five fields in
/// declaration order.
pub open spec fn json_of_tag(t: TagView) -> Seq<char> {
    "{\"id\":"@ + json_int(t.id) + ",\"name\":\""@ + json_escape_seq(t.name)
        + "\",\"post_count\":"@ + json_int(t.post_count) + ",\"category\":"@ + json_int(t.category)
        + ",\"antecedent_name\":"@ + (match t.antecedent_name {
        Option::None => "null"@,
        Option::Some(a) => "\""@ + json_escape_seq(a) + "\""@,
    }) + "}"@
}

/// The comma-separated JSON texts of a sequence of records.
pub open spec fn json_items(ts: Seq<TagView>) -> Seq<char>
    decreases ts.len(),
{
    if ts.len() == 0 {
        Seq::empty()
    } else if ts.len() == 1 {
        json_of_tag(ts[0])
    } else {
        json_items(ts.drop_last()) + ","@ + json_of_tag(ts.last())
    }
}

/// The JSON text of a whole result: an array of the records' objects, `[]`
/// when there are none.
pub open spec fn json_of_tags(ts: Seq<TagView>) -> Seq<char> {
    "["@ + json_items(ts) + "]"@
}

fn digit_char_exec(d: u32) -> (c: char)
    requires
        d < 16,
    ensures
        c == digit_char(d as int),
{
    match d {
        0 => '0',
        1 => '1',
        2 => '2',
        3 => '3',
        4 => '4',
        5 => '5',
        6 => '6',
        7 => '7',
        8 => '8',
        9 => '9',
        10 => 'a',
        11 => 'b',
        12 => 'c',
        13 => 'd',
        14 => 'e',
        _ => 'f',
    }
}

fn push_dec_u32(n: u32, out: &mut String)
    ensures
        final(out)@ == old(out)@ + dec_of(n as int),
    decreases n,
{
    if n < 10 {
        out.push(digit_char_exec(n));
        proof {
            assert(old(out)@.push(digit_char(n as int)) =~= old(out)@ + dec_of(n as int));
        }
    } else {
        push_dec_u32(n / 10, out);
        out.push(digit_char_exec(n % 10));
        proof {
            assert((old(out)@ + dec_of(n as int / 10)).push(digit_char(n as int % 10)) =~= old(
                out,
            )@ + dec_of(n as int));
        }
    }
}

fn push_i32_dec(v: i32, out: &mut String)
    ensures
        final(out)@ == old(out)@ + json_int(v as int),
{
    if v < 0 {
        out.push('-');
        let m: u32 = (-(v as i64)) as u32;
        push_dec_u32(m, out);
        proof {
            assert(m as int == -(v as int));
            assert(old(out)@.push('-') + dec_of(m as int) =~= old(out)@ + json_int(v as int));
        }
    } else {
        push_dec_u32(v as u32, out);
    }
}

fn push_json_escaped(s: &String, out: &mut String)
    ensures
        final(out)@ == old(out)@ + json_escape_seq(s@),
{
    let chars = chars_vec(s.as_str());
    let mut i: usize = 0;
    proof {
        assert(s@.take(0) =~= Seq::<char>::empty());
        assert(out@ =~= old(out)@ + json_escape_seq(s@.take(0)));
    }
    while i < chars.len()
        invariant
            chars@ == s@,
            i <= chars@.len(),
            out@ == old(out)@ + json_escape_seq(s@.take(i as int)),
        decreases chars@.len() - i,
    {
        let c = chars[i];
        proof {
            lemma_json_escape_push(s@.take(i as int), s@[i as int]);
            assert(s@.take(i as int).push(s@[i as int]) =~= s@.take(i as int + 1));
        }
        let ghost prev = out@;
        if c == '"' {
            proof {
                reveal_strlit("\\\"");
            }
            out.append("\\\"");
        } else if c == '\\' {
            proof {
                reveal_strlit("\\\\");
            }
            out.append("\\\\");
        } else if c == '\u{8}' {
            proof {
                reveal_strlit("\\b");
            }
            out.append("\\b");
        } else if c == '\u{c}' {
            proof {
                reveal_strlit("\\f");
            }
            out.append("\\f");
        } else if c == '\n' {
            proof {
                reveal_strlit("\\n");
            }
            out.append("\\n");
        } else if c == '\r' {
            proof {
                reveal_strlit("\\r");
            }
            out.append("\\r");
        } else if c == '\t' {
            proof {
                reveal_strlit("\\t");
            }
            out.append("\\t");
        } else {
            let cu = c as u32;
            if cu < 32 {
                proof {
                    reveal_strlit("\\u00");
                }
                out.append("\\u00");
                out.push(digit_char_exec(cu / 16));
                out.push(digit_char_exec(cu % 16));
            } else {
                out.push(c);
            }
        }
        proof {
            assert(out@ =~= prev + json_escape_char(s@[i as int]));
            assert(out@ =~= old(out)@ + json_escape_seq(s@.take(i as int + 1)));
        }
        i = i + 1;
    }
    proof {
        assert(s@.take(chars@.len() as int) =~= s@);
    }
}

fn push_json_tag(t: &Tag, out: &mut String)
    ensures
        final(out)@ == old(out)@ + json_of_tag(t@),
{
    out.append("{\"id\":");
    push_i32_dec(t.id, out);
    out.append(",\"name\":\"");
    push_json_escaped(&t.name, out);
    out.append("\",\"post_count\":");
    push_i32_dec(t.post_count, out);
    out.append(",\"category\":");
    push_i32_dec(t.category as i32, out);
    out.append(",\"antecedent_name\":");
    match &t.antecedent_name {
        Option::None => {
            out.append("null");
        },
        Option::Some(a) => {
            out.append("\"");
            push_json_escaped(a, out);
            out.append("\"");
        },
    }
    out.append("}");
    proof {
        assert(out@ =~= old(out)@ + json_of_tag(t@));
    }
}

/// Serializes a result, possibly empty, into its JSON array body.
pub fn serialize_tags(tags: &Vec<Tag>) -> (r: String)
    ensures
        r@ == json_of_tags(views_of(tags@)),
{
    let ghost vs = views_of(tags@);
    let mut out = String::from_str("[");
    let mut i: usize = 0;
    proof {
        assert(vs.take(0) =~= Seq::<TagView>::empty());
        assert(out@ =~= "["@ + json_items(vs.take(0)));
    }
    while i < tags.len()
        invariant
            vs == views_of(tags@),
            vs.len() == tags@.len(),
            i <= tags@.len(),
            out@ == "["@ + json_items(vs.take(i as int)),
        decreases tags@.len() - i,
    {
        if i > 0 {
            out.append(",");
        }
        push_json_tag(&tags[i], &mut out);
        proof {
            assert(vs.take(i as int + 1).drop_last() =~= vs.take(i as int));
            assert(vs.take(i as int + 1).last() == vs[i as int]);
            assert(vs[i as int] == tags@[i as int]@);
            if i == 0 {
                assert(out@ =~= "["@ + json_items(vs.take(1)));
            } else {
                reveal_strlit(",");
                assert(out@ =~= "["@ + json_items(vs.take(i as int + 1)));
            }
        }
        i = i + 1;
    }
    out.append("]");
    proof {
        assert(vs.take(tags@.len() as int) =~= vs);
        assert(out@ =~= json_of_tags(vs));
    }
    out
}

} // verus!
