//! Escaping a canonical key into the store's wildcard-pattern syntax.
//!
//! The dataset's own wildcard is `*`; the store's are `%` (any run) and `_`
//! (any one character), with `\` as the escape prefix. A key is escaped so
//! that its literal `%` and `_` survive as literals, and the dataset wildcard
//! `*` is translated into the store wildcard `%`. Appending `*` to a key
//! before escaping therefore requests prefix matching.

use vstd::prelude::*;
use crate::normalize::{canonical_of, lemma_canonical_free_of_metacharacters};
use crate::strutil::chars_vec;

verus! {

/// What one character of the key contributes to the search pattern.
pub open spec fn escape_char(c: char) -> Seq<char> {
    if c == '%' {
        seq!['\\', '%']
    } else if c == '_' {
        seq!['\\', '_']
    } else if c == '*' {
        seq!['%']
    } else {
        seq![c]
    }
}

/// The search pattern produced from a key: each character's contribution,
/// concatenated in order.
pub open spec fn escape_seq(s: Seq<char>) -> Seq<char>
    decreases s.len(),
{
    if s.len() == 0 {
        Seq::empty()
    } else {
        escape_char(s[0]) + escape_seq(s.drop_first())
    }
}

pub proof fn lemma_escape_seq_push(s: Seq<char>, c: char)
    ensures
        escape_seq(s.push(c)) == escape_seq(s) + escape_char(c),
    decreases s.len(),
{
    if s.len() == 0 {
        assert(s.push(c)[0] == c);
        assert(s.push(c).drop_first() =~= Seq::<char>::empty());
        assert(escape_seq(s.push(c).drop_first()) =~= Seq::<char>::empty());
        assert(escape_seq(s.push(c)) =~= escape_char(c) + escape_seq(s.push(c).drop_first()));
        assert(escape_seq(s) =~= Seq::<char>::empty());
        assert(escape_seq(s.push(c)) =~= escape_seq(s) + escape_char(c));
    } else {
        assert(s.push(c).drop_first() =~= s.drop_first().push(c));
        lemma_escape_seq_push(s.drop_first(), c);
        assert(escape_seq(s.push(c)) =~= escape_seq(s) + escape_char(c));
    }
}

/// Escapes the store's wildcard metacharacters in `stuff` and translates the
/// dataset wildcard `*` into the store's `%`.
pub fn escape_like(stuff: &String) -> (r: String)
    ensures
        r@ == escape_seq(stuff@),
{
    let chars = chars_vec(stuff.as_str());
    let mut out = String::new();
    let mut i: usize = 0;
    while i < chars.len()
        invariant
            chars@ == stuff@,
            i <= chars@.len(),
            out@ == escape_seq(stuff@.take(i as int)),
        decreases chars@.len() - i,
    {
        let c = chars[i];
        proof {
            lemma_escape_seq_push(stuff@.take(i as int), stuff@[i as int]);
            assert(stuff@.take(i as int).push(stuff@[i as int]) =~= stuff@.take(i + 1 as int));
        }
        if c == '%' {
            proof {
                reveal_strlit("\\%");
                assert("\\%"@ =~= escape_char('%'));
            }
            out.append("\\%");
        } else if c == '_' {
            proof {
                reveal_strlit("\\_");
                assert("\\_"@ =~= escape_char('_'));
            }
            out.append("\\_");
        } else if c == '*' {
            proof {
                reveal_strlit("%");
                assert("%"@ =~= escape_char('*'));
            }
            out.append("%");
        } else {
            out.push(c);
        }
        i = i + 1;
    }
    proof {
        assert(stuff@.take(chars@.len() as int) =~= stuff@);
    }
    out
}

/// The store's wildcard matcher, as its documentation gives it: `%` matches
/// any run of characters, `_` any single character, `\` makes the next
/// pattern character literal, and every other character matches itself.
pub open spec fn like_match(p: Seq<char>, t: Seq<char>) -> bool
    decreases p.len(), t.len(),
{
    if p.len() == 0 {
        t.len() == 0
    } else if p[0] == '%' {
        exists|i: int| 0 <= i <= t.len() && like_match(p.drop_first(), #[trigger] t.skip(i))
    } else if p[0] == '\\' {
        p.len() >= 2 && t.len() > 0 && t[0] == p[1] && like_match(p.skip(2), t.drop_first())
    } else if p[0] == '_' {
        t.len() > 0 && like_match(p.drop_first(), t.drop_first())
    } else {
        t.len() > 0 && t[0] == p[0] && like_match(p.drop_first(), t.drop_first())
    }
}

/// A key free of `*` and `\` is escaped round trip: its search pattern
/// matches the key followed by any extension — every literal `%` and `_` of
/// the key matches itself, not as a wildcard, and the appended `%` matches
/// the extension.
pub proof fn lemma_pattern_matches_key_prefix(key: Seq<char>, ext: Seq<char>)
    requires
        forall|i: int| 0 <= i < key.len() ==> key[i] != '*' && key[i] != '\\',
    ensures
        like_match(escape_seq(key) + seq!['%'], key + ext),
    decreases key.len(),
{
    if key.len() == 0 {
        let p = escape_seq(key) + seq!['%'];
        assert(p =~= seq!['%']);
        assert(p[0] == '%');
        assert(p.drop_first() =~= Seq::<char>::empty());
        let t = key + ext;
        assert(t.skip(t.len() as int) =~= Seq::<char>::empty());
        assert(like_match(p.drop_first(), t.skip(t.len() as int)));
        assert(like_match(p, t));
    } else {
        let c = key[0];
        let rest = key.drop_first();
        let p = escape_seq(key) + seq!['%'];
        let t = key + ext;
        assert(forall|i: int| 0 <= i < rest.len() ==> rest[i] != '*' && rest[i] != '\\');
        lemma_pattern_matches_key_prefix(rest, ext);
        assert(t.drop_first() =~= rest + ext);
        assert(escape_seq(key) == escape_char(c) + escape_seq(rest));
        if c == '%' || c == '_' {
            assert(p[0] == '\\');
            assert(p[1] == c);
            assert(t[0] == c);
            assert(p.skip(2) =~= escape_seq(rest) + seq!['%']);
            assert(like_match(p, t));
        } else {
            assert(p[0] == c);
            assert(t[0] == c);
            assert(p.drop_first() =~= escape_seq(rest) + seq!['%']);
            assert(like_match(p, t));
        }
    }
}

/// The converse of the round trip: whatever text the search pattern of a
/// `*`- and `\`-free key matches must begin with the key itself, byte for
/// byte — no character of the key, `%` and `_` included, acts as a wildcard.
pub proof fn lemma_pattern_only_key_prefix(key: Seq<char>, t: Seq<char>)
    requires
        forall|i: int| 0 <= i < key.len() ==> key[i] != '*' && key[i] != '\\',
        like_match(escape_seq(key) + seq!['%'], t),
    ensures
        t.len() >= key.len(),
        t.take(key.len() as int) == key,
    decreases key.len(),
{
    if key.len() == 0 {
        assert(t.take(0) =~= key);
    } else {
        let c = key[0];
        let rest = key.drop_first();
        let p = escape_seq(key) + seq!['%'];
        assert(escape_seq(key) == escape_char(c) + escape_seq(rest));
        assert(forall|i: int| 0 <= i < rest.len() ==> rest[i] != '*' && rest[i] != '\\');
        if c == '%' || c == '_' {
            assert(p[0] == '\\');
            assert(p[1] == c);
            assert(p.skip(2) =~= escape_seq(rest) + seq!['%']);
            assert(t.len() > 0 && t[0] == c);
            lemma_pattern_only_key_prefix(rest, t.drop_first());
        } else {
            assert(p[0] == c);
            assert(p.drop_first() =~= escape_seq(rest) + seq!['%']);
            assert(t.len() > 0 && t[0] == c);
            lemma_pattern_only_key_prefix(rest, t.drop_first());
        }
        assert(t.take(key.len() as int) =~= seq![c] + t.drop_first().take(rest.len() as int));
        assert(seq![c] + rest =~= key);
        assert(t.take(key.len() as int) == key);
    }
}

/// The round trip for the keys the normalizer actually produces: a canonical
/// key holds no `*` or `%`, so as long as it is also free of `\`, its search
/// pattern matches precisely the texts that begin with the key itself — its
/// literal characters, `_` included, match nothing but themselves, and only
/// the appended store wildcard matches the rest.
pub proof fn lemma_canonical_pattern_round_trip(raw: Seq<char>, ext: Seq<char>)
    requires
        forall|i: int|
            0 <= i < canonical_of(raw).len() ==> #[trigger] canonical_of(raw)[i] != '\\',
    ensures
        like_match(escape_seq(canonical_of(raw).push('*')), canonical_of(raw) + ext),
        forall|t: Seq<char>|
            #[trigger] like_match(escape_seq(canonical_of(raw).push('*')), t) ==> t.len()
                >= canonical_of(raw).len() && t.take(canonical_of(raw).len() as int)
                == canonical_of(raw),
{
    let key = canonical_of(raw);
    lemma_canonical_free_of_metacharacters(raw);
    lemma_escape_seq_push(key, '*');
    assert(escape_seq(key.push('*')) =~= escape_seq(key) + seq!['%']);
    lemma_pattern_matches_key_prefix(key, ext);
    assert forall|t: Seq<char>|
        #[trigger] like_match(escape_seq(key.push('*')), t) implies t.len() >= key.len()
        && t.take(key.len() as int) == key by {
        lemma_pattern_only_key_prefix(key, t);
    }
}

/// The pattern that asks the store for prefix matches of `key`: the key with
/// the dataset wildcard appended, then escaped.
pub fn to_search_pattern(key: &String) -> (r: String)
    ensures
        r@ == escape_seq(key@.push('*')),
        r@ == escape_seq(key@) + seq!['%'],
{
    let mut with_suffix = key.clone();
    with_suffix.push('*');
    proof {
        lemma_escape_seq_push(key@, '*');
    }
    escape_like(&with_suffix)
}

} // verus!
