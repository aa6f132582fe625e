//! Session and sub-session identifiers: freshly minted UUIDs, and the
//! `ssid = id + "," + sid` encoding used by cross-session signing.

use vstd::prelude::*;

use crate::errors::{ssid_shape_error, ssid_shape_error_spec};

verus! {

/// How many times `c` occurs in `s`.
pub open spec fn count_char(s: Seq<char>, c: char) -> nat
    decreases s.len(),
{
    if s.len() == 0 {
        0
    } else {
        count_char(s.drop_last(), c) + if s.last() == c {
            1nat
        } else {
            0nat
        }
    }
}

/// Occurrence counts add over concatenation.
pub proof fn lemma_count_concat(x: Seq<char>, y: Seq<char>, c: char)
    ensures
        count_char(x + y, c) == count_char(x, c) + count_char(y, c),
    decreases y.len(),
{
    if y.len() == 0 {
        assert(x + y =~= x);
    } else {
        lemma_count_concat(x, y.drop_last(), c);
        assert((x + y).drop_last() =~= x + y.drop_last());
        assert((x + y).last() == y.last());
    }
}

/// A string has no occurrence of `c` exactly when its count is zero.
pub proof fn lemma_count_zero(s: Seq<char>, c: char)
    ensures
        count_char(s, c) == 0 <==> (forall|i: int| 0 <= i < s.len() ==> s[i] != c),
    decreases s.len(),
{
    if s.len() == 0 {
    } else {
        lemma_count_zero(s.drop_last(), c);
        if count_char(s, c) == 0 {
            assert forall|i: int| 0 <= i < s.len() implies s[i] != c by {
                if i < s.len() - 1 {
                    assert(s.drop_last()[i] == s[i]);
                } else {
                    assert(s[i] == s.last());
                }
            }
        } else {
            if forall|i: int| 0 <= i < s.len() ==> s[i] != c {
                assert(s.last() != c);
                assert forall|i: int| 0 <= i < s.drop_last().len() implies s.drop_last()[i]
                    != c by {
                    assert(s.drop_last()[i] == s[i]);
                }
            }
        }
    }
}

/// The one-character comma string holds exactly one comma.
pub proof fn lemma_count_single_comma()
    ensures
        count_char(","@, ',') == 1,
{
    reveal_strlit(",");
    assert(","@.len() == 1);
    assert(","@.drop_last().len() == 0);
    assert(count_char(","@.drop_last(), ',') == 0);
    assert(","@.last() == ',');
}

/// A string with exactly one comma splits in exactly one way into two
/// comma-free parts.
pub proof fn lemma_split_unique(x1: Seq<char>, y1: Seq<char>, x2: Seq<char>, y2: Seq<char>)
    requires
        x1 + ","@ + y1 == x2 + ","@ + y2,
        count_char(x1, ',') == 0,
        count_char(x2, ',') == 0,
    ensures
        x1 == x2,
        y1 == y2,
{
    reveal_strlit(",");
    let s = x1 + ","@ + y1;
    lemma_count_zero(x1, ',');
    lemma_count_zero(x2, ',');
    assert(s[x1.len() as int] == ',');
    assert(s[x2.len() as int] == ',');
    if x1.len() < x2.len() {
        assert(x2[x1.len() as int] == ',') by {
            assert((x2 + ","@ + y2)[x1.len() as int] == x2[x1.len() as int]);
        }
        assert(false);
    }
    if x2.len() < x1.len() {
        assert(x1[x2.len() as int] == ',') by {
            assert((x1 + ","@ + y1)[x2.len() as int] == x1[x2.len() as int]);
        }
        assert(false);
    }
    assert(x1 =~= x2) by {
        assert forall|i: int| 0 <= i < x1.len() implies x1[i] == x2[i] by {
            assert((x1 + ","@ + y1)[i] == x1[i]);
            assert((x2 + ","@ + y2)[i] == x2[i]);
        }
    }
    assert(","@.len() == 1);
    assert((x1 + ","@ + y1).len() == x1.len() + 1 + y1.len());
    assert((x2 + ","@ + y2).len() == x2.len() + 1 + y2.len());
    assert(y1 =~= y2) by {
        assert(y1.len() == y2.len());
        assert forall|i: int| 0 <= i < y1.len() implies y1[i] == y2[i] by {
            assert((x1 + ","@ + y1)[x1.len() + 1 + i] == y1[i]);
            assert((x2 + ","@ + y2)[x2.len() + 1 + i] == y2[i]);
        }
    }
}

/// The decomposition of a well-formed cross-session identifier into its
/// comma-free halves; unique when the identifier holds exactly one comma.
pub open spec fn ssid_split(ssid: Seq<char>) -> (Seq<char>, Seq<char>) {
    choose|p: (Seq<char>, Seq<char>)|
        ssid == p.0 + ","@ + p.1 && count_char(p.0, ',') == 0 && count_char(p.1, ',') == 0
}

/// The session-id half of a well-formed cross-session identifier: the
/// part before its one comma.
pub open spec fn ssid_id(ssid: Seq<char>) -> Seq<char> {
    ssid_split(ssid).0
}

/// The sub-session half of a well-formed cross-session identifier: the
/// part after its one comma.
pub open spec fn ssid_sid(ssid: Seq<char>) -> Seq<char> {
    ssid_split(ssid).1
}

/// Relies on uuid's `Uuid::new_v4` and its `Display` impl: a fresh
/// random version-4 UUID rendered in lowercase hyphenated form — 36
/// characters, hyphens exactly at positions 8, 13, 18 and 23, lowercase
/// hexadecimal digits everywhere else. The value itself is random, so
/// nothing more is promised of it.
#[verifier::external_body]
pub fn fresh_uuid() -> (r: String)
    ensures
        r@.len() == 36,
        forall|i: int|
            0 <= i < 36 ==> ((#[trigger] r@[i]) == '-' <==> (i == 8 || i == 13 || i == 18 || i
                == 23)),
        forall|i: int|
            0 <= i < 36 ==> (('0' <= #[trigger] r@[i] && r@[i] <= '9') || ('a' <= r@[i] && r@[i]
                <= 'f') || r@[i] == '-'),
{
    uuid::Uuid::new_v4().to_string()
}

/// A freshly minted identifier never holds a comma.
pub proof fn lemma_uuid_comma_free(s: Seq<char>)
    requires
        s.len() == 36,
        forall|i: int|
            0 <= i < 36 ==> (('0' <= #[trigger] s[i] && s[i] <= '9') || ('a' <= s[i] && s[i]
                <= 'f') || s[i] == '-'),
    ensures
        count_char(s, ',') == 0,
{
    lemma_count_zero(s, ',');
}

/// Builds the cross-session identifier `id + "," + sid`.
pub fn ssid_of(id: &String, sid: &String) -> (r: String)
    ensures
        r@ == id@ + ","@ + sid@,
{
    let mut r = id.clone();
    r.append(",");
    r.append(sid.as_str());
    r
}

/// A string with one comma, split at that comma, yields the canonical
/// `(id, sid)` decomposition.
proof fn lemma_parse_post(s: Seq<char>, first: int, idp: Seq<char>, sidp: Seq<char>)
    requires
        0 <= first < s.len(),
        idp == s.take(first),
        sidp == s.subrange(first + 1, s.len() as int),
        s[first] == ',',
        count_char(s.take(first), ',') == 0,
        count_char(s, ',') == 1,
    ensures
        s == idp + ","@ + sidp,
        count_char(idp, ',') == 0,
        count_char(sidp, ',') == 0,
        idp == ssid_id(s),
        sidp == ssid_sid(s),
{
    reveal_strlit(",");
    assert(","@.len() == 1);
    assert(","@[0] == ',');
    lemma_count_single_comma();
    assert(s =~= idp + ","@ + sidp);
    lemma_count_concat(idp + ","@, sidp, ',');
    lemma_count_concat(idp, ","@, ',');
    let w = (idp, sidp);
    assert(s == w.0 + ","@ + w.1 && count_char(w.0, ',') == 0 && count_char(w.1, ',') == 0);
    assert(exists|p: (Seq<char>, Seq<char>)|
        s == p.0 + ","@ + p.1 && count_char(p.0, ',') == 0 && count_char(p.1, ',') == 0);
    let p = ssid_split(s);
    assert(s == p.0 + ","@ + p.1 && count_char(p.0, ',') == 0 && count_char(p.1, ',') == 0);
    lemma_split_unique(idp, sidp, p.0, p.1);
}

/// Splits a cross-session identifier back into `(id, sid)`: it must hold
/// exactly one comma, or the malformed-ssid error is reported.
#[verifier::rlimit(50)]
pub fn ssid_parse(ssid: &String) -> (r: Result<(String, String), String>)
    ensures
        match r {
            Ok(parts) => {
                &&& count_char(ssid@, ',') == 1
                &&& ssid@ == parts.0@ + ","@ + parts.1@
                &&& count_char(parts.0@, ',') == 0
                &&& count_char(parts.1@, ',') == 0
                &&& parts.0@ == ssid_id(ssid@)
                &&& parts.1@ == ssid_sid(ssid@)
            },
            Err(e) => count_char(ssid@, ',') != 1 && e@ == ssid_shape_error_spec(),
        },
{
    let s = ssid.as_str();
    let slen = s.unicode_len();
    let mut i: usize = 0;
    let mut first: usize = slen;
    let mut count: usize = 0;
    while i < slen
        invariant
            slen == s@.len(),
            s@ == ssid@,
            0 <= i <= slen,
            count <= i,
            count == count_char(s@.take(i as int), ','),
            count == 0 ==> first == slen,
            count > 0 ==> (first < i && s@[first as int] == ','
                && count_char(s@.take(first as int), ',') == 0),
        decreases slen - i,
    {
        let c = s.get_char(i);
        proof {
            assert(s@.take(i + 1).drop_last() =~= s@.take(i as int));
            assert(s@.take(i + 1).last() == s@[i as int]);
        }
        if c == ',' {
            if count == 0 {
                first = i;
            }
            count = count + 1;
        }
        i += 1;
    }
    proof {
        assert(s@.take(slen as int) =~= s@);
    }
    if count != 1 {
        return Err(ssid_shape_error());
    }
    let id_part = s.substring_char(0, first);
    let sid_part = s.substring_char(first + 1, slen);
    proof {
        assert(id_part@ =~= s@.take(first as int));
        lemma_parse_post(s@, first as int, id_part@, sid_part@);
    }
    Ok((id_part.to_owned(), sid_part.to_owned()))
}

} // verus!
