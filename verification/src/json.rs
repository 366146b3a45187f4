//! A JSON reader for the exchange's response bodies.
//!
//! Values are read from raw bytes into a tree: objects and arrays keep their
//! entries in wire order, strings are kept as their decoded bytes, and every
//! number is read as an exact decimal (`decimal::Decimal`), never as a float.
//! Exponent forms and `\u` escapes are rejected, as are numbers outside the
//! 96-bit decimal range: a price that cannot be held exactly is a decode
//! failure, not a rounded value.
//!
//! `spec_parse_doc` is the reference reading of a body; `parse_doc` computes
//! it. The spec parser guards each recursive step with a positions-only-advance
//! test so that its termination is structural; the executable parser proves
//! those guards always hold on the paths it takes.

use vstd::prelude::*;

use crate::decimal::{is_digit, spec_parse_decimal, parse_decimal, Decimal};

verus! {

broadcast use vstd::std_specs::vec::group_vec_axioms;

/// A JSON value, at the specification level.
pub enum JVal {
    Null,
    Bool(bool),
    Num(Decimal),
    Str(Seq<u8>),
    Arr(Seq<JVal>),
    Obj(Seq<(Seq<u8>, JVal)>),
}

/// A JSON value: objects and arrays in wire order, numbers as exact decimals,
/// strings as decoded bytes.
#[derive(Debug)]
pub enum Json {
    Null,
    Bool(bool),
    Num(Decimal),
    Str(Vec<u8>),
    Arr(Vec<Json>),
    Obj(Vec<(Vec<u8>, Json)>),
}

/// The specification-level value a `Json` tree stands for.
pub open spec fn jview(j: Json) -> JVal
    decreases j,
{
    match j {
        Json::Null => JVal::Null,
        Json::Bool(b) => JVal::Bool(b),
        Json::Num(d) => JVal::Num(d),
        Json::Str(v) => JVal::Str(v@),
        Json::Arr(v) => JVal::Arr(
            Seq::new(
                v@.len(),
                |k: int|
                    if 0 <= k < v@.len() {
                        jview(v@[k])
                    } else {
                        JVal::Null
                    },
            ),
        ),
        Json::Obj(v) => JVal::Obj(
            Seq::new(
                v@.len(),
                |k: int|
                    if 0 <= k < v@.len() {
                        (v@[k].0@, jview(v@[k].1))
                    } else {
                        (Seq::empty(), JVal::Null)
                    },
            ),
        ),
    }
}

/// `jview` of an array node is the element-wise view of its entries.
pub proof fn lemma_jview_arr(v: Vec<Json>)
    ensures
        jview(Json::Arr(v)) == JVal::Arr(jviews(v@)),
{
    let lhs = jview(Json::Arr(v))->Arr_0;
    assert(lhs =~= jviews(v@));
}

/// `jview` of an object node is the element-wise view of its entries.
pub proof fn lemma_jview_obj(v: Vec<(Vec<u8>, Json)>)
    ensures
        jview(Json::Obj(v)) == JVal::Obj(jviews_obj(v@)),
{
    let lhs = jview(Json::Obj(v))->Obj_0;
    assert(lhs =~= jviews_obj(v@));
}

/// Element-wise `jview` of an array's entries.
pub open spec fn jviews(v: Seq<Json>) -> Seq<JVal> {
    Seq::new(v.len(), |k: int| jview(v[k]))
}

/// Element-wise view of an object's entries.
pub open spec fn jviews_obj(v: Seq<(Vec<u8>, Json)>) -> Seq<(Seq<u8>, JVal)> {
    Seq::new(v.len(), |k: int| (v[k].0@, jview(v[k].1)))
}

/// Is `b` JSON whitespace?
pub open spec fn is_ws(b: u8) -> bool {
    b == 32 || b == 9 || b == 10 || b == 13
}

/// The first index at or after `i` holding a non-whitespace byte.
pub open spec fn spec_skip_ws(s: Seq<u8>, i: int) -> int
    decreases s.len() - i,
{
    if 0 <= i < s.len() && is_ws(s[i]) {
        spec_skip_ws(s, i + 1)
    } else {
        i
    }
}

/// The byte an escape character after a backslash stands for; `None` for the
/// unsupported escapes (`\u` among them).
pub open spec fn escape_byte(b: u8) -> Option<u8> {
    if b == 34 {
        Some(34u8)
    } else if b == 92 {
        Some(92u8)
    } else if b == 47 {
        Some(47u8)
    } else if b == 98 {
        Some(8u8)
    } else if b == 102 {
        Some(12u8)
    } else if b == 110 {
        Some(10u8)
    } else if b == 114 {
        Some(13u8)
    } else if b == 116 {
        Some(9u8)
    } else {
        None
    }
}

/// The body of a string literal read from position `i` (just after the opening
/// quote), appended to `acc`: returns the decoded bytes and the position after
/// the closing quote. Unterminated strings, raw control bytes and unsupported
/// escapes are errors.
pub open spec fn spec_str_body(s: Seq<u8>, i: int, acc: Seq<u8>) -> Option<(Seq<u8>, int)>
    decreases s.len() - i,
{
    if !(0 <= i < s.len()) {
        None
    } else if s[i] == 34 {
        Some((acc, i + 1))
    } else if s[i] == 92 {
        if i + 1 < s.len() {
            match escape_byte(s[i + 1]) {
                Some(b) => spec_str_body(s, i + 2, acc.push(b)),
                None => None,
            }
        } else {
            None
        }
    } else if s[i] < 32 {
        None
    } else {
        spec_str_body(s, i + 1, acc.push(s[i]))
    }
}

/// A JSON value read at position `i` (no leading whitespace): returns the
/// value and the position just after it.
pub open spec fn spec_parse_value(s: Seq<u8>, i: int) -> Option<(JVal, int)>
    decreases s.len() - i, 0int,
{
    if !(0 <= i < s.len()) {
        None
    } else if s[i] == 110 {  // 'n'
        if i + 4 <= s.len() && s[i + 1] == 117 && s[i + 2] == 108 && s[i + 3] == 108 {
            Some((JVal::Null, i + 4))
        } else {
            None
        }
    } else if s[i] == 116 {  // 't'
        if i + 4 <= s.len() && s[i + 1] == 114 && s[i + 2] == 117 && s[i + 3] == 101 {
            Some((JVal::Bool(true), i + 4))
        } else {
            None
        }
    } else if s[i] == 102 {  // 'f'
        if i + 5 <= s.len() && s[i + 1] == 97 && s[i + 2] == 108 && s[i + 3] == 115 && s[i + 4]
            == 101 {
            Some((JVal::Bool(false), i + 5))
        } else {
            None
        }
    } else if s[i] == 34 {  // '"'
        match spec_str_body(s, i + 1, Seq::empty()) {
            Some((b, j)) => Some((JVal::Str(b), j)),
            None => None,
        }
    } else if s[i] == 45 || is_digit(s[i]) {
        match spec_parse_decimal(s, i) {
            Some((d, j)) => Some((JVal::Num(d), j)),
            None => None,
        }
    } else if s[i] == 91 {  // '['
        spec_parse_arr(s, i + 1, Seq::empty())
    } else if s[i] == 123 {  // '{'
        spec_parse_obj(s, i + 1, Seq::empty())
    } else {
        None
    }
}

/// The elements of an array from position `i` (just after `[` or a comma),
/// appended to `acc`.
pub open spec fn spec_parse_arr(s: Seq<u8>, i: int, acc: Seq<JVal>) -> Option<(JVal, int)>
    decreases s.len() - i, 1int,
{
    if !(0 <= i <= s.len()) {
        None
    } else {
        let j = spec_skip_ws(s, i);
        if !(i <= j < s.len()) {
            None
        } else if acc.len() == 0 && s[j] == 93 {  // ']'
            Some((JVal::Arr(acc), j + 1))
        } else {
            match spec_parse_value(s, j) {
                None => None,
                Some((v, q)) => {
                    let m = spec_skip_ws(s, q);
                    if !(i <= m < s.len()) {
                        None
                    } else if s[m] == 44 {  // ','
                        spec_parse_arr(s, m + 1, acc.push(v))
                    } else if s[m] == 93 {
                        Some((JVal::Arr(acc.push(v)), m + 1))
                    } else {
                        None
                    }
                },
            }
        }
    }
}

/// The members of an object from position `i` (just after `{` or a comma),
/// appended to `acc`.
pub open spec fn spec_parse_obj(s: Seq<u8>, i: int, acc: Seq<(Seq<u8>, JVal)>) -> Option<
    (JVal, int),
>
    decreases s.len() - i, 1int,
{
    if !(0 <= i <= s.len()) {
        None
    } else {
        let j = spec_skip_ws(s, i);
        if !(i <= j < s.len()) {
            None
        } else if acc.len() == 0 && s[j] == 125 {  // '}'
            Some((JVal::Obj(acc), j + 1))
        } else if s[j] != 34 {
            None
        } else {
            match spec_str_body(s, j + 1, Seq::empty()) {
                None => None,
                Some((key, k)) => {
                    let m = spec_skip_ws(s, k);
                    if !(0 <= m < s.len() && s[m] == 58) {  // ':'
                        None
                    } else {
                        let p = spec_skip_ws(s, m + 1);
                        if !(i <= p <= s.len()) {
                            None
                        } else {
                            match spec_parse_value(s, p) {
                                None => None,
                                Some((v, q)) => {
                                    let r = spec_skip_ws(s, q);
                                    if !(i <= r < s.len()) {
                                        None
                                    } else if s[r] == 44 {
                                        spec_parse_obj(s, r + 1, acc.push((key, v)))
                                    } else if s[r] == 125 {
                                        Some((JVal::Obj(acc.push((key, v))), r + 1))
                                    } else {
                                        None
                                    }
                                },
                            }
                        }
                    }
                },
            }
        }
    }
}

/// A whole document: one value, optionally surrounded by whitespace, and
/// nothing else.
pub open spec fn spec_parse_doc(s: Seq<u8>) -> Option<JVal> {
    match spec_parse_value(s, spec_skip_ws(s, 0)) {
        Some((v, j)) => if spec_skip_ws(s, j) == s.len() {
            Some(v)
        } else {
            None
        },
        None => None,
    }
}

/// Scans past whitespace.
fn skip_ws(s: &[u8], i: usize) -> (r: usize)
    requires
        i <= s@.len(),
    ensures
        r == spec_skip_ws(s@, i as int),
        i <= r <= s@.len(),
{
    let mut cur: usize = i;
    while cur < s.len() && (s[cur] == 32 || s[cur] == 9 || s[cur] == 10 || s[cur] == 13)
        invariant
            i <= cur <= s@.len(),
            spec_skip_ws(s@, i as int) == spec_skip_ws(s@, cur as int),
        decreases s@.len() - cur,
    {
        assert(spec_skip_ws(s@, cur as int) == spec_skip_ws(s@, cur + 1));
        cur = cur + 1;
    }
    cur
}

/// Decodes one escape character.
fn unescape(b: u8) -> (r: Option<u8>)
    ensures
        r == escape_byte(b),
{
    if b == 34 {
        Some(34u8)
    } else if b == 92 {
        Some(92u8)
    } else if b == 47 {
        Some(47u8)
    } else if b == 98 {
        Some(8u8)
    } else if b == 102 {
        Some(12u8)
    } else if b == 110 {
        Some(10u8)
    } else if b == 114 {
        Some(13u8)
    } else if b == 116 {
        Some(9u8)
    } else {
        None
    }
}

/// Reads a string body from just after the opening quote, exactly as
/// `spec_str_body` describes.
fn parse_str_body(s: &[u8], i: usize) -> (r: Option<(Vec<u8>, usize)>)
    requires
        i <= s@.len(),
    ensures
        match r {
            Some((b, j)) => spec_str_body(s@, i as int, Seq::empty()) == Some((b@, j as int)) && i
                < j <= s@.len(),
            None => spec_str_body(s@, i as int, Seq::empty()) is None,
        },
{
    let mut acc: Vec<u8> = Vec::new();
    let mut cur: usize = i;
    loop
        invariant
            i <= cur <= s@.len(),
            spec_str_body(s@, i as int, Seq::empty()) == spec_str_body(s@, cur as int, acc@),
        decreases s@.len() - cur,
    {
        if cur >= s.len() {
            return None;
        }
        let b = s[cur];
        if b == 34 {
            return Some((acc, cur + 1));
        } else if b == 92 {
            if cur + 1 >= s.len() {
                return None;
            }
            match unescape(s[cur + 1]) {
                Some(e) => {
                    acc.push(e);
                    cur = cur + 2;
                },
                None => {
                    return None;
                },
            }
        } else if b < 32 {
            return None;
        } else {
            acc.push(b);
            cur = cur + 1;
        }
    }
}

/// Reads one JSON value at position `i`, exactly as `spec_parse_value`
/// describes.
pub fn parse_value(s: &[u8], i: usize) -> (r: Option<(Json, usize)>)
    requires
        i <= s@.len(),
    ensures
        match r {
            Some((v, j)) => spec_parse_value(s@, i as int) == Some((jview(v), j as int)) && i < j
                <= s@.len(),
            None => spec_parse_value(s@, i as int) is None,
        },
    decreases s@.len() - i, 0int,
{
    if i >= s.len() {
        return None;
    }
    let b = s[i];
    if b == 110 {
        if s.len() - i >= 4 && s[i + 1] == 117 && s[i + 2] == 108 && s[i + 3] == 108 {
            Some((Json::Null, i + 4))
        } else {
            None
        }
    } else if b == 116 {
        if s.len() - i >= 4 && s[i + 1] == 114 && s[i + 2] == 117 && s[i + 3] == 101 {
            Some((Json::Bool(true), i + 4))
        } else {
            None
        }
    } else if b == 102 {
        if s.len() - i >= 5 && s[i + 1] == 97 && s[i + 2] == 108 && s[i + 3] == 115 && s[i + 4]
            == 101 {
            Some((Json::Bool(false), i + 5))
        } else {
            None
        }
    } else if b == 34 {
        match parse_str_body(s, i + 1) {
            Some((v, j)) => Some((Json::Str(v), j)),
            None => None,
        }
    } else if b == 45 || (48 <= b && b <= 57) {
        match parse_decimal(s, i) {
            Some((d, j)) => Some((Json::Num(d), j)),
            None => None,
        }
    } else if b == 91 {
        proof {
            assert(jviews(Seq::<Json>::empty()) =~= Seq::<JVal>::empty());
        }
        parse_arr(s, i + 1, Vec::new())
    } else if b == 123 {
        proof {
            assert(jviews_obj(Seq::<(Vec<u8>, Json)>::empty()) =~= Seq::<(Seq<u8>, JVal)>::empty());
        }
        parse_obj(s, i + 1, Vec::new())
    } else {
        None
    }
}

/// `jviews` distributes over `push`.
proof fn lemma_jviews_push(v: Seq<Json>, x: Json)
    ensures
        jviews(v.push(x)) == jviews(v).push(jview(x)),
{
    assert(jviews(v.push(x)) =~= jviews(v).push(jview(x)));
}

/// `jviews_obj` distributes over `push`.
proof fn lemma_jviews_obj_push(v: Seq<(Vec<u8>, Json)>, x: (Vec<u8>, Json))
    ensures
        jviews_obj(v.push(x)) == jviews_obj(v).push((x.0@, jview(x.1))),
{
    assert(jviews_obj(v.push(x)) =~= jviews_obj(v).push((x.0@, jview(x.1))));
}

/// Reads array elements from just after `[` or a comma, exactly as
/// `spec_parse_arr` describes.
fn parse_arr(s: &[u8], i: usize, acc: Vec<Json>) -> (r: Option<(Json, usize)>)
    requires
        i <= s@.len(),
    ensures
        match r {
            Some((v, j)) => spec_parse_arr(s@, i as int, jviews(acc@)) == Some(
                (jview(v), j as int),
            ) && i <= j <= s@.len(),
            None => spec_parse_arr(s@, i as int, jviews(acc@)) is None,
        },
    decreases s@.len() - i, 1int,
{
    let j = skip_ws(s, i);
    if j >= s.len() {
        return None;
    }
    if acc.len() == 0 && s[j] == 93 {
        proof {
            lemma_jview_arr(acc);
        }
        return Some((Json::Arr(acc), j + 1));
    }
    match parse_value(s, j) {
        None => None,
        Some((v, q)) => {
            let m = skip_ws(s, q);
            if m >= s.len() {
                return None;
            }
            if s[m] == 44 {
                let mut acc2 = acc;
                let ghost a0 = acc2@;
                let ghost pv = v;
                acc2.push(v);
                proof {
                    lemma_jviews_push(a0, pv);
                }
                parse_arr(s, m + 1, acc2)
            } else if s[m] == 93 {
                let mut acc2 = acc;
                let ghost a0 = acc2@;
                let ghost pv = v;
                acc2.push(v);
                proof {
                    lemma_jviews_push(a0, pv);
                    lemma_jview_arr(acc2);
                }
                Some((Json::Arr(acc2), m + 1))
            } else {
                None
            }
        },
    }
}

/// Reads object members from just after `{` or a comma, exactly as
/// `spec_parse_obj` describes.
fn parse_obj(s: &[u8], i: usize, acc: Vec<(Vec<u8>, Json)>) -> (r: Option<(Json, usize)>)
    requires
        i <= s@.len(),
    ensures
        match r {
            Some((v, j)) => spec_parse_obj(s@, i as int, jviews_obj(acc@)) == Some(
                (jview(v), j as int),
            ) && i <= j <= s@.len(),
            None => spec_parse_obj(s@, i as int, jviews_obj(acc@)) is None,
        },
    decreases s@.len() - i, 1int,
{
    let j = skip_ws(s, i);
    if j >= s.len() {
        return None;
    }
    if acc.len() == 0 && s[j] == 125 {
        proof {
            lemma_jview_obj(acc);
        }
        return Some((Json::Obj(acc), j + 1));
    }
    if s[j] != 34 {
        return None;
    }
    match parse_str_body(s, j + 1) {
        None => None,
        Some((key, k)) => {
            let m = skip_ws(s, k);
            if m >= s.len() || s[m] != 58 {
                return None;
            }
            let p = skip_ws(s, m + 1);
            match parse_value(s, p) {
                None => None,
                Some((v, q)) => {
                    let r = skip_ws(s, q);
                    if r >= s.len() {
                        return None;
                    }
                    if s[r] == 44 {
                        let mut acc2 = acc;
                        let ghost a0 = acc2@;
                        let ghost pk = key;
                        let ghost pv = v;
                        acc2.push((key, v));
                        proof {
                            lemma_jviews_obj_push(a0, (pk, pv));
                        }
                        parse_obj(s, r + 1, acc2)
                    } else if s[r] == 125 {
                        let mut acc2 = acc;
                        let ghost a0 = acc2@;
                        let ghost pk = key;
                        let ghost pv = v;
                        acc2.push((key, v));
                        proof {
                            lemma_jviews_obj_push(a0, (pk, pv));
                            lemma_jview_obj(acc2);
                        }
                        Some((Json::Obj(acc2), r + 1))
                    } else {
                        None
                    }
                },
            }
        },
    }
}

/// Reads a whole document, exactly as `spec_parse_doc` describes.
pub fn parse_doc(s: &[u8]) -> (r: Option<Json>)
    ensures
        match r {
            Some(v) => spec_parse_doc(s@) == Some(jview(v)),
            None => spec_parse_doc(s@) is None,
        },
{
    let i = skip_ws(s, 0);
    match parse_value(s, i) {
        Some((v, j)) => {
            let t = skip_ws(s, j);
            if t == s.len() {
                Some(v)
            } else {
                None
            }
        },
        None => None,
    }
}

} // verus!
