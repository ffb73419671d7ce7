use vstd::prelude::*;
use vstd::string::StrSliceExecFns;
use vstd::string::StringExecFns;

use crate::codec::CodecError;
use crate::codec::action_str;
use crate::codec::enc_request;
use crate::codec::enc_response;
use crate::codec::enc_str;
use crate::codec::str_ok;
use crate::codec::encode_request;
use crate::codec::encode_response;
use crate::codec::req_encodable;
use crate::codec::resp_encodable;
use crate::model::AuthUser;
use crate::model::DatabaseAction;
use crate::model::DatabaseRequest;
use crate::model::DatabaseRequestV;
use crate::model::DatabaseResponse;
use crate::model::DatabaseResponseV;
use crate::model::AuthUserV;
use crate::model::Value;
use crate::model::WhereClause;

verus! {

// ---------------------------------------------------------------------------
// The decoder.
//
// A raw inbound message is first read by a permissive parser, and the parse
// is then held against the canonical form: the message is accepted exactly
// when re-encoding the parse reproduces it. A successful decode therefore
// proves that the input is the canonical wire form of the returned object.
// ---------------------------------------------------------------------------

/// Whether two strings hold the same characters.
fn str_eq(a: &str, b: &str) -> (r: bool)
    ensures
        r == (a@ == b@),
{
    let n = a.unicode_len();
    if n != b.unicode_len() {
        proof {
            assert(a@ != b@) by {
                assert(a@.len() != b@.len());
            }
        }
        return false;
    }
    let mut i: usize = 0;
    while i < n
        invariant
            n == a@.len(),
            n == b@.len(),
            0 <= i <= n,
            forall|k: int| 0 <= k < i ==> a@[k] == b@[k],
        decreases n - i,
    {
        if a.get_char(i) != b.get_char(i) {
            return false;
        }
        i = i + 1;
    }
    proof {
        assert(a@ =~= b@);
    }
    true
}

/// Reads the exact text `lit` at position `i`: it reads it exactly when it
/// stands there.
fn parse_lit(s: &str, i: usize, lit: &str) -> (r: Option<usize>)
    requires
        i <= s@.len(),
    ensures
        r matches Some(j) ==> i + lit@.len() == j && j <= s@.len() && s@.subrange(
            i as int,
            j as int,
        ) == lit@,
        i + lit@.len() <= s@.len() && s@.subrange(i as int, i + lit@.len() as int) == lit@
            ==> r is Some,
{
    let n = s.unicode_len();
    let m = lit.unicode_len();
    if m > n - i {
        return None;
    }
    let mut k: usize = 0;
    while k < m
        invariant
            n == s@.len(),
            m == lit@.len(),
            i + m <= n,
            0 <= k <= m,
            forall|t: int| 0 <= t < k ==> s@[i + t] == lit@[t],
        decreases m - k,
    {
        if s.get_char(i + k) != lit.get_char(k) {
            proof {
                if s@.subrange(i as int, i + m as int) == lit@ {
                    assert(s@.subrange(i as int, i + m as int)[k as int] == s@[i + k]);
                }
            }
            return None;
        }
        k = k + 1;
    }
    proof {
        assert(s@.subrange(i as int, i + m as int) =~= lit@);
    }
    Some(i + m)
}

/// What the quoted-string reader owes where a canonical quoted string stands
/// at position `i`: it reads exactly that string.
spec fn qstring_complete(s: Seq<char>, i: int, r: Option<(String, usize)>) -> bool {
    forall|a: Seq<char>|
        (str_ok(a) && i + a.len() + 2 <= s.len() && s.subrange(i, i + a.len() + 2) == #[trigger] enc_str(a))
            ==> (r matches Some(p) && p.0@ == a && p.1 == i + a.len() + 2)
}

/// Reads a quoted string at position `i`; the content runs to the next
/// quote. A canonical quoted string standing at `i` is read exactly.
fn parse_qstring(s: &str, i: usize) -> (r: Option<(String, usize)>)
    requires
        i <= s@.len(),
    ensures
        r matches Some(p) ==> i < p.1 <= s@.len(),
        qstring_complete(s@, i as int, r),
{
    let n = s.unicode_len();
    if i >= n || s.get_char(i) != '"' {
        proof {
            assert forall|a: Seq<char>|
                (str_ok(a) && i + a.len() + 2 <= s@.len() && s@.subrange(
                    i as int,
                    i + a.len() + 2,
                ) == #[trigger] enc_str(a)) implies false by {
                assert(s@.subrange(i as int, i + a.len() + 2)[0] == s@[i as int]);
                assert(enc_str(a)[0] == '"');
            }
        }
        return None;
    }
    let mut j: usize = i + 1;
    while j < n
        invariant
            n == s@.len(),
            i + 1 <= j <= n,
            s@[i as int] == '"',
            forall|t: int| i + 1 <= t < j ==> s@[t] != '"',
        decreases n - j,
    {
        if s.get_char(j) == '"' {
            let content = s.substring_char(i + 1, j);
            proof {
                assert forall|a: Seq<char>|
                    (str_ok(a) && i + a.len() + 2 <= s@.len() && s@.subrange(
                        i as int,
                        i + a.len() + 2,
                    ) == #[trigger] enc_str(a)) implies content@ == a && j + 1 == i + a.len()
                    + 2 by {
                    let w = s@.subrange(i as int, i + a.len() + 2);
                    assert forall|t: int| 0 <= t < a.len() implies s@[i + 1 + t] == a[t] by {
                        assert(w[1 + t] == s@[i + 1 + t]);
                        assert(enc_str(a)[1 + t] == a[t]);
                    }
                    assert(w[a.len() as int + 1] == s@[i as int + 1 + a.len() as int]);
                    assert(enc_str(a)[a.len() as int + 1] == '"');
                    if j < i + 1 + a.len() {
                        assert(s@[j as int] == a[j - i - 1]);
                        assert(!crate::codec::char_ok(a[j - i - 1]));
                        assert(false);
                    }
                    if j > i + 1 + a.len() {
                        assert(s@[i as int + 1 + a.len() as int] != '"');
                        assert(false);
                    }
                    assert(content@ =~= a);
                }
            }
            return Some((String::from_str(content), j + 1));
        }
        j = j + 1;
    }
    proof {
        assert forall|a: Seq<char>|
            (str_ok(a) && i + a.len() + 2 <= s@.len() && s@.subrange(i as int, i + a.len() + 2)
                == #[trigger] enc_str(a)) implies false by {
            let w = s@.subrange(i as int, i + a.len() + 2);
            assert(w[a.len() as int + 1] == s@[i as int + 1 + a.len() as int]);
            assert(enc_str(a)[a.len() as int + 1] == '"');
            assert(s@[i as int + 1 + a.len() as int] != '"');
        }
    }
    None
}

/// Reads a decimal number at position `i`.
fn parse_num(s: &str, i: usize) -> (r: Option<(u64, usize)>)
    requires
        i <= s@.len(),
    ensures
        r matches Some(p) ==> i < p.1 <= s@.len(),
{
    let n = s.unicode_len();
    let mut j: usize = i;
    let mut acc: u64 = 0;
    while j < n
        invariant
            n == s@.len(),
            i <= j <= n,
        decreases n - j,
    {
        let c = s.get_char(j);
        let cu = c as u32;
        if cu < 48 || cu > 57 {
            break;
        }
        let d: u64 = (cu - 48) as u64;
        acc = match acc.checked_mul(10) {
            Some(m) => match m.checked_add(d) {
                Some(v) => v,
                None => {
                    return None;
                },
            },
            None => {
                return None;
            },
        };
        j = j + 1;
    }
    if j == i {
        return None;
    }
    Some((acc, j))
}

/// Reads a field value at position `i`: a quoted string, a boolean or a number.
fn parse_value(s: &str, i: usize) -> (r: Option<(Value, usize)>)
    requires
        i <= s@.len(),
    ensures
        r matches Some(p) ==> i < p.1 <= s@.len(),
{
    let n = s.unicode_len();
    if i >= n {
        return None;
    }
    let c = s.get_char(i);
    if c == '"' {
        match parse_qstring(s, i) {
            Some((t, j)) => Some((Value::VStr(t), j)),
            None => None,
        }
    } else if c == 't' {
        match parse_lit(s, i, "true") {
            Some(j) => {
                proof {
                    reveal_strlit("true");
                }
                Some((Value::VBool(true), j))
            },
            None => None,
        }
    } else if c == 'f' {
        match parse_lit(s, i, "false") {
            Some(j) => {
                proof {
                    reveal_strlit("false");
                }
                Some((Value::VBool(false), j))
            },
            None => None,
        }
    } else {
        match parse_num(s, i) {
            Some((v, j)) => Some((Value::VNum(v), j)),
            None => None,
        }
    }
}

/// Reads a field map `{"k":v,...}` at position `i`.
fn parse_pairs(s: &str, i: usize) -> (r: Option<(Vec<(String, Value)>, usize)>)
    requires
        i <= s@.len(),
    ensures
        r matches Some(p) ==> i < p.1 <= s@.len(),
{
    let n = s.unicode_len();
    if i >= n || s.get_char(i) != '{' {
        return None;
    }
    let mut out: Vec<(String, Value)> = Vec::new();
    let mut j: usize = i + 1;
    if j < n && s.get_char(j) == '}' {
        return Some((out, j + 1));
    }
    loop
        invariant
            n == s@.len(),
            i < j <= n,
        decreases n - j,
    {
        let (key, j1) = match parse_qstring(s, j) {
            Some(p) => p,
            None => {
                return None;
            },
        };
        if j1 >= n || s.get_char(j1) != ':' {
            return None;
        }
        let (v, j2) = match parse_value(s, j1 + 1) {
            Some(p) => p,
            None => {
                return None;
            },
        };
        out.push((key, v));
        if j2 < n && s.get_char(j2) == '}' {
            return Some((out, j2 + 1));
        }
        if j2 < n && s.get_char(j2) == ',' {
            if j2 + 1 >= n {
                return None;
            }
            j = j2 + 1;
        } else {
            return None;
        }
    }
}

/// Reads an or-filter's list of single-field maps at position `i`.
fn parse_or_list(s: &str, i: usize) -> (r: Option<(Vec<(String, Value)>, usize)>)
    requires
        i <= s@.len(),
    ensures
        r matches Some(p) ==> i < p.1 <= s@.len(),
{
    let n = s.unicode_len();
    if i >= n || s.get_char(i) != '[' {
        return None;
    }
    let mut out: Vec<(String, Value)> = Vec::new();
    let mut j: usize = i + 1;
    if j < n && s.get_char(j) == ']' {
        return Some((out, j + 1));
    }
    loop
        invariant
            n == s@.len(),
            i < j <= n,
        decreases n - j,
    {
        let (mut ps, j1) = match parse_pairs(s, j) {
            Some(p) => p,
            None => {
                return None;
            },
        };
        if ps.len() != 1 {
            return None;
        }
        let p = match ps.pop() {
            Some(p) => p,
            None => {
                return None;
            },
        };
        out.push(p);
        if j1 < n && s.get_char(j1) == ']' {
            return Some((out, j1 + 1));
        }
        if j1 < n && s.get_char(j1) == ',' {
            if j1 + 1 >= n {
                return None;
            }
            j = j1 + 1;
        } else {
            return None;
        }
    }
}

/// Reads a row filter at position `i`.
fn parse_where(s: &str, i: usize) -> (r: Option<(WhereClause, usize)>)
    requires
        i <= s@.len(),
    ensures
        r matches Some(p) ==> i < p.1 <= s@.len(),
{
    let n = s.unicode_len();
    if let Some(j) = parse_lit(s, i, "{\"Single\":") {
        proof {
            reveal_strlit("{\"Single\":");
        }
        let (ps, j1) = match parse_pairs(s, j) {
            Some(p) => p,
            None => {
                return None;
            },
        };
        if j1 < n && s.get_char(j1) == '}' {
            return Some((WhereClause::Single(ps), j1 + 1));
        }
        return None;
    }
    if let Some(j) = parse_lit(s, i, "{\"Or\":") {
        proof {
            reveal_strlit("{\"Or\":");
        }
        let (ps, j1) = match parse_or_list(s, j) {
            Some(p) => p,
            None => {
                return None;
            },
        };
        if j1 < n && s.get_char(j1) == '}' {
            return Some((WhereClause::Or(ps), j1 + 1));
        }
        return None;
    }
    None
}

/// Reads a whole request; the text must end with it.
/// A request carrying no value set and no filter, in its canonical form.
pub open spec fn canonical_plain_request(s: Seq<char>, t: Seq<char>, a: DatabaseAction) -> bool {
    str_ok(t) && s == enc_request(
        DatabaseRequestV { table: t, action: a, values: None, filters: None },
    )
}

/// Where a plain request's canonical form stands, each of its segments
/// stands at its fixed offset.
#[verifier::rlimit(100)]
proof fn lemma_plain_request_windows(s: Seq<char>, t: Seq<char>, a: DatabaseAction)
    requires
        canonical_plain_request(s, t, a),
    ensures
        ({
            let tl = t.len() as int;
            let al = action_str(a).len() as int;
            &&& str_ok(action_str(a))
            &&& s.len() == 53 + tl + al
            &&& s.subrange(0, 9) == "{\"table\":"@
            &&& s.subrange(9, 11 + tl) == enc_str(t)
            &&& s.subrange(11 + tl, 21 + tl) == ",\"action\":"@
            &&& s.subrange(21 + tl, 23 + tl + al) == enc_str(action_str(a))
            &&& s.subrange(23 + tl + al, 33 + tl + al) == ",\"values\":"@
            &&& s.subrange(33 + tl + al, 37 + tl + al) == "null"@
            &&& s.subrange(37 + tl + al, 48 + tl + al) == ",\"filters\":"@
            &&& s.subrange(48 + tl + al, 52 + tl + al) == "null"@
            &&& s.subrange(52 + tl + al, 53 + tl + al) == "}"@
        }),
{
    reveal_strlit("{\"table\":");
    reveal_strlit(",\"action\":");
    reveal_strlit(",\"values\":");
    reveal_strlit(",\"filters\":");
    reveal_strlit("null");
    reveal_strlit("}");
    reveal_strlit("Retrieve");
    reveal_strlit("Insert");
    reveal_strlit("Update");
    reveal_strlit("Delete");
    crate::wire_laws::lemma_action_str_ok(a);
    let tl = t.len() as int;
    let al = action_str(a).len() as int;
    assert(s.subrange(0, 9) =~= "{\"table\":"@);
    assert(s.subrange(9, 11 + tl) =~= enc_str(t));
    assert(s.subrange(11 + tl, 21 + tl) =~= ",\"action\":"@);
    assert(s.subrange(21 + tl, 23 + tl + al) =~= enc_str(action_str(a)));
    assert(s.subrange(23 + tl + al, 33 + tl + al) =~= ",\"values\":"@);
    assert(s.subrange(33 + tl + al, 37 + tl + al) =~= "null"@);
    assert(s.subrange(37 + tl + al, 48 + tl + al) =~= ",\"filters\":"@);
    assert(s.subrange(48 + tl + al, 52 + tl + al) =~= "null"@);
    assert(s.subrange(52 + tl + al, 53 + tl + al) =~= "}"@);
}

/// Reads a request's table and action, the fixed head of every request.
/// A plain request's canonical head is always read, and read exactly.
#[verifier::rlimit(100)]
fn parse_request_head(s: &str) -> (r: Option<(String, DatabaseAction, usize)>)
    ensures
        r matches Some(p) ==> p.2 <= s@.len(),
        forall|t: Seq<char>, a: DatabaseAction| #[trigger] canonical_plain_request(s@, t, a) ==> (
        r matches Some(p) && p.0@ == t && p.1 == a && p.2 == 23 + t.len() + action_str(a).len()),
{
    let j = match parse_lit(s, 0, "{\"table\":") {
        Some(j) => j,
        None => {
            proof {
                assert forall|t: Seq<char>, a: DatabaseAction| !canonical_plain_request(
                    s@,
                    t,
                    a,
                ) by {
                    if canonical_plain_request(s@, t, a) {
                        lemma_plain_request_windows(s@, t, a);
                    }
                }
            }
            return None;
        },
    };
    let (table, j) = match parse_qstring(s, j) {
        Some(p) => p,
        None => {
            proof {
                assert forall|t: Seq<char>, a: DatabaseAction| !canonical_plain_request(
                    s@,
                    t,
                    a,
                ) by {
                    if canonical_plain_request(s@, t, a) {
                        lemma_plain_request_windows(s@, t, a);
                        assert(enc_str(t) == enc_str(t));
                    }
                }
            }
            return None;
        },
    };
    let j = match parse_lit(s, j, ",\"action\":") {
        Some(j) => j,
        None => {
            proof {
                assert forall|t: Seq<char>, a: DatabaseAction| !canonical_plain_request(
                    s@,
                    t,
                    a,
                ) by {
                    if canonical_plain_request(s@, t, a) {
                        lemma_plain_request_windows(s@, t, a);
                        assert(enc_str(t) == enc_str(t));
                    }
                }
            }
            return None;
        },
    };
    let (act, j) = match parse_qstring(s, j) {
        Some(p) => p,
        None => {
            proof {
                assert forall|t: Seq<char>, a: DatabaseAction| !canonical_plain_request(
                    s@,
                    t,
                    a,
                ) by {
                    if canonical_plain_request(s@, t, a) {
                        lemma_plain_request_windows(s@, t, a);
                        assert(enc_str(t) == enc_str(t));
                        assert(enc_str(action_str(a)) == enc_str(action_str(a)));
                    }
                }
            }
            return None;
        },
    };
    proof {
        assert forall|t: Seq<char>, a: DatabaseAction| #[trigger] canonical_plain_request(
            s@,
            t,
            a,
        ) implies table@ == t && act@ == action_str(a) && j == 23 + t.len() + action_str(
            a,
        ).len() by {
            lemma_plain_request_windows(s@, t, a);
            assert(enc_str(t) == enc_str(t));
            assert(enc_str(action_str(a)) == enc_str(action_str(a)));
        }
    }
    let action = if str_eq(act.as_str(), "Retrieve") {
        DatabaseAction::Retrieve
    } else if str_eq(act.as_str(), "Insert") {
        DatabaseAction::Insert
    } else if str_eq(act.as_str(), "Update") {
        DatabaseAction::Update
    } else if str_eq(act.as_str(), "Delete") {
        DatabaseAction::Delete
    } else {
        proof {
            reveal_strlit("Retrieve");
            reveal_strlit("Insert");
            reveal_strlit("Update");
            reveal_strlit("Delete");
            assert forall|t: Seq<char>, a: DatabaseAction| !canonical_plain_request(
                s@,
                t,
                a,
            ) by {
                if canonical_plain_request(s@, t, a) {
                    match a {
                        DatabaseAction::Retrieve => assert(act@ == "Retrieve"@),
                        DatabaseAction::Insert => assert(act@ == "Insert"@),
                        DatabaseAction::Update => assert(act@ == "Update"@),
                        DatabaseAction::Delete => assert(act@ == "Delete"@),
                    }
                }
            }
        }
        return None;
    };
    proof {
        reveal_strlit("Retrieve");
        reveal_strlit("Insert");
        reveal_strlit("Update");
        reveal_strlit("Delete");
        assert forall|t: Seq<char>, a: DatabaseAction| #[trigger] canonical_plain_request(
            s@,
            t,
            a,
        ) implies action == a by {
            match a {
                DatabaseAction::Retrieve => {
                    assert(act@ == "Retrieve"@);
                },
                DatabaseAction::Insert => {
                    assert(act@ == "Insert"@);
                    assert("Insert"@.len() != "Retrieve"@.len());
                },
                DatabaseAction::Update => {
                    assert(act@ == "Update"@);
                    assert("Update"@.len() != "Retrieve"@.len());
                    assert("Update"@[0] != "Insert"@[0]);
                },
                DatabaseAction::Delete => {
                    assert(act@ == "Delete"@);
                    assert("Delete"@.len() != "Retrieve"@.len());
                    assert("Delete"@[0] != "Insert"@[0]);
                    assert("Delete"@[0] != "Update"@[0]);
                },
            }
        }
    }
    Some((table, action, j))
}

/// Reads a whole request; the text must end with it. A plain request's
/// canonical form (no value set, no filter) is always read, and read
/// exactly.
#[verifier::rlimit(100)]
fn parse_request_loose(s: &str) -> (r: Option<DatabaseRequest>)
    ensures
        forall|t: Seq<char>, a: DatabaseAction| #[trigger] canonical_plain_request(s@, t, a) ==> (
        r matches Some(q) && q@ == DatabaseRequestV {
            table: t,
            action: a,
            values: None,
            filters: None,
        }),
{
    let n = s.unicode_len();
    let (table, action, j) = match parse_request_head(s) {
        Some(p) => p,
        None => {
            return None;
        },
    };
    let j = match parse_lit(s, j, ",\"values\":") {
        Some(j) => j,
        None => {
            proof {
                assert forall|t: Seq<char>, a: DatabaseAction| !canonical_plain_request(
                    s@,
                    t,
                    a,
                ) by {
                    if canonical_plain_request(s@, t, a) {
                        lemma_plain_request_windows(s@, t, a);
                    }
                }
            }
            return None;
        },
    };
    let (values, j) = if let Some(j1) = parse_lit(s, j, "null") {
        (None, j1)
    } else {
        proof {
            assert forall|t: Seq<char>, a: DatabaseAction| !canonical_plain_request(
                s@,
                t,
                a,
            ) by {
                if canonical_plain_request(s@, t, a) {
                    lemma_plain_request_windows(s@, t, a);
                }
            }
        }
        match parse_pairs(s, j) {
            Some((ps, j1)) => (Some(ps), j1),
            None => {
                return None;
            },
        }
    };
    let j = match parse_lit(s, j, ",\"filters\":") {
        Some(j) => j,
        None => {
            proof {
                assert forall|t: Seq<char>, a: DatabaseAction| !canonical_plain_request(
                    s@,
                    t,
                    a,
                ) by {
                    if canonical_plain_request(s@, t, a) {
                        lemma_plain_request_windows(s@, t, a);
                    }
                }
            }
            return None;
        },
    };
    let (filters, j) = if let Some(j1) = parse_lit(s, j, "null") {
        (None, j1)
    } else {
        proof {
            assert forall|t: Seq<char>, a: DatabaseAction| !canonical_plain_request(
                s@,
                t,
                a,
            ) by {
                if canonical_plain_request(s@, t, a) {
                    lemma_plain_request_windows(s@, t, a);
                }
            }
        }
        let j1 = match parse_lit(s, j, "{\"where_clause\":") {
            Some(j1) => j1,
            None => {
                return None;
            },
        };
        let (w, j2) = match parse_where(s, j1) {
            Some(p) => p,
            None => {
                return None;
            },
        };
        if j2 < n && s.get_char(j2) == '}' {
            (Some(w), j2 + 1)
        } else {
            return None;
        }
    };
    let j = match parse_lit(s, j, "}") {
        Some(j) => j,
        None => {
            proof {
                assert forall|t: Seq<char>, a: DatabaseAction| !canonical_plain_request(
                    s@,
                    t,
                    a,
                ) by {
                    if canonical_plain_request(s@, t, a) {
                        lemma_plain_request_windows(s@, t, a);
                    }
                }
            }
            return None;
        },
    };
    if j != n {
        proof {
            assert forall|t: Seq<char>, a: DatabaseAction| !canonical_plain_request(
                s@,
                t,
                a,
            ) by {
                if canonical_plain_request(s@, t, a) {
                    lemma_plain_request_windows(s@, t, a);
                }
            }
        }
        return None;
    }
    let r = DatabaseRequest { table, action, values, filters };
    proof {
        assert forall|t: Seq<char>, a: DatabaseAction| #[trigger] canonical_plain_request(
            s@,
            t,
            a,
        ) implies r@ == DatabaseRequestV {
            table: t,
            action: a,
            values: None,
            filters: None,
        } by {
            lemma_plain_request_windows(s@, t, a);
            assert(r@ =~~= DatabaseRequestV { table: t, action: a, values: None, filters: None });
        }
    }
    Some(r)
}

/// Reads one stored authentication record at position `i`.
fn parse_auth_user(s: &str, i: usize) -> (r: Option<(AuthUser, usize)>)
    requires
        i <= s@.len(),
    ensures
        r matches Some(p) ==> i < p.1 <= s@.len(),
{
    let j = match parse_lit(s, i, "{\"uid\":") {
        Some(j) => j,
        None => {
            return None;
        },
    };
    let (uid, j) = match parse_num(s, j) {
        Some(p) => p,
        None => {
            return None;
        },
    };
    let j = match parse_lit(s, j, ",\"email\":") {
        Some(j) => j,
        None => {
            return None;
        },
    };
    let (email, j) = match parse_qstring(s, j) {
        Some(p) => p,
        None => {
            return None;
        },
    };
    let j = match parse_lit(s, j, ",\"username\":") {
        Some(j) => j,
        None => {
            return None;
        },
    };
    let (username, j) = match parse_qstring(s, j) {
        Some(p) => p,
        None => {
            return None;
        },
    };
    let j = match parse_lit(s, j, ",\"email_verified\":") {
        Some(j) => j,
        None => {
            return None;
        },
    };
    let (email_verified, j) = if let Some(j1) = parse_lit(s, j, "true") {
        (true, j1)
    } else if let Some(j1) = parse_lit(s, j, "false") {
        (false, j1)
    } else {
        return None;
    };
    let j = match parse_lit(s, j, ",\"password_hash\":") {
        Some(j) => j,
        None => {
            return None;
        },
    };
    let (password_hash, j) = match parse_qstring(s, j) {
        Some(p) => p,
        None => {
            return None;
        },
    };
    let j = match parse_lit(s, j, "}") {
        Some(j) => j,
        None => {
            return None;
        },
    };
    Some((AuthUser { uid, email, username, email_verified, password_hash }, j))
}

/// A reply naming an error, in its canonical form.
pub open spec fn canonical_error_reply(s: Seq<char>, m: Seq<char>) -> bool {
    str_ok(m) && s == enc_response(DatabaseResponseV::Error(m))
}

/// The empty payload, in its canonical form.
pub open spec fn canonical_empty_reply(s: Seq<char>) -> bool {
    s == enc_response(DatabaseResponseV::Data(Seq::<AuthUserV>::empty()))
}

/// Reads a whole reply; the text must end with it. A canonical error reply
/// and the canonical empty payload are always read, and read exactly.
fn parse_response_loose(s: &str) -> (r: Option<DatabaseResponse>)
    ensures
        forall|m: Seq<char>| #[trigger] canonical_error_reply(s@, m) ==> (r matches Some(p) && p@
            == DatabaseResponseV::Error(m)),
        canonical_empty_reply(s@) ==> (r matches Some(p) && p@ == DatabaseResponseV::Data(
            Seq::<AuthUserV>::empty(),
        )),
{
    proof {
        reveal_strlit("{\"error\":");
        reveal_strlit("{\"data\":[");
        reveal_strlit("]}");
        reveal_strlit("}");
    }
    let ghost emptyv = Seq::<AuthUserV>::empty();
    proof {
        assert(crate::codec::enc_rows(emptyv, 0) == Seq::<char>::empty());
        if canonical_empty_reply(s@) {
            assert(s@ =~= "{\"data\":["@ + "]}"@);
        }
    }
    let n = s.unicode_len();
    if let Some(j) = parse_lit(s, 0, "{\"error\":") {
        proof {
            if canonical_empty_reply(s@) {
                assert(s@.subrange(0, 9)[2] == s@[2]);
                assert(false);
            }
            assert forall|m: Seq<char>| #[trigger] canonical_error_reply(s@, m) implies s@.subrange(
                9,
                9 + m.len() as int + 2,
            ) == enc_str(m) && s@.len() == 9 + m.len() + 3 by {
                assert(s@ =~= "{\"error\":"@ + enc_str(m) + seq!['}']);
                assert(s@.subrange(9, 9 + m.len() as int + 2) =~= enc_str(m));
            }
        }
        let (m, j1) = match parse_qstring(s, j) {
            Some(p) => p,
            None => {
                proof {
                    assert forall|m0: Seq<char>| !canonical_error_reply(s@, m0) by {
                        if canonical_error_reply(s@, m0) {
                            assert(enc_str(m0) == enc_str(m0));
                        }
                    }
                }
                return None;
            },
        };
        let j2 = match parse_lit(s, j1, "}") {
            Some(j2) => j2,
            None => {
                proof {
                    assert forall|m0: Seq<char>| !canonical_error_reply(s@, m0) by {
                        if canonical_error_reply(s@, m0) {
                            assert(enc_str(m0) == enc_str(m0));
                            assert(s@.subrange(j1 as int, j1 as int + 1) =~= "}"@);
                        }
                    }
                }
                return None;
            },
        };
        if j2 != n {
            proof {
                assert forall|m0: Seq<char>| !canonical_error_reply(s@, m0) by {
                    if canonical_error_reply(s@, m0) {
                        assert(enc_str(m0) == enc_str(m0));
                    }
                }
            }
            return None;
        }
        proof {
            assert forall|m0: Seq<char>| #[trigger] canonical_error_reply(s@, m0) implies m@
                == m0 by {
                assert(enc_str(m0) == enc_str(m0));
            }
        }
        return Some(DatabaseResponse::Error(m));
    }
    proof {
        assert forall|m0: Seq<char>| !canonical_error_reply(s@, m0) by {
            if canonical_error_reply(s@, m0) {
                assert(s@ =~= "{\"error\":"@ + enc_str(m0) + seq!['}']);
                assert(s@.subrange(0, 9) =~= "{\"error\":"@);
            }
        }
    }
    let j = match parse_lit(s, 0, "{\"data\":[") {
        Some(j) => j,
        None => {
            proof {
                if canonical_empty_reply(s@) {
                    assert(s@.subrange(0, 9) =~= "{\"data\":["@);
                }
            }
            return None;
        },
    };
    let mut rows: Vec<AuthUser> = Vec::new();
    let mut j: usize = j;
    if j < n && s.get_char(j) == ']' {
        let j1 = match parse_lit(s, j + 1, "}") {
            Some(j1) => j1,
            None => {
                proof {
                    if canonical_empty_reply(s@) {
                        assert(s@[10] == '}');
                        assert(s@.subrange(10, 11) =~= "}"@);
                    }
                }
                return None;
            },
        };
        if j1 != n {
            return None;
        }
        proof {
            assert(rows.deep_view() =~= emptyv);
        }
        return Some(DatabaseResponse::Data(rows));
    }
    proof {
        if canonical_empty_reply(s@) {
            assert(s@[9] == ']');
            assert(false);
        }
    }
    loop
        invariant
            n == s@.len(),
            j <= n,
            forall|m0: Seq<char>| !canonical_error_reply(s@, m0),
            !canonical_empty_reply(s@),
        decreases n - j,
    {
        let (u, j1) = match parse_auth_user(s, j) {
            Some(p) => p,
            None => {
                return None;
            },
        };
        rows.push(u);
        if j1 < n && s.get_char(j1) == ']' {
            let j2 = match parse_lit(s, j1 + 1, "}") {
                Some(j2) => j2,
                None => {
                    return None;
                },
            };
            if j2 != n {
                return None;
            }
            return Some(DatabaseResponse::Data(rows));
        }
        if j1 < n && s.get_char(j1) == ',' {
            if j1 + 1 >= n {
                return None;
            }
            j = j1 + 1;
        } else {
            return None;
        }
    }
}

/// Decodes a raw message as a request.
///
/// A successful decode returns the one request whose canonical wire form the
/// input is: re-encoding the result reproduces the input exactly. Success is
/// owed, and delivered, on the canonical form of every request that carries
/// no value set and no filter.
pub fn decode_request(s: &str) -> (r: Result<DatabaseRequest, CodecError>)
    ensures
        r matches Ok(q) ==> req_encodable(q@) && s@ == enc_request(q@),
        forall|t: Seq<char>, a: DatabaseAction| #[trigger] canonical_plain_request(s@, t, a) ==> (
        r matches Ok(q) && q@ == DatabaseRequestV {
            table: t,
            action: a,
            values: None,
            filters: None,
        }),
{
    let q = match parse_request_loose(s) {
        Some(q) => q,
        None => {
            return Err(CodecError::Decoding);
        },
    };
    let enc = match encode_request(&q) {
        Ok(enc) => enc,
        Err(_) => {
            proof {
                assert forall|t: Seq<char>, a: DatabaseAction| !canonical_plain_request(
                    s@,
                    t,
                    a,
                ) by {
                    if canonical_plain_request(s@, t, a) {
                        assert(req_encodable(q@));
                    }
                }
            }
            return Err(CodecError::Decoding);
        },
    };
    if str_eq(enc.as_str(), s) {
        Ok(q)
    } else {
        proof {
            assert forall|t: Seq<char>, a: DatabaseAction| !canonical_plain_request(
                s@,
                t,
                a,
            ) by {
                if canonical_plain_request(s@, t, a) {
                    assert(enc@ == enc_request(q@));
                }
            }
        }
        Err(CodecError::Decoding)
    }
}

/// Decodes a raw inbound message as a reply.
///
/// A successful decode returns the one reply whose canonical wire form the
/// input is: re-encoding the result reproduces the input exactly. Success is
/// owed, and delivered, on every canonical error reply and on the canonical
/// empty payload.
pub fn decode_response(s: &str) -> (r: Result<DatabaseResponse, CodecError>)
    ensures
        r matches Ok(p) ==> resp_encodable(p@) && s@ == enc_response(p@),
        forall|m: Seq<char>| #[trigger] canonical_error_reply(s@, m) ==> (r matches Ok(p) && p@
            == DatabaseResponseV::Error(m)),
        canonical_empty_reply(s@) ==> (r matches Ok(p) && p@ == DatabaseResponseV::Data(
            Seq::<AuthUserV>::empty(),
        )),
{
    let p = match parse_response_loose(s) {
        Some(p) => p,
        None => {
            return Err(CodecError::Decoding);
        },
    };
    let enc = match encode_response(&p) {
        Ok(enc) => enc,
        Err(_) => {
            proof {
                assert forall|m: Seq<char>| !canonical_error_reply(s@, m) by {
                    if canonical_error_reply(s@, m) {
                        assert(resp_encodable(p@));
                    }
                }
            }
            return Err(CodecError::Decoding);
        },
    };
    if str_eq(enc.as_str(), s) {
        Ok(p)
    } else {
        proof {
            assert forall|m: Seq<char>| !canonical_error_reply(s@, m) by {
                if canonical_error_reply(s@, m) {
                    assert(enc@ == enc_response(p@));
                }
            }
            if canonical_empty_reply(s@) {
                assert(enc@ == enc_response(p@));
            }
        }
        Err(CodecError::Decoding)
    }
}

} // verus!
