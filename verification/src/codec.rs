use vstd::prelude::*;
use vstd::string::StrSliceExecFns;
use vstd::string::StringExecFns;

use crate::model::AuthUser;
use crate::model::DatabaseAction;
use crate::model::DatabaseRequest;
use crate::model::DatabaseRequestV;
use crate::model::DatabaseResponse;
use crate::model::DatabaseResponseV;
use crate::model::Value;
use crate::model::ValueV;
use crate::model::WhereClause;
use crate::model::WhereClauseV;
use crate::model::AuthUserV;
use crate::model::pairs_view;

verus! {

/// Failure of the wire codec: a request that has no canonical wire form, or
/// an inbound message that is not a canonical reply.
#[derive(Debug)]
pub enum CodecError {
    Encoding,
    Decoding,
}

// ---------------------------------------------------------------------------
// The canonical wire form, at the spec level.
//
// One text message per exchange. Field order is fixed, no whitespace, and
// strings are carried verbatim between quotes: a string holding a quote, a
// backslash or a control character has no canonical form and is refused at
// encoding time.
// ---------------------------------------------------------------------------

/// A character that may stand verbatim inside a quoted wire string.
pub open spec fn char_ok(c: char) -> bool {
    c != '"' && c != '\\' && (c as u32) >= 32
}

/// A string that has a canonical wire form.
pub open spec fn str_ok(s: Seq<char>) -> bool {
    forall|i: int| 0 <= i < s.len() ==> char_ok(s[i])
}

/// Canonical form of a string: its characters between quotes.
pub open spec fn enc_str(s: Seq<char>) -> Seq<char> {
    seq!['"'] + s + seq!['"']
}

/// The decimal digit character for `d` (`d < 10`).
pub open spec fn spec_digit_char(d: u64) -> char {
    if d == 0 { '0' }
    else if d == 1 { '1' }
    else if d == 2 { '2' }
    else if d == 3 { '3' }
    else if d == 4 { '4' }
    else if d == 5 { '5' }
    else if d == 6 { '6' }
    else if d == 7 { '7' }
    else if d == 8 { '8' }
    else { '9' }
}

/// Canonical decimal form of an unsigned number, most significant digit first.
pub open spec fn enc_num(n: u64) -> Seq<char>
    decreases n,
{
    if n < 10 {
        seq![spec_digit_char(n)]
    } else {
        enc_num(n / 10).push(spec_digit_char(n % 10))
    }
}

/// Canonical form of a field value.
pub open spec fn enc_value(v: ValueV) -> Seq<char> {
    match v {
        ValueV::VStr(s) => enc_str(s),
        ValueV::VBool(b) => if b { "true"@ } else { "false"@ },
        ValueV::VNum(n) => enc_num(n),
    }
}

/// A field value that has a canonical wire form.
pub open spec fn value_ok(v: ValueV) -> bool {
    match v {
        ValueV::VStr(s) => str_ok(s),
        ValueV::VBool(_) => true,
        ValueV::VNum(_) => true,
    }
}

/// Canonical form of one field: `"name":value`.
pub open spec fn enc_pair(p: (Seq<char>, ValueV)) -> Seq<char> {
    enc_str(p.0) + seq![':'] + enc_value(p.1)
}

/// The first `i` fields of a map, comma separated.
pub open spec fn enc_items(ps: Seq<(Seq<char>, ValueV)>, i: int) -> Seq<char>
    decreases i,
{
    if i <= 0 {
        Seq::<char>::empty()
    } else {
        enc_items(ps, i - 1) + (if i - 1 == 0 { Seq::<char>::empty() } else { seq![','] })
            + enc_pair(ps[i - 1])
    }
}

/// Canonical form of a field map.
pub open spec fn enc_pairs(ps: Seq<(Seq<char>, ValueV)>) -> Seq<char> {
    seq!['{'] + enc_items(ps, ps.len() as int) + seq!['}']
}

/// A field whose name and value have a canonical wire form.
pub open spec fn pair_ok(p: (Seq<char>, ValueV)) -> bool {
    str_ok(p.0) && value_ok(p.1)
}

/// A field map whose every name and value has a canonical wire form.
pub open spec fn pairs_ok(ps: Seq<(Seq<char>, ValueV)>) -> bool {
    forall|i: int| 0 <= i < ps.len() ==> pair_ok(#[trigger] ps[i])
}

/// The first `i` single-field maps of an or-filter, comma separated.
pub open spec fn enc_or_items(ps: Seq<(Seq<char>, ValueV)>, i: int) -> Seq<char>
    decreases i,
{
    if i <= 0 {
        Seq::<char>::empty()
    } else {
        enc_or_items(ps, i - 1) + (if i - 1 == 0 { Seq::<char>::empty() } else { seq![','] })
            + enc_pairs(seq![ps[i - 1]])
    }
}

/// The wire name of each database action.
pub open spec fn action_str(a: DatabaseAction) -> Seq<char> {
    match a {
        DatabaseAction::Retrieve => "Retrieve"@,
        DatabaseAction::Insert => "Insert"@,
        DatabaseAction::Update => "Update"@,
        DatabaseAction::Delete => "Delete"@,
    }
}

/// Canonical form of a row filter.
pub open spec fn enc_where(w: WhereClauseV) -> Seq<char> {
    match w {
        WhereClauseV::Single(ps) => "{\"Single\":"@ + enc_pairs(ps) + seq!['}'],
        WhereClauseV::Or(ps) => "{\"Or\":["@ + enc_or_items(ps, ps.len() as int) + "]}"@,
    }
}

/// A row filter whose strings all have a canonical wire form.
pub open spec fn where_ok(w: WhereClauseV) -> bool {
    match w {
        WhereClauseV::Single(ps) => pairs_ok(ps),
        WhereClauseV::Or(ps) => pairs_ok(ps),
    }
}

/// Canonical form of an optional field map: `null` when absent.
pub open spec fn enc_opt_pairs(v: Option<Seq<(Seq<char>, ValueV)>>) -> Seq<char> {
    match v {
        Some(ps) => enc_pairs(ps),
        None => "null"@,
    }
}

/// Canonical form of an optional filter: `null` when absent.
pub open spec fn enc_filters(f: Option<WhereClauseV>) -> Seq<char> {
    match f {
        Some(w) => "{\"where_clause\":"@ + enc_where(w) + seq!['}'],
        None => "null"@,
    }
}

/// Canonical wire form of a whole request.
pub open spec fn enc_request(q: DatabaseRequestV) -> Seq<char> {
    "{\"table\":"@ + enc_str(q.table) + ",\"action\":"@ + enc_str(action_str(q.action))
        + ",\"values\":"@ + enc_opt_pairs(q.values) + ",\"filters\":"@ + enc_filters(q.filters)
        + seq!['}']
}

/// A request every string of which has a canonical wire form.
pub open spec fn req_encodable(q: DatabaseRequestV) -> bool {
    &&& str_ok(q.table)
    &&& match q.values {
        Some(ps) => pairs_ok(ps),
        None => true,
    }
    &&& match q.filters {
        Some(w) => where_ok(w),
        None => true,
    }
}

/// Canonical wire form of one stored authentication record.
pub open spec fn enc_auth_user(u: AuthUserV) -> Seq<char> {
    "{\"uid\":"@ + enc_num(u.uid) + ",\"email\":"@ + enc_str(u.email) + ",\"username\":"@
        + enc_str(u.username) + ",\"email_verified\":"@ + (if u.email_verified { "true"@ } else { "false"@ })
        + ",\"password_hash\":"@ + enc_str(u.password_hash) + seq!['}']
}

/// A record every string of which has a canonical wire form.
pub open spec fn auth_user_ok(u: AuthUserV) -> bool {
    str_ok(u.email) && str_ok(u.username) && str_ok(u.password_hash)
}

/// The first `i` records of a payload, comma separated.
pub open spec fn enc_rows(rows: Seq<AuthUserV>, i: int) -> Seq<char>
    decreases i,
{
    if i <= 0 {
        Seq::<char>::empty()
    } else {
        enc_rows(rows, i - 1) + (if i - 1 == 0 { Seq::<char>::empty() } else { seq![','] })
            + enc_auth_user(rows[i - 1])
    }
}

/// Canonical wire form of a whole reply.
pub open spec fn enc_response(r: DatabaseResponseV) -> Seq<char> {
    match r {
        DatabaseResponseV::Data(rows) => "{\"data\":["@ + enc_rows(rows, rows.len() as int)
            + "]}"@,
        DatabaseResponseV::Error(m) => "{\"error\":"@ + enc_str(m) + seq!['}'],
    }
}

/// A reply every string of which has a canonical wire form.
pub open spec fn resp_encodable(r: DatabaseResponseV) -> bool {
    match r {
        DatabaseResponseV::Data(rows) => forall|i: int|
            0 <= i < rows.len() ==> auth_user_ok(#[trigger] rows[i]),
        DatabaseResponseV::Error(m) => str_ok(m),
    }
}

// ---------------------------------------------------------------------------
// The encoder.
// ---------------------------------------------------------------------------

/// Whether every character of `s` may stand verbatim in a wire string.
fn check_str(s: &str) -> (r: bool)
    ensures
        r == str_ok(s@),
{
    let n = s.unicode_len();
    let mut i: usize = 0;
    while i < n
        invariant
            n == s@.len(),
            0 <= i <= n,
            forall|k: int| 0 <= k < i ==> char_ok(s@[k]),
        decreases n - i,
    {
        let c = s.get_char(i);
        if c == '"' || c == '\\' || (c as u32) < 32 {
            return false;
        }
        i = i + 1;
    }
    true
}

/// Appends `s` between quotes, refusing a string with no canonical form.
fn push_quoted(out: &mut String, s: &str) -> (ok: bool)
    ensures
        ok == str_ok(s@),
        ok ==> final(out)@ == old(out)@ + enc_str(s@),
{
    if !check_str(s) {
        return false;
    }
    out.append("\"");
    out.append(s);
    out.append("\"");
    proof {
        reveal_strlit("\"");
        assert("\""@ =~= seq!['"']);
        assert(out@ =~= old(out)@ + enc_str(s@));
    }
    true
}

/// Appends the decimal digit character for `d`.
fn push_digit(out: &mut String, d: u64)
    requires
        d < 10,
    ensures
        final(out)@ == old(out)@ + seq![spec_digit_char(d)],
{
    let s: &str = if d == 0 {
        "0"
    } else if d == 1 {
        "1"
    } else if d == 2 {
        "2"
    } else if d == 3 {
        "3"
    } else if d == 4 {
        "4"
    } else if d == 5 {
        "5"
    } else if d == 6 {
        "6"
    } else if d == 7 {
        "7"
    } else if d == 8 {
        "8"
    } else {
        "9"
    };
    proof {
        reveal_strlit("0");
        reveal_strlit("1");
        reveal_strlit("2");
        reveal_strlit("3");
        reveal_strlit("4");
        reveal_strlit("5");
        reveal_strlit("6");
        reveal_strlit("7");
        reveal_strlit("8");
        reveal_strlit("9");
        assert(s@ =~= seq![spec_digit_char(d)]);
    }
    out.append(s);
}

/// Appends the canonical decimal form of `n`.
fn push_num(out: &mut String, n: u64)
    ensures
        final(out)@ == old(out)@ + enc_num(n),
    decreases n,
{
    if n < 10 {
        push_digit(out, n);
    } else {
        push_num(out, n / 10);
        push_digit(out, n % 10);
        proof {
            assert(out@ =~= old(out)@ + enc_num(n));
        }
    }
}

/// Appends the canonical form of a field value.
fn push_value(out: &mut String, v: &Value) -> (ok: bool)
    ensures
        ok == value_ok(v@),
        ok ==> final(out)@ == old(out)@ + enc_value(v@),
{
    match v {
        Value::VStr(s) => push_quoted(out, s.as_str()),
        Value::VBool(b) => {
            if *b {
                out.append("true");
            } else {
                out.append("false");
            }
            true
        },
        Value::VNum(n) => {
            push_num(out, *n);
            true
        },
    }
}

/// Appends the canonical form of a field map.
fn push_pairs(out: &mut String, ps: &Vec<(String, Value)>) -> (ok: bool)
    ensures
        ok == pairs_ok(pairs_view(ps@)),
        ok ==> final(out)@ == old(out)@ + enc_pairs(pairs_view(ps@)),
{
    let ghost pv = pairs_view(ps@);
    out.append("{");
    proof {
        reveal_strlit("{");
        assert("{"@ =~= seq!['{']);
    }
    let mut i: usize = 0;
    while i < ps.len()
        invariant
            pv == pairs_view(ps@),
            pv.len() == ps@.len(),
            forall|k: int| 0 <= k < ps@.len() ==> pv[k] == (ps@[k].0@, ps@[k].1@),
            0 <= i <= ps@.len(),
            out@ == old(out)@ + seq!['{'] + enc_items(pv, i as int),
            forall|k: int| 0 <= k < i ==> pair_ok(#[trigger] pv[k]),
        decreases ps@.len() - i,
    {
        let ghost pre = out@;
        if i > 0 {
            out.append(",");
            proof {
                reveal_strlit(",");
                assert(","@ =~= seq![',']);
            }
        }
        let p = &ps[i];
        if !push_quoted(out, p.0.as_str()) {
            proof {
                assert(pv[i as int] == (p.0@, p.1@));
                assert(!pair_ok(pv[i as int]));
                assert(!pairs_ok(pv));
            }
            return false;
        }
        out.append(":");
        proof {
            reveal_strlit(":");
            assert(":"@ =~= seq![':']);
        }
        if !push_value(out, &p.1) {
            proof {
                assert(pv[i as int] == (p.0@, p.1@));
                assert(!pair_ok(pv[i as int]));
                assert(!pairs_ok(pv));
            }
            return false;
        }
        proof {
            assert(pv[i as int] == (p.0@, p.1@));
            assert(pair_ok(pv[i as int]));
            assert(enc_items(pv, i + 1) == enc_items(pv, i as int)
                + (if i == 0 { Seq::<char>::empty() } else { seq![','] }) + enc_pair(pv[i as int]));
            assert(out@ =~= old(out)@ + seq!['{'] + enc_items(pv, i + 1));
        }
        i = i + 1;
    }
    out.append("}");
    proof {
        reveal_strlit("}");
        assert("}"@ =~= seq!['}']);
        assert(out@ =~= old(out)@ + enc_pairs(pv));
        assert(pairs_ok(pv));
    }
    true
}

/// Appends the canonical form of an or-filter's list of single-field maps.
fn push_or_items(out: &mut String, ps: &Vec<(String, Value)>) -> (ok: bool)
    ensures
        ok == pairs_ok(pairs_view(ps@)),
        ok ==> final(out)@ == old(out)@ + enc_or_items(pairs_view(ps@), ps@.len() as int),
{
    let ghost pv = pairs_view(ps@);
    let mut i: usize = 0;
    while i < ps.len()
        invariant
            pv == pairs_view(ps@),
            pv.len() == ps@.len(),
            forall|k: int| 0 <= k < ps@.len() ==> pv[k] == (ps@[k].0@, ps@[k].1@),
            0 <= i <= ps@.len(),
            out@ == old(out)@ + enc_or_items(pv, i as int),
            forall|k: int| 0 <= k < i ==> pair_ok(#[trigger] pv[k]),
        decreases ps@.len() - i,
    {
        if i > 0 {
            out.append(",");
            proof {
                reveal_strlit(",");
                assert(","@ =~= seq![',']);
            }
        }
        out.append("{");
        proof {
            reveal_strlit("{");
            assert("{"@ =~= seq!['{']);
        }
        let p = &ps[i];
        if !push_quoted(out, p.0.as_str()) {
            proof {
                assert(pv[i as int] == (p.0@, p.1@));
                assert(!pair_ok(pv[i as int]));
                assert(!pairs_ok(pv));
            }
            return false;
        }
        out.append(":");
        proof {
            reveal_strlit(":");
            assert(":"@ =~= seq![':']);
        }
        if !push_value(out, &p.1) {
            proof {
                assert(pv[i as int] == (p.0@, p.1@));
                assert(!pair_ok(pv[i as int]));
                assert(!pairs_ok(pv));
            }
            return false;
        }
        out.append("}");
        proof {
            reveal_strlit("}");
            assert("}"@ =~= seq!['}']);
            let one = seq![pv[i as int]];
            assert(one[0] == pv[i as int]);
            assert(enc_items(one, 0) == Seq::<char>::empty());
            assert(enc_items(one, 1) =~= enc_pair(pv[i as int]));
            assert(enc_pairs(one) =~= seq!['{'] + enc_pair(pv[i as int]) + seq!['}']);
            assert(enc_or_items(pv, i + 1) == enc_or_items(pv, i as int)
                + (if i == 0 { Seq::<char>::empty() } else { seq![','] }) + enc_pairs(one));
            assert(out@ =~= old(out)@ + enc_or_items(pv, i + 1));
            assert(pv[i as int] == (p.0@, p.1@));
            assert(pair_ok(pv[i as int]));
        }
        i = i + 1;
    }
    proof {
        assert(pairs_ok(pv));
    }
    true
}

/// Appends the canonical form of a row filter.
fn push_where(out: &mut String, w: &WhereClause) -> (ok: bool)
    ensures
        ok == where_ok(w@),
        ok ==> final(out)@ == old(out)@ + enc_where(w@),
{
    match w {
        WhereClause::Single(ps) => {
            out.append("{\"Single\":");
            if !push_pairs(out, ps) {
                return false;
            }
            out.append("}");
            proof {
                reveal_strlit("}");
                assert("}"@ =~= seq!['}']);
                assert(out@ =~= old(out)@ + enc_where(w@));
            }
            true
        },
        WhereClause::Or(ps) => {
            out.append("{\"Or\":[");
            if !push_or_items(out, ps) {
                return false;
            }
            out.append("]}");
            proof {
                assert(out@ =~= old(out)@ + enc_where(w@));
            }
            true
        },
    }
}

/// Encodes a request to its canonical wire form.
///
/// Encoding succeeds exactly when every string of the request can stand
/// verbatim in a wire string; the result is then the canonical form.
pub fn encode_request(q: &DatabaseRequest) -> (r: Result<String, CodecError>)
    ensures
        r is Ok <==> req_encodable(q@),
        r matches Ok(s) ==> s@ == enc_request(q@),
{
    let mut out = String::new();
    out.append("{\"table\":");
    if !push_quoted(&mut out, q.table.as_str()) {
        return Err(CodecError::Encoding);
    }
    proof {
        assert(out@ =~= "{\"table\":"@ + enc_str(q.table@));
    }
    let ghost g1 = out@;
    out.append(",\"action\":");
    let a: &str = match q.action {
        DatabaseAction::Retrieve => "Retrieve",
        DatabaseAction::Insert => "Insert",
        DatabaseAction::Update => "Update",
        DatabaseAction::Delete => "Delete",
    };
    proof {
        reveal_strlit("Retrieve");
        reveal_strlit("Insert");
        reveal_strlit("Update");
        reveal_strlit("Delete");
        assert(a@ == action_str(q.action));
        assert(str_ok(action_str(q.action))) by {
            assert(forall|i: int| 0 <= i < a@.len() ==> char_ok(a@[i]));
        }
    }
    let pushed = push_quoted(&mut out, a);
    proof {
        assert(pushed);
        assert(out@ =~= g1 + ",\"action\":"@ + enc_str(action_str(q.action)));
    }
    let ghost g2 = out@;
    out.append(",\"values\":");
    match &q.values {
        Some(ps) => {
            if !push_pairs(&mut out, ps) {
                return Err(CodecError::Encoding);
            }
        },
        None => {
            out.append("null");
        },
    }
    proof {
        assert(out@ =~= g2 + ",\"values\":"@ + enc_opt_pairs(q@.values));
    }
    let ghost g3 = out@;
    out.append(",\"filters\":");
    match &q.filters {
        Some(w) => {
            out.append("{\"where_clause\":");
            if !push_where(&mut out, w) {
                return Err(CodecError::Encoding);
            }
            out.append("}");
            proof {
                reveal_strlit("}");
                assert("}"@ =~= seq!['}']);
            }
        },
        None => {
            out.append("null");
        },
    }
    proof {
        assert(out@ =~= g3 + ",\"filters\":"@ + enc_filters(q@.filters));
    }
    out.append("}");
    proof {
        reveal_strlit("}");
        assert("}"@ =~= seq!['}']);
        assert(out@ =~= enc_request(q@));
    }
    Ok(out)
}

/// Appends the canonical form of one stored authentication record.
fn push_auth_user(out: &mut String, u: &AuthUser) -> (ok: bool)
    ensures
        ok == auth_user_ok(u@),
        ok ==> final(out)@ == old(out)@ + enc_auth_user(u@),
{
    let ghost g0 = out@;
    out.append("{\"uid\":");
    push_num(out, u.uid);
    proof {
        assert(out@ =~= g0 + "{\"uid\":"@ + enc_num(u.uid));
    }
    let ghost g1 = out@;
    out.append(",\"email\":");
    if !push_quoted(out, u.email.as_str()) {
        return false;
    }
    proof {
        assert(out@ =~= g1 + ",\"email\":"@ + enc_str(u.email@));
    }
    let ghost g2 = out@;
    out.append(",\"username\":");
    if !push_quoted(out, u.username.as_str()) {
        return false;
    }
    proof {
        assert(out@ =~= g2 + ",\"username\":"@ + enc_str(u.username@));
    }
    let ghost g3 = out@;
    out.append(",\"email_verified\":");
    if u.email_verified {
        out.append("true");
    } else {
        out.append("false");
    }
    proof {
        assert(out@ =~= g3 + ",\"email_verified\":"@
            + (if u.email_verified { "true"@ } else { "false"@ }));
    }
    let ghost g4 = out@;
    out.append(",\"password_hash\":");
    if !push_quoted(out, u.password_hash.as_str()) {
        return false;
    }
    out.append("}");
    proof {
        reveal_strlit("}");
        assert("}"@ =~= seq!['}']);
        assert(out@ =~= g4 + ",\"password_hash\":"@ + enc_str(u.password_hash@) + seq!['}']);
        assert(out@ =~= old(out)@ + enc_auth_user(u@));
    }
    true
}

/// Encodes a reply to its canonical wire form: what the database actor (or a
/// stub standing for it) puts on the wire.
pub fn encode_response(r: &DatabaseResponse) -> (res: Result<String, CodecError>)
    ensures
        res is Ok <==> resp_encodable(r@),
        res matches Ok(s) ==> s@ == enc_response(r@),
{
    let mut out = String::new();
    match r {
        DatabaseResponse::Data(rows) => {
            let ghost rv = rows.deep_view();
            proof {
                assert(r@ =~= DatabaseResponseV::Data(rv));
            }
            out.append("{\"data\":[");
            let mut i: usize = 0;
            while i < rows.len()
                invariant
                    r@ == DatabaseResponseV::Data(rv),
                    rv == rows.deep_view(),
                    rv.len() == rows@.len(),
                    forall|k: int| 0 <= k < rows@.len() ==> rv[k] == rows@[k]@,
                    0 <= i <= rows@.len(),
                    out@ == "{\"data\":["@ + enc_rows(rv, i as int),
                    forall|k: int| 0 <= k < i ==> auth_user_ok(#[trigger] rv[k]),
                decreases rows@.len() - i,
            {
                if i > 0 {
                    out.append(",");
                    proof {
                        reveal_strlit(",");
                        assert(","@ =~= seq![',']);
                    }
                }
                let row = &rows[i];
                if !push_auth_user(&mut out, row) {
                    proof {
                        let rows0 = r@->Data_0;
                        assert(rows0[i as int] == row@);
                        assert(!auth_user_ok(rows0[i as int]));
                        assert(!resp_encodable(r@));
                    }
                    return Err(CodecError::Encoding);
                }
                proof {
                    assert(out@ =~= "{\"data\":["@ + enc_rows(rv, i + 1));
                }
                i = i + 1;
            }
            out.append("]}");
            proof {
                assert(out@ =~= enc_response(r@));
            }
            Ok(out)
        },
        DatabaseResponse::Error(m) => {
            out.append("{\"error\":");
            if !push_quoted(&mut out, m.as_str()) {
                return Err(CodecError::Encoding);
            }
            out.append("}");
            proof {
                reveal_strlit("}");
                assert("}"@ =~= seq!['}']);
                assert(out@ =~= enc_response(r@));
            }
            Ok(out)
        },
    }
}

} // verus!
