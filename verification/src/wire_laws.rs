use vstd::prelude::*;

use crate::codec::char_ok;
use crate::codec::enc_num;
use crate::codec::enc_pair;
use crate::codec::enc_pairs;
use crate::codec::enc_str;
use crate::codec::enc_value;
use crate::codec::enc_items;
use crate::codec::pair_ok;
use crate::codec::pairs_ok;
use crate::codec::action_str;
use crate::codec::enc_filters;
use crate::codec::enc_opt_pairs;
use crate::codec::enc_or_items;
use crate::codec::enc_request;
use crate::codec::enc_where;
use crate::codec::req_encodable;
use crate::codec::spec_digit_char;
use crate::codec::str_ok;
use crate::codec::value_ok;
use crate::codec::where_ok;
use crate::model::DatabaseAction;
use crate::model::DatabaseRequestV;
use crate::model::ValueV;
use crate::model::WhereClauseV;

verus! {

// ---------------------------------------------------------------------------
// The canonical wire form is unambiguous: no two different objects share it.
// These lemmas build that up from the pieces of the form.
// ---------------------------------------------------------------------------

/// A decimal digit character.
spec fn is_digit(c: char) -> bool {
    48 <= c as u32 <= 57
}

/// The decimal form of a number is digits, and at least one.
proof fn lemma_enc_num_digits(n: u64)
    ensures
        enc_num(n).len() >= 1,
        forall|i: int| 0 <= i < enc_num(n).len() ==> is_digit(#[trigger] enc_num(n)[i]),
    decreases n,
{
    if n < 10 {
        assert(is_digit(spec_digit_char(n)));
    } else {
        lemma_enc_num_digits(n / 10);
        assert(is_digit(spec_digit_char(n % 10)));
        assert(forall|i: int| 0 <= i < enc_num(n).len() ==> is_digit(#[trigger] enc_num(n)[i]))
            by {
            assert(enc_num(n) == enc_num(n / 10).push(spec_digit_char(n % 10)));
        }
    }
}

/// The decimal form has one character exactly for the numbers below ten.
proof fn lemma_enc_num_len(n: u64)
    ensures
        (n < 10) <==> (enc_num(n).len() == 1),
    decreases n,
{
    if n >= 10 {
        lemma_enc_num_len(n / 10);
        lemma_enc_num_digits(n / 10);
    }
}

/// No two numbers share a decimal form.
proof fn lemma_enc_num_injective(n1: u64, n2: u64)
    requires
        enc_num(n1) == enc_num(n2),
    ensures
        n1 == n2,
    decreases n1,
{
    lemma_enc_num_len(n1);
    lemma_enc_num_len(n2);
    if n1 < 10 && n2 < 10 {
        assert(enc_num(n1)[0] == spec_digit_char(n1));
        assert(enc_num(n2)[0] == spec_digit_char(n2));
    } else if n1 >= 10 && n2 >= 10 {
        let e1 = enc_num(n1 / 10);
        let e2 = enc_num(n2 / 10);
        assert(enc_num(n1) == e1.push(spec_digit_char(n1 % 10)));
        assert(enc_num(n2) == e2.push(spec_digit_char(n2 % 10)));
        lemma_enc_num_digits(n1 / 10);
        lemma_enc_num_digits(n2 / 10);
        assert(e1.push(spec_digit_char(n1 % 10)).last() == spec_digit_char(n1 % 10));
        assert(spec_digit_char(n1 % 10) == spec_digit_char(n2 % 10));
        assert(n1 % 10 == n2 % 10);
        assert(e1 =~= e2) by {
            assert(e1.push(spec_digit_char(n1 % 10)).drop_last() =~= e1);
            assert(e2.push(spec_digit_char(n2 % 10)).drop_last() =~= e2);
        }
        lemma_enc_num_injective(n1 / 10, n2 / 10);
    }
}

/// Two decimal forms followed by non-digits: the numbers and the rests agree.
proof fn lemma_num_prefix(n1: u64, n2: u64, x: Seq<char>, y: Seq<char>)
    requires
        enc_num(n1) + x == enc_num(n2) + y,
        x.len() > 0,
        y.len() > 0,
        !is_digit(x[0]),
        !is_digit(y[0]),
    ensures
        n1 == n2,
        x == y,
{
    lemma_enc_num_digits(n1);
    lemma_enc_num_digits(n2);
    let e1 = enc_num(n1);
    let e2 = enc_num(n2);
    let l = e1 + x;
    if e1.len() < e2.len() {
        assert(l[e1.len() as int] == x[0]);
        assert((e2 + y)[e1.len() as int] == e2[e1.len() as int]);
        assert(false);
    }
    if e2.len() < e1.len() {
        assert(l[e2.len() as int] == e1[e2.len() as int]);
        assert((e2 + y)[e2.len() as int] == y[0]);
        assert(false);
    }
    assert(e1 =~= e2) by {
        assert forall|i: int| 0 <= i < e1.len() implies e1[i] == e2[i] by {
            assert(l[i] == e1[i]);
            assert((e2 + y)[i] == e2[i]);
        }
    }
    lemma_enc_num_injective(n1, n2);
    assert((e1 + x).len() == e1.len() + x.len());
    assert((e2 + y).len() == e2.len() + y.len());
    assert(x.len() == y.len());
    assert(x =~= y) by {
        assert forall|i: int| 0 <= i < x.len() implies x[i] == y[i] by {
            assert(l[e1.len() as int + i] == x[i]);
            assert((e2 + y)[e2.len() as int + i] == y[i]);
        }
    }
}

/// Two quoted strings followed by anything: the strings and the rests agree.
proof fn lemma_quoted_prefix(a: Seq<char>, b: Seq<char>, x: Seq<char>, y: Seq<char>)
    requires
        str_ok(a),
        str_ok(b),
        enc_str(a) + x == enc_str(b) + y,
    ensures
        a == b,
        x == y,
{
    let l = enc_str(a) + x;
    let r = enc_str(b) + y;
    if a.len() < b.len() {
        assert(enc_str(a)[a.len() as int + 1] == '"');
        assert(l[a.len() as int + 1] == '"');
        assert(r[a.len() as int + 1] == enc_str(b)[a.len() as int + 1]);
        assert(enc_str(b)[a.len() as int + 1] == b[a.len() as int]);
        assert(char_ok(b[a.len() as int]));
        assert(false);
    }
    if b.len() < a.len() {
        assert(enc_str(b)[b.len() as int + 1] == '"');
        assert(r[b.len() as int + 1] == '"');
        assert(l[b.len() as int + 1] == enc_str(a)[b.len() as int + 1]);
        assert(enc_str(a)[b.len() as int + 1] == a[b.len() as int]);
        assert(char_ok(a[b.len() as int]));
        assert(false);
    }
    assert(a =~= b) by {
        assert forall|i: int| 0 <= i < a.len() implies a[i] == b[i] by {
            assert(l[i + 1] == a[i]);
            assert(r[i + 1] == b[i]);
        }
    }
    assert(l.len() == enc_str(a).len() + x.len());
    assert(r.len() == enc_str(b).len() + y.len());
    assert(x.len() == y.len());
    assert(x =~= y) by {
        assert forall|i: int| 0 <= i < x.len() implies x[i] == y[i] by {
            assert(l[a.len() as int + 2 + i] == x[i]);
            assert(r[b.len() as int + 2 + i] == y[i]);
        }
    }
}

/// Dropping a shared prefix.
proof fn lemma_strip(p: Seq<char>, u: Seq<char>, w: Seq<char>)
    requires
        p + u == p + w,
    ensures
        u == w,
{
    assert((p + u).len() == p.len() + u.len());
    assert((p + w).len() == p.len() + w.len());
    assert(u =~= w) by {
        assert forall|i: int| 0 <= i < u.len() implies u[i] == w[i] by {
            assert((p + u)[p.len() as int + i] == u[i]);
            assert((p + w)[p.len() as int + i] == w[i]);
        }
    }
}

/// The first character of each kind of value encoding tells the kinds apart.
proof fn lemma_value_first_char(v: ValueV)
    ensures
        enc_value(v).len() >= 1,
        v is VStr ==> enc_value(v)[0] == '"',
        v is VBool ==> enc_value(v)[0] == 't' || enc_value(v)[0] == 'f',
        v is VNum ==> is_digit(enc_value(v)[0]),
{
    match v {
        ValueV::VStr(a) => {
            assert(enc_str(a)[0] == '"');
        },
        ValueV::VBool(b) => {
            reveal_strlit("true");
            reveal_strlit("false");
        },
        ValueV::VNum(n) => {
            lemma_enc_num_digits(n);
        },
    }
}

/// Two value encodings followed by non-digits: the values and the rests agree.
proof fn lemma_value_prefix(v1: ValueV, v2: ValueV, x: Seq<char>, y: Seq<char>)
    requires
        value_ok(v1),
        value_ok(v2),
        enc_value(v1) + x == enc_value(v2) + y,
        x.len() > 0,
        y.len() > 0,
        !is_digit(x[0]),
        !is_digit(y[0]),
    ensures
        v1 == v2,
        x == y,
{
    lemma_value_first_char(v1);
    lemma_value_first_char(v2);
    let l = enc_value(v1) + x;
    assert(l[0] == enc_value(v1)[0]);
    assert(l[0] == enc_value(v2)[0]);
    match (v1, v2) {
        (ValueV::VStr(a), ValueV::VStr(b)) => {
            lemma_quoted_prefix(a, b, x, y);
        },
        (ValueV::VBool(b1), ValueV::VBool(b2)) => {
            reveal_strlit("true");
            reveal_strlit("false");
            if b1 != b2 {
                assert(false);
            }
            lemma_strip(enc_value(v1), x, y);
        },
        (ValueV::VNum(n1), ValueV::VNum(n2)) => {
            lemma_num_prefix(n1, n2, x, y);
        },
        _ => {
            assert(false);
        },
    }
}

/// Two field encodings followed by non-digits: the fields and the rests agree.
proof fn lemma_pair_prefix(p1: (Seq<char>, ValueV), p2: (Seq<char>, ValueV), x: Seq<char>, y: Seq<char>)
    requires
        pair_ok(p1),
        pair_ok(p2),
        enc_pair(p1) + x == enc_pair(p2) + y,
        x.len() > 0,
        y.len() > 0,
        !is_digit(x[0]),
        !is_digit(y[0]),
    ensures
        p1.0 == p2.0,
        p1.1 == p2.1,
        x == y,
{
    let u = seq![':'] + enc_value(p1.1) + x;
    let w = seq![':'] + enc_value(p2.1) + y;
    assert(enc_pair(p1) + x =~= enc_str(p1.0) + u);
    assert(enc_pair(p2) + y =~= enc_str(p2.0) + w);
    lemma_quoted_prefix(p1.0, p2.0, u, w);
    assert(u =~= seq![':'] + (enc_value(p1.1) + x));
    assert(w =~= seq![':'] + (enc_value(p2.1) + y));
    lemma_strip(seq![':'], enc_value(p1.1) + x, enc_value(p2.1) + y);
    lemma_value_prefix(p1.1, p2.1, x, y);
}

/// The fields from `j` up to `i`, each led by a comma: the tail of a map's
/// encoding after its first field.
spec fn enc_tail_upto(ps: Seq<(Seq<char>, ValueV)>, j: int, i: int) -> Seq<char>
    decreases i - j,
{
    if j >= i {
        Seq::<char>::empty()
    } else {
        enc_tail_upto(ps, j, i - 1) + seq![','] + enc_pair(ps[i - 1])
    }
}

/// The same tail, unfolded from the front.
proof fn lemma_tail_front(ps: Seq<(Seq<char>, ValueV)>, j: int, i: int)
    requires
        j < i,
    ensures
        enc_tail_upto(ps, j, i) == seq![','] + enc_pair(ps[j]) + enc_tail_upto(ps, j + 1, i),
    decreases i - j,
{
    assert(enc_tail_upto(ps, j, j) == Seq::<char>::empty());
    assert(enc_tail_upto(ps, i, i) == Seq::<char>::empty());
    if j == i - 1 {
        assert(enc_tail_upto(ps, j, i) =~= seq![','] + enc_pair(ps[j]) + enc_tail_upto(ps, j + 1, i));
    } else {
        lemma_tail_front(ps, j, i - 1);
        assert(enc_tail_upto(ps, j, i) =~= seq![','] + enc_pair(ps[j]) + enc_tail_upto(ps, j + 1, i));
    }
}

/// A map's field list is its first field followed by the comma-led tail.
proof fn lemma_items_split(ps: Seq<(Seq<char>, ValueV)>, i: int)
    requires
        1 <= i <= ps.len(),
    ensures
        enc_items(ps, i) == enc_pair(ps[0]) + enc_tail_upto(ps, 1, i),
    decreases i,
{
    if i == 1 {
        assert(enc_items(ps, 0) == Seq::<char>::empty());
        assert(enc_tail_upto(ps, 1, 1) == Seq::<char>::empty());
        assert(enc_items(ps, 1) =~= enc_pair(ps[0]) + enc_tail_upto(ps, 1, 1));
    } else {
        lemma_items_split(ps, i - 1);
        assert(enc_items(ps, i) =~= enc_pair(ps[0]) + enc_tail_upto(ps, 1, i));
    }
}

/// Two comma-led tails closed by a brace: the field runs and the rests agree.
proof fn lemma_tail_inj(
    ps1: Seq<(Seq<char>, ValueV)>,
    j1: int,
    ps2: Seq<(Seq<char>, ValueV)>,
    j2: int,
    x: Seq<char>,
    y: Seq<char>,
)
    requires
        pairs_ok(ps1),
        pairs_ok(ps2),
        0 <= j1 <= ps1.len(),
        0 <= j2 <= ps2.len(),
        enc_tail_upto(ps1, j1, ps1.len() as int) + seq!['}'] + x
            == enc_tail_upto(ps2, j2, ps2.len() as int) + seq!['}'] + y,
    ensures
        ps1.len() - j1 == ps2.len() - j2,
        forall|k: int| 0 <= k < ps1.len() - j1 ==> #[trigger] ps1[j1 + k] == ps2[j2 + k],
        x == y,
    decreases ps1.len() - j1,
{
    let i1 = ps1.len() as int;
    let i2 = ps2.len() as int;
    let l = enc_tail_upto(ps1, j1, i1) + seq!['}'] + x;
    if j1 >= i1 && j2 >= i2 {
        assert(enc_tail_upto(ps1, j1, i1) =~= Seq::<char>::empty());
        assert(enc_tail_upto(ps2, j2, i2) =~= Seq::<char>::empty());
        assert(seq!['}'] + x =~= l);
        assert(seq!['}'] + y =~= l);
        lemma_strip(seq!['}'], x, y);
    } else if j1 >= i1 {
        lemma_tail_front(ps2, j2, i2);
        assert(enc_tail_upto(ps1, j1, i1) =~= Seq::<char>::empty());
        assert(l[0] == '}');
        assert(l =~= (seq![','] + enc_pair(ps2[j2]) + enc_tail_upto(ps2, j2 + 1, i2)) + seq!['}'] + y);
        assert(l[0] == ',');
        assert(false);
    } else if j2 >= i2 {
        lemma_tail_front(ps1, j1, i1);
        assert(enc_tail_upto(ps2, j2, i2) =~= Seq::<char>::empty());
        assert(l =~= seq!['}'] + y);
        assert(l[0] == '}');
        assert(l =~= (seq![','] + enc_pair(ps1[j1]) + enc_tail_upto(ps1, j1 + 1, i1)) + seq!['}'] + x);
        assert(l[0] == ',');
        assert(false);
    } else {
        lemma_tail_front(ps1, j1, i1);
        lemma_tail_front(ps2, j2, i2);
        let u = enc_pair(ps1[j1]) + (enc_tail_upto(ps1, j1 + 1, i1) + seq!['}'] + x);
        let w = enc_pair(ps2[j2]) + (enc_tail_upto(ps2, j2 + 1, i2) + seq!['}'] + y);
        assert(l =~= seq![','] + u);
        assert(enc_tail_upto(ps2, j2, i2) + seq!['}'] + y =~= seq![','] + w);
        lemma_strip(seq![','], u, w);
        let restx = enc_tail_upto(ps1, j1 + 1, i1) + seq!['}'] + x;
        let resty = enc_tail_upto(ps2, j2 + 1, i2) + seq!['}'] + y;
        lemma_tail_terminator(ps1, j1 + 1, x);
        lemma_tail_terminator(ps2, j2 + 1, y);
        lemma_pair_prefix(ps1[j1], ps2[j2], restx, resty);
        assert(ps1[j1] == ps2[j2]) by {
            assert(ps1[j1] == (ps1[j1].0, ps1[j1].1));
            assert(ps2[j2] == (ps2[j2].0, ps2[j2].1));
        }
        lemma_tail_inj(ps1, j1 + 1, ps2, j2 + 1, x, y);
        assert forall|k: int| 0 <= k < ps1.len() - j1 implies #[trigger] ps1[j1 + k] == ps2[j2 + k]
            by {
            if k == 0 {
            } else {
                assert(ps1[(j1 + 1) + (k - 1)] == ps2[(j2 + 1) + (k - 1)]);
            }
        }
    }
}

/// A comma-led tail closed by a brace starts with a comma or that brace:
/// never with a digit.
proof fn lemma_tail_terminator(ps: Seq<(Seq<char>, ValueV)>, j: int, x: Seq<char>)
    requires
        0 <= j <= ps.len(),
    ensures
        (enc_tail_upto(ps, j, ps.len() as int) + seq!['}'] + x).len() > 0,
        !is_digit((enc_tail_upto(ps, j, ps.len() as int) + seq!['}'] + x)[0]),
{
    let i = ps.len() as int;
    let l = enc_tail_upto(ps, j, i) + seq!['}'] + x;
    if j >= i {
        assert(enc_tail_upto(ps, j, i) =~= Seq::<char>::empty());
        assert(l[0] == '}');
    } else {
        lemma_tail_front(ps, j, i);
        assert(l =~= (seq![','] + enc_pair(ps[j]) + enc_tail_upto(ps, j + 1, i)) + seq!['}'] + x);
        assert(l[0] == ',');
    }
}

/// Two field-map encodings followed by anything: the maps and the rests agree.
proof fn lemma_pairs_prefix(
    ps1: Seq<(Seq<char>, ValueV)>,
    ps2: Seq<(Seq<char>, ValueV)>,
    x: Seq<char>,
    y: Seq<char>,
)
    requires
        pairs_ok(ps1),
        pairs_ok(ps2),
        enc_pairs(ps1) + x == enc_pairs(ps2) + y,
    ensures
        ps1 == ps2,
        x == y,
{
    let i1 = ps1.len() as int;
    let i2 = ps2.len() as int;
    let u = enc_items(ps1, i1) + seq!['}'] + x;
    let w = enc_items(ps2, i2) + seq!['}'] + y;
    assert(enc_pairs(ps1) + x =~= seq!['{'] + u);
    assert(enc_pairs(ps2) + y =~= seq!['{'] + w);
    lemma_strip(seq!['{'], u, w);
    if i1 == 0 && i2 == 0 {
        assert(u =~= seq!['}'] + x);
        assert(w =~= seq!['}'] + y);
        lemma_strip(seq!['}'], x, y);
        assert(ps1 =~= ps2);
    } else if i1 == 0 {
        lemma_items_split(ps2, i2);
        assert(u[0] == '}');
        assert(w =~= (enc_pair(ps2[0]) + enc_tail_upto(ps2, 1, i2)) + seq!['}'] + y);
        assert(w[0] == enc_pair(ps2[0])[0]);
        assert(enc_pair(ps2[0])[0] == '"') by {
            assert(enc_pair(ps2[0]) =~= enc_str(ps2[0].0) + (seq![':'] + enc_value(ps2[0].1)));
            assert(enc_str(ps2[0].0)[0] == '"');
        }
        assert(false);
    } else if i2 == 0 {
        lemma_items_split(ps1, i1);
        assert(w[0] == '}');
        assert(u =~= (enc_pair(ps1[0]) + enc_tail_upto(ps1, 1, i1)) + seq!['}'] + x);
        assert(u[0] == enc_pair(ps1[0])[0]);
        assert(enc_pair(ps1[0])[0] == '"') by {
            assert(enc_pair(ps1[0]) =~= enc_str(ps1[0].0) + (seq![':'] + enc_value(ps1[0].1)));
            assert(enc_str(ps1[0].0)[0] == '"');
        }
        assert(false);
    } else {
        lemma_items_split(ps1, i1);
        lemma_items_split(ps2, i2);
        let restx = enc_tail_upto(ps1, 1, i1) + seq!['}'] + x;
        let resty = enc_tail_upto(ps2, 1, i2) + seq!['}'] + y;
        assert(u =~= enc_pair(ps1[0]) + restx);
        assert(w =~= enc_pair(ps2[0]) + resty);
        lemma_tail_terminator(ps1, 1, x);
        lemma_tail_terminator(ps2, 1, y);
        lemma_pair_prefix(ps1[0], ps2[0], restx, resty);
        lemma_tail_inj(ps1, 1, ps2, 1, x, y);
        assert(ps1 =~= ps2) by {
            assert forall|k: int| 0 <= k < ps1.len() implies ps1[k] == ps2[k] by {
                if k == 0 {
                    assert(ps1[0] == (ps1[0].0, ps1[0].1));
                    assert(ps2[0] == (ps2[0].0, ps2[0].1));
                } else {
                    assert(ps1[1 + (k - 1)] == ps2[1 + (k - 1)]);
                }
            }
        }
    }
}

/// The single-field maps of an or-filter from `j` on, each led by a comma.
spec fn enc_or_tail_upto(ps: Seq<(Seq<char>, ValueV)>, j: int, i: int) -> Seq<char>
    decreases i - j,
{
    if j >= i {
        Seq::<char>::empty()
    } else {
        enc_or_tail_upto(ps, j, i - 1) + seq![','] + enc_pairs(seq![ps[i - 1]])
    }
}

/// The same tail, unfolded from the front.
proof fn lemma_or_tail_front(ps: Seq<(Seq<char>, ValueV)>, j: int, i: int)
    requires
        j < i,
    ensures
        enc_or_tail_upto(ps, j, i) == seq![','] + enc_pairs(seq![ps[j]]) + enc_or_tail_upto(
            ps,
            j + 1,
            i,
        ),
    decreases i - j,
{
    assert(enc_or_tail_upto(ps, j, j) == Seq::<char>::empty());
    assert(enc_or_tail_upto(ps, i, i) == Seq::<char>::empty());
    if j == i - 1 {
        assert(enc_or_tail_upto(ps, j, i) =~= seq![','] + enc_pairs(seq![ps[j]])
            + enc_or_tail_upto(ps, j + 1, i));
    } else {
        lemma_or_tail_front(ps, j, i - 1);
        assert(enc_or_tail_upto(ps, j, i) =~= seq![','] + enc_pairs(seq![ps[j]])
            + enc_or_tail_upto(ps, j + 1, i));
    }
}

/// An or-filter's list is its first map followed by the comma-led tail.
proof fn lemma_or_items_split(ps: Seq<(Seq<char>, ValueV)>, i: int)
    requires
        1 <= i <= ps.len(),
    ensures
        enc_or_items(ps, i) == enc_pairs(seq![ps[0]]) + enc_or_tail_upto(ps, 1, i),
    decreases i,
{
    if i == 1 {
        assert(enc_or_items(ps, 0) == Seq::<char>::empty());
        assert(enc_or_tail_upto(ps, 1, 1) == Seq::<char>::empty());
        assert(enc_or_items(ps, 1) =~= enc_pairs(seq![ps[0]]) + enc_or_tail_upto(ps, 1, 1));
    } else {
        lemma_or_items_split(ps, i - 1);
        assert(enc_or_items(ps, i) =~= enc_pairs(seq![ps[0]]) + enc_or_tail_upto(ps, 1, i));
    }
}

/// A comma-led or-tail closed by a bracket starts with a comma or that
/// bracket.
proof fn lemma_or_tail_terminator(ps: Seq<(Seq<char>, ValueV)>, j: int, x: Seq<char>)
    requires
        0 <= j <= ps.len(),
    ensures
        (enc_or_tail_upto(ps, j, ps.len() as int) + seq![']'] + x).len() > 0,
        (enc_or_tail_upto(ps, j, ps.len() as int) + seq![']'] + x)[0] == ','
            || (enc_or_tail_upto(ps, j, ps.len() as int) + seq![']'] + x)[0] == ']',
{
    let i = ps.len() as int;
    let l = enc_or_tail_upto(ps, j, i) + seq![']'] + x;
    if j >= i {
        assert(enc_or_tail_upto(ps, j, i) =~= Seq::<char>::empty());
        assert(l[0] == ']');
    } else {
        lemma_or_tail_front(ps, j, i);
        assert(l =~= (seq![','] + enc_pairs(seq![ps[j]]) + enc_or_tail_upto(ps, j + 1, i))
            + seq![']'] + x);
        assert(l[0] == ',');
    }
}

/// Two or-tails closed by a bracket: the map runs and the rests agree.
proof fn lemma_or_tail_inj(
    ps1: Seq<(Seq<char>, ValueV)>,
    j1: int,
    ps2: Seq<(Seq<char>, ValueV)>,
    j2: int,
    x: Seq<char>,
    y: Seq<char>,
)
    requires
        pairs_ok(ps1),
        pairs_ok(ps2),
        0 <= j1 <= ps1.len(),
        0 <= j2 <= ps2.len(),
        enc_or_tail_upto(ps1, j1, ps1.len() as int) + seq![']'] + x
            == enc_or_tail_upto(ps2, j2, ps2.len() as int) + seq![']'] + y,
    ensures
        ps1.len() - j1 == ps2.len() - j2,
        forall|k: int| 0 <= k < ps1.len() - j1 ==> #[trigger] ps1[j1 + k] == ps2[j2 + k],
        x == y,
    decreases ps1.len() - j1,
{
    let i1 = ps1.len() as int;
    let i2 = ps2.len() as int;
    let l = enc_or_tail_upto(ps1, j1, i1) + seq![']'] + x;
    if j1 >= i1 && j2 >= i2 {
        assert(enc_or_tail_upto(ps1, j1, i1) =~= Seq::<char>::empty());
        assert(enc_or_tail_upto(ps2, j2, i2) =~= Seq::<char>::empty());
        assert(seq![']'] + x =~= l);
        assert(seq![']'] + y =~= l);
        lemma_strip(seq![']'], x, y);
    } else if j1 >= i1 {
        lemma_or_tail_front(ps2, j2, i2);
        assert(enc_or_tail_upto(ps1, j1, i1) =~= Seq::<char>::empty());
        assert(l[0] == ']');
        assert(l =~= (seq![','] + enc_pairs(seq![ps2[j2]]) + enc_or_tail_upto(ps2, j2 + 1, i2))
            + seq![']'] + y);
        assert(l[0] == ',');
        assert(false);
    } else if j2 >= i2 {
        lemma_or_tail_front(ps1, j1, i1);
        assert(enc_or_tail_upto(ps2, j2, i2) =~= Seq::<char>::empty());
        assert(l =~= seq![']'] + y);
        assert(l[0] == ']');
        assert(l =~= (seq![','] + enc_pairs(seq![ps1[j1]]) + enc_or_tail_upto(ps1, j1 + 1, i1))
            + seq![']'] + x);
        assert(l[0] == ',');
        assert(false);
    } else {
        lemma_or_tail_front(ps1, j1, i1);
        lemma_or_tail_front(ps2, j2, i2);
        let restx = enc_or_tail_upto(ps1, j1 + 1, i1) + seq![']'] + x;
        let resty = enc_or_tail_upto(ps2, j2 + 1, i2) + seq![']'] + y;
        let u = enc_pairs(seq![ps1[j1]]) + restx;
        let w = enc_pairs(seq![ps2[j2]]) + resty;
        assert(l =~= seq![','] + u);
        assert(enc_or_tail_upto(ps2, j2, i2) + seq![']'] + y =~= seq![','] + w);
        lemma_strip(seq![','], u, w);
        assert(pairs_ok(seq![ps1[j1]])) by {
            assert(pair_ok(ps1[j1]));
            assert(seq![ps1[j1]][0] == ps1[j1]);
        }
        assert(pairs_ok(seq![ps2[j2]])) by {
            assert(pair_ok(ps2[j2]));
            assert(seq![ps2[j2]][0] == ps2[j2]);
        }
        lemma_pairs_prefix(seq![ps1[j1]], seq![ps2[j2]], restx, resty);
        assert(ps1[j1] == ps2[j2]) by {
            assert(seq![ps1[j1]][0] == seq![ps2[j2]][0]);
        }
        lemma_or_tail_inj(ps1, j1 + 1, ps2, j2 + 1, x, y);
        assert forall|k: int| 0 <= k < ps1.len() - j1 implies #[trigger] ps1[j1 + k]
            == ps2[j2 + k] by {
            if k == 0 {
            } else {
                assert(ps1[(j1 + 1) + (k - 1)] == ps2[(j2 + 1) + (k - 1)]);
            }
        }
    }
}

/// Two filter encodings followed by anything: the filters and the rests
/// agree.
proof fn lemma_where_prefix(w1: WhereClauseV, w2: WhereClauseV, x: Seq<char>, y: Seq<char>)
    requires
        where_ok(w1),
        where_ok(w2),
        enc_where(w1) + x == enc_where(w2) + y,
    ensures
        w1 == w2,
        x == y,
{
    reveal_strlit("{\"Single\":");
    reveal_strlit("{\"Or\":[");
    reveal_strlit("]}");
    let l = enc_where(w1) + x;
    match (w1, w2) {
        (WhereClauseV::Single(ps1), WhereClauseV::Single(ps2)) => {
            let u = enc_pairs(ps1) + (seq!['}'] + x);
            let w = enc_pairs(ps2) + (seq!['}'] + y);
            assert(enc_where(w1) + x =~= "{\"Single\":"@ + u);
            assert(enc_where(w2) + y =~= "{\"Single\":"@ + w);
            lemma_strip("{\"Single\":"@, u, w);
            lemma_pairs_prefix(ps1, ps2, seq!['}'] + x, seq!['}'] + y);
            lemma_strip(seq!['}'], x, y);
        },
        (WhereClauseV::Or(ps1), WhereClauseV::Or(ps2)) => {
            let i1 = ps1.len() as int;
            let i2 = ps2.len() as int;
            let u = enc_or_items(ps1, i1) + (seq![']'] + (seq!['}'] + x));
            let w = enc_or_items(ps2, i2) + (seq![']'] + (seq!['}'] + y));
            assert(enc_where(w1) + x =~= "{\"Or\":["@ + u);
            assert(enc_where(w2) + y =~= "{\"Or\":["@ + w);
            lemma_strip("{\"Or\":["@, u, w);
            if i1 == 0 && i2 == 0 {
                assert(enc_or_items(ps1, 0) == Seq::<char>::empty());
                assert(enc_or_items(ps2, 0) == Seq::<char>::empty());
                assert(seq![']'] + (seq!['}'] + x) =~= u);
                assert(seq![']'] + (seq!['}'] + y) =~= u);
                lemma_strip(seq![']'], seq!['}'] + x, seq!['}'] + y);
                lemma_strip(seq!['}'], x, y);
                assert(ps1 =~= ps2);
            } else if i1 == 0 {
                assert(enc_or_items(ps1, 0) == Seq::<char>::empty());
                lemma_or_items_split(ps2, i2);
                assert(u[0] == ']');
                assert(w =~= enc_pairs(seq![ps2[0]]) + (enc_or_tail_upto(ps2, 1, i2)
                    + (seq![']'] + (seq!['}'] + y))));
                assert(enc_pairs(seq![ps2[0]])[0] == '{');
                assert(w[0] == '{');
                assert(false);
            } else if i2 == 0 {
                assert(enc_or_items(ps2, 0) == Seq::<char>::empty());
                lemma_or_items_split(ps1, i1);
                assert(w =~= seq![']'] + (seq!['}'] + y));
                assert(u[0] == ']');
                assert(u =~= enc_pairs(seq![ps1[0]]) + (enc_or_tail_upto(ps1, 1, i1)
                    + (seq![']'] + (seq!['}'] + x))));
                assert(enc_pairs(seq![ps1[0]])[0] == '{');
                assert(u[0] == '{');
                assert(false);
            } else {
                lemma_or_items_split(ps1, i1);
                lemma_or_items_split(ps2, i2);
                let restx = enc_or_tail_upto(ps1, 1, i1) + seq![']'] + (seq!['}'] + x);
                let resty = enc_or_tail_upto(ps2, 1, i2) + seq![']'] + (seq!['}'] + y);
                assert(u =~= enc_pairs(seq![ps1[0]]) + restx);
                assert(w =~= enc_pairs(seq![ps2[0]]) + resty);
                assert(pairs_ok(seq![ps1[0]])) by {
                    assert(pair_ok(ps1[0]));
                    assert(seq![ps1[0]][0] == ps1[0]);
                }
                assert(pairs_ok(seq![ps2[0]])) by {
                    assert(pair_ok(ps2[0]));
                    assert(seq![ps2[0]][0] == ps2[0]);
                }
                lemma_pairs_prefix(seq![ps1[0]], seq![ps2[0]], restx, resty);
                assert(ps1[0] == ps2[0]) by {
                    assert(seq![ps1[0]][0] == seq![ps2[0]][0]);
                }
                lemma_or_tail_inj(ps1, 1, ps2, 1, seq!['}'] + x, seq!['}'] + y);
                lemma_strip(seq!['}'], x, y);
                assert(ps1 =~= ps2) by {
                    assert forall|k: int| 0 <= k < ps1.len() implies ps1[k] == ps2[k] by {
                        if k > 0 {
                            assert(ps1[1 + (k - 1)] == ps2[1 + (k - 1)]);
                        }
                    }
                }
            }
        },
        (WhereClauseV::Single(_), WhereClauseV::Or(_)) => {
            assert(l[2] == 'S');
            assert(l[2] == 'O');
            assert(false);
        },
        (WhereClauseV::Or(_), WhereClauseV::Single(_)) => {
            assert(l[2] == 'O');
            assert(l[2] == 'S');
            assert(false);
        },
    }
}

/// No two actions share a wire name.
proof fn lemma_action_inj(a1: DatabaseAction, a2: DatabaseAction)
    requires
        action_str(a1) == action_str(a2),
    ensures
        a1 == a2,
{
    reveal_strlit("Retrieve");
    reveal_strlit("Insert");
    reveal_strlit("Update");
    reveal_strlit("Delete");
    assert(action_str(DatabaseAction::Retrieve)[0] == 'R');
    assert(action_str(DatabaseAction::Insert)[0] == 'I');
    assert(action_str(DatabaseAction::Update)[0] == 'U');
    assert(action_str(DatabaseAction::Delete)[0] == 'D');
}

/// The wire name of any action is a legal wire string.
pub proof fn lemma_action_str_ok(a: DatabaseAction)
    ensures
        str_ok(action_str(a)),
{
    reveal_strlit("Retrieve");
    reveal_strlit("Insert");
    reveal_strlit("Update");
    reveal_strlit("Delete");
    assert(forall|i: int| 0 <= i < action_str(a).len() ==> char_ok(#[trigger] action_str(a)[i]));
}

/// The values and filters of two requests with one wire suffix agree.
proof fn lemma_suffix_inj(
    v1: Option<Seq<(Seq<char>, ValueV)>>,
    f1: Option<WhereClauseV>,
    v2: Option<Seq<(Seq<char>, ValueV)>>,
    f2: Option<WhereClauseV>,
)
    requires
        match v1 {
            Some(ps) => pairs_ok(ps),
            None => true,
        },
        match v2 {
            Some(ps) => pairs_ok(ps),
            None => true,
        },
        match f1 {
            Some(w) => where_ok(w),
            None => true,
        },
        match f2 {
            Some(w) => where_ok(w),
            None => true,
        },
        enc_opt_pairs(v1) + (",\"filters\":"@ + enc_filters(f1) + seq!['}']) == enc_opt_pairs(v2)
            + (",\"filters\":"@ + enc_filters(f2) + seq!['}']),
    ensures
        v1 == v2,
        f1 == f2,
{
    reveal_strlit("null");
    let t1 = ",\"filters\":"@ + enc_filters(f1) + seq!['}'];
    let t2 = ",\"filters\":"@ + enc_filters(f2) + seq!['}'];
    match (v1, v2) {
        (None, None) => {
            lemma_strip("null"@, t1, t2);
        },
        (Some(ps1), Some(ps2)) => {
            lemma_pairs_prefix(ps1, ps2, t1, t2);
        },
        (None, Some(ps2)) => {
            assert(("null"@ + t1)[0] == 'n');
            assert((enc_pairs(ps2) + t2)[0] == '{');
            assert(false);
        },
        (Some(ps1), None) => {
            assert(("null"@ + t2)[0] == 'n');
            assert((enc_pairs(ps1) + t1)[0] == '{');
            assert(false);
        },
    }
    assert(t1 == t2);
    assert(t1 =~= ",\"filters\":"@ + (enc_filters(f1) + seq!['}']));
    assert(t2 =~= ",\"filters\":"@ + (enc_filters(f2) + seq!['}']));
    lemma_strip(",\"filters\":"@, enc_filters(f1) + seq!['}'], enc_filters(f2) + seq!['}']);
    reveal_strlit("{\"where_clause\":");
    match (f1, f2) {
        (None, None) => {},
        (Some(w1), Some(w2)) => {
            let u = enc_where(w1) + (seq!['}'] + seq!['}']);
            let w = enc_where(w2) + (seq!['}'] + seq!['}']);
            assert(enc_filters(f1) + seq!['}'] =~= "{\"where_clause\":"@ + u);
            assert(enc_filters(f2) + seq!['}'] =~= "{\"where_clause\":"@ + w);
            lemma_strip("{\"where_clause\":"@, u, w);
            lemma_where_prefix(w1, w2, seq!['}'] + seq!['}'], seq!['}'] + seq!['}']);
        },
        (None, Some(w2)) => {
            assert((enc_filters(f1) + seq!['}'])[0] == 'n');
            assert((enc_filters(f2) + seq!['}'])[0] == '{');
            assert(false);
        },
        (Some(w1), None) => {
            assert((enc_filters(f2) + seq!['}'])[0] == 'n');
            assert((enc_filters(f1) + seq!['}'])[0] == '{');
            assert(false);
        },
    }
}

/// Reassociates a nine-part concatenation to the fully right-nested form.
proof fn lemma_nest9(
    a: Seq<char>,
    b: Seq<char>,
    c: Seq<char>,
    d: Seq<char>,
    e: Seq<char>,
    f: Seq<char>,
    g: Seq<char>,
    h: Seq<char>,
    i: Seq<char>,
)
    ensures
        a + b + c + d + e + f + g + h + i == a + (b + (c + (d + (e + (f + (g + (h + i))))))),
{
    vstd::seq_lib::lemma_concat_associative(a + b + c + d + e + f + g, h, i);
    vstd::seq_lib::lemma_concat_associative(a + b + c + d + e + f, g, h + i);
    vstd::seq_lib::lemma_concat_associative(a + b + c + d + e, f, g + (h + i));
    vstd::seq_lib::lemma_concat_associative(a + b + c + d, e, f + (g + (h + i)));
    vstd::seq_lib::lemma_concat_associative(a + b + c, d, e + (f + (g + (h + i))));
    vstd::seq_lib::lemma_concat_associative(a + b, c, d + (e + (f + (g + (h + i)))));
    vstd::seq_lib::lemma_concat_associative(a, b, c + (d + (e + (f + (g + (h + i))))));
}

/// No two requests share a canonical wire form: together with the encoder's
/// and decoder's contracts, encoding a request and decoding the result gives
/// back that very request, the round trip of the codec.
pub proof fn lemma_enc_request_injective(q1: DatabaseRequestV, q2: DatabaseRequestV)
    requires
        req_encodable(q1),
        req_encodable(q2),
        enc_request(q1) == enc_request(q2),
    ensures
        q1 == q2,
{
    let a = "{\"table\":"@;
    let c = ",\"action\":"@;
    let e = ",\"values\":"@;
    let g = ",\"filters\":"@;
    let i = seq!['}'];
    let b1 = enc_str(q1.table);
    let d1 = enc_str(action_str(q1.action));
    let f1 = enc_opt_pairs(q1.values);
    let h1 = enc_filters(q1.filters);
    let b2 = enc_str(q2.table);
    let d2 = enc_str(action_str(q2.action));
    let f2 = enc_opt_pairs(q2.values);
    let h2 = enc_filters(q2.filters);
    lemma_nest9(a, b1, c, d1, e, f1, g, h1, i);
    lemma_nest9(a, b2, c, d2, e, f2, g, h2, i);
    lemma_strip(
        a,
        b1 + (c + (d1 + (e + (f1 + (g + (h1 + i)))))),
        b2 + (c + (d2 + (e + (f2 + (g + (h2 + i)))))),
    );
    lemma_quoted_prefix(
        q1.table,
        q2.table,
        c + (d1 + (e + (f1 + (g + (h1 + i))))),
        c + (d2 + (e + (f2 + (g + (h2 + i))))),
    );
    lemma_strip(c, d1 + (e + (f1 + (g + (h1 + i)))), d2 + (e + (f2 + (g + (h2 + i)))));
    lemma_action_str_ok(q1.action);
    lemma_action_str_ok(q2.action);
    lemma_quoted_prefix(
        action_str(q1.action),
        action_str(q2.action),
        e + (f1 + (g + (h1 + i))),
        e + (f2 + (g + (h2 + i))),
    );
    lemma_action_inj(q1.action, q2.action);
    lemma_strip(e, f1 + (g + (h1 + i)), f2 + (g + (h2 + i)));
    vstd::seq_lib::lemma_concat_associative(g, h1, i);
    vstd::seq_lib::lemma_concat_associative(g, h2, i);
    lemma_suffix_inj(q1.values, q1.filters, q2.values, q2.filters);
    assert(q1 =~= q2);
}

} // verus!
