//! Small verified string builders the SQL layer relies on: decimal
//! formatting, joining fragments with a separator, whitespace trimming, and
//! encoding an id set as a JSON array literal.

use vstd::prelude::*;

verus! {

/// The decimal digit character for a value below ten.
pub open spec fn digit_char(d: nat) -> char {
    if d == 0 {
        '0'
    } else if d == 1 {
        '1'
    } else if d == 2 {
        '2'
    } else if d == 3 {
        '3'
    } else if d == 4 {
        '4'
    } else if d == 5 {
        '5'
    } else if d == 6 {
        '6'
    } else if d == 7 {
        '7'
    } else if d == 8 {
        '8'
    } else {
        '9'
    }
}

/// The base-ten rendering of `n`, most significant digit first, no sign and
/// no leading zeros (a single `'0'` for zero).
pub open spec fn dec_str(n: nat) -> Seq<char>
    decreases n,
{
    if n < 10 {
        seq![digit_char(n)]
    } else {
        dec_str(n / 10).push(digit_char(n % 10))
    }
}

fn digit_str(d: u64) -> (r: &'static str)
    requires
        d < 10,
    ensures
        r@ =~= seq![digit_char(d as nat)],
{
    if d == 0 {
        proof {
            reveal_strlit("0");
        }
        "0"
    } else if d == 1 {
        proof {
            reveal_strlit("1");
        }
        "1"
    } else if d == 2 {
        proof {
            reveal_strlit("2");
        }
        "2"
    } else if d == 3 {
        proof {
            reveal_strlit("3");
        }
        "3"
    } else if d == 4 {
        proof {
            reveal_strlit("4");
        }
        "4"
    } else if d == 5 {
        proof {
            reveal_strlit("5");
        }
        "5"
    } else if d == 6 {
        proof {
            reveal_strlit("6");
        }
        "6"
    } else if d == 7 {
        proof {
            reveal_strlit("7");
        }
        "7"
    } else if d == 8 {
        proof {
            reveal_strlit("8");
        }
        "8"
    } else {
        proof {
            reveal_strlit("9");
        }
        "9"
    }
}

/// Renders `n` in base ten.
pub fn format_u64(n: u64) -> (r: String)
    ensures
        r@ == dec_str(n as nat),
    decreases n,
{
    if n < 10 {
        digit_str(n).to_owned()
    } else {
        let mut r = format_u64(n / 10);
        r.append(digit_str(n % 10));
        proof {
            assert(r@ =~= dec_str((n / 10) as nat).push(digit_char((n % 10) as nat)));
        }
        r
    }
}

/// The views of a sequence of owned strings.
pub open spec fn views_of(parts: Seq<String>) -> Seq<Seq<char>> {
    parts.map_values(|s: String| s@)
}

/// `parts` glued together with `sep` between neighbours; empty when `parts`
/// is empty, and never framed by a leading or trailing separator.
pub open spec fn spec_join(parts: Seq<Seq<char>>, sep: Seq<char>) -> Seq<char>
    decreases parts.len(),
{
    if parts.len() == 0 {
        Seq::empty()
    } else if parts.len() == 1 {
        parts[0]
    } else {
        spec_join(parts.drop_last(), sep) + sep + parts.last()
    }
}

/// Joins owned strings with a separator.
pub fn join_strings(parts: &Vec<String>, sep: &str) -> (r: String)
    ensures
        r@ == spec_join(views_of(parts@), sep@),
{
    let ghost vs = views_of(parts@);
    let mut r = String::new();
    let mut i: usize = 0;
    while i < parts.len()
        invariant
            i <= parts.len(),
            vs == views_of(parts@),
            r@ == spec_join(vs.take(i as int), sep@),
        decreases parts.len() - i,
    {
        if i > 0 {
            r.append(sep);
        }
        r.append(parts[i].as_str());
        proof {
            assert(vs.take(i + 1).drop_last() =~= vs.take(i as int));
            assert(vs.take(i + 1).last() == vs[i as int]);
            if i == 0 {
                assert(r@ =~= spec_join(vs.take(1), sep@));
            }
        }
        i = i + 1;
    }
    proof {
        assert(vs.take(parts@.len() as int) =~= vs);
    }
    r
}

/// The views of a sequence of key/value string pairs.
pub open spec fn param_views(s: Seq<(String, String)>) -> Seq<(Seq<char>, Seq<char>)> {
    s.map_values(|p: (String, String)| (p.0@, p.1@))
}

/// Appends one borrowed string to a list of owned ones.
pub fn push_str(v: &mut Vec<String>, s: &str)
    ensures
        views_of(final(v)@) == views_of(old(v)@).push(s@),
{
    v.push(s.to_owned());
    proof {
        let l = views_of(v@);
        let r = views_of(old(v)@).push(s@);
        assert(views_of(old(v)@).len() == old(v)@.len());
        assert forall|j: int| 0 <= j < l.len() implies l[j] == r[j] by {
            assert(l[j] == v@[j]@);
            if j < old(v)@.len() {
                assert(r[j] == views_of(old(v)@)[j]);
                assert(views_of(old(v)@)[j] == old(v)@[j]@);
            }
        };
        assert(l =~= r);
    }
}

/// Appends one owned string to a list of owned ones.
pub fn push_string(v: &mut Vec<String>, s: String)
    ensures
        views_of(final(v)@) == views_of(old(v)@).push(s@),
{
    let ghost sv = s@;
    v.push(s);
    proof {
        let l = views_of(v@);
        let r = views_of(old(v)@).push(sv);
        assert(views_of(old(v)@).len() == old(v)@.len());
        assert forall|j: int| 0 <= j < l.len() implies l[j] == r[j] by {
            assert(l[j] == v@[j]@);
            if j < old(v)@.len() {
                assert(r[j] == views_of(old(v)@)[j]);
                assert(views_of(old(v)@)[j] == old(v)@[j]@);
            }
        };
        assert(l =~= r);
    }
}

/// Appends one named parameter to a binding list.
pub fn push_param(v: &mut Vec<(String, String)>, k: &str, val: String)
    ensures
        param_views(final(v)@) == param_views(old(v)@).push((k@, val@)),
{
    let ghost vv = val@;
    v.push((k.to_owned(), val));
    proof {
        let l = param_views(v@);
        let r = param_views(old(v)@).push((k@, vv));
        assert(param_views(old(v)@).len() == old(v)@.len());
        assert forall|j: int| 0 <= j < l.len() implies l[j] == r[j] by {
            assert(l[j] == (v@[j].0@, v@[j].1@));
            if j < old(v)@.len() {
                assert(r[j] == param_views(old(v)@)[j]);
                assert(param_views(old(v)@)[j] == (old(v)@[j].0@, old(v)@[j].1@));
            }
        };
        assert(l =~= r);
    }
}

/// The characters the search path strips from query text: the Unicode
/// white-space set.
pub open spec fn is_search_space(c: char) -> bool {
    let u = c as u32;
    ||| (0x9 <= u && u <= 0xD)
    ||| u == 0x20
    ||| u == 0x85
    ||| u == 0xA0
    ||| u == 0x1680
    ||| (0x2000 <= u && u <= 0x200A)
    ||| u == 0x2028
    ||| u == 0x2029
    ||| u == 0x202F
    ||| u == 0x205F
    ||| u == 0x3000
}

/// `s` with leading whitespace removed.
pub open spec fn trim_start_spec(s: Seq<char>) -> Seq<char>
    decreases s.len(),
{
    if s.len() > 0 && is_search_space(s[0]) {
        trim_start_spec(s.drop_first())
    } else {
        s
    }
}

/// `s` with trailing whitespace removed.
pub open spec fn trim_end_spec(s: Seq<char>) -> Seq<char>
    decreases s.len(),
{
    if s.len() > 0 && is_search_space(s.last()) {
        trim_end_spec(s.drop_last())
    } else {
        s
    }
}

/// `s` with whitespace removed from both ends.
pub open spec fn trim_spec(s: Seq<char>) -> Seq<char> {
    trim_end_spec(trim_start_spec(s))
}

proof fn lemma_trim_start_at(s: Seq<char>, a: int)
    requires
        0 <= a <= s.len(),
        forall|j: int| 0 <= j < a ==> is_search_space(s[j]),
        a == s.len() || !is_search_space(s[a]),
    ensures
        trim_start_spec(s) =~= s.skip(a),
    decreases a,
{
    if a == 0 {
        assert(trim_start_spec(s) =~= s);
    } else {
        let t = s.drop_first();
        lemma_trim_start_at(t, a - 1);
        assert(t.skip(a - 1) =~= s.skip(a));
    }
}

proof fn lemma_trim_end_at(s: Seq<char>, b: int)
    requires
        0 <= b <= s.len(),
        forall|j: int| b <= j < s.len() ==> is_search_space(s[j]),
        b == 0 || !is_search_space(s[b - 1]),
    ensures
        trim_end_spec(s) =~= s.take(b),
    decreases s.len() - b,
{
    if b == s.len() {
        assert(trim_end_spec(s) =~= s);
    } else {
        let t = s.drop_last();
        lemma_trim_end_at(t, b);
        assert(t.take(b) =~= s.take(b));
    }
}

fn is_space_char(c: char) -> (r: bool)
    ensures
        r == is_search_space(c),
{
    let u = c as u32;
    (0x9 <= u && u <= 0xD) || u == 0x20 || u == 0x85 || u == 0xA0 || u == 0x1680 || (0x2000 <= u
        && u <= 0x200A) || u == 0x2028 || u == 0x2029 || u == 0x202F || u == 0x205F || u == 0x3000
}

/// Strips whitespace from both ends of `s`.
pub fn trim_ws(s: &str) -> (r: String)
    ensures
        r@ == trim_spec(s@),
{
    let n = s.unicode_len();
    let mut a: usize = 0;
    while a < n && is_space_char(s.get_char(a))
        invariant
            a <= n,
            n == s@.len(),
            forall|j: int| 0 <= j < a ==> is_search_space(s@[j]),
        decreases n - a,
    {
        a = a + 1;
    }
    let mut b: usize = n;
    while b > a && is_space_char(s.get_char(b - 1))
        invariant
            a <= b <= n,
            n == s@.len(),
            forall|j: int| b <= j < n ==> is_search_space(s@[j]),
        decreases b,
    {
        b = b - 1;
    }
    let r = s.substring_char(a, b).to_owned();
    proof {
        lemma_trim_start_at(s@, a as int);
        let t = s@.skip(a as int);
        lemma_trim_end_at(t, b - a);
        assert(t.take(b - a) =~= s@.subrange(a as int, b as int));
    }
    r
}

/// The base-ten renderings of a sequence of ids, in order.
pub open spec fn dec_views(ids: Seq<u32>) -> Seq<Seq<char>> {
    ids.map_values(|i: u32| dec_str(i as nat))
}

/// The JSON array literal holding `ids` in order, base ten, no spaces:
/// the exact text a serializer produces for a vector of unsigned integers.
pub open spec fn spec_id_json(ids: Seq<u32>) -> Seq<char> {
    seq!['['] + spec_join(dec_views(ids), seq![',']) + seq![']']
}

/// Encodes an id list as a JSON array literal, e.g. `[3,1,4]`.
pub fn ids_to_json(ids: &Vec<u32>) -> (r: String)
    ensures
        r@ == spec_id_json(ids@),
{
    let mut parts: Vec<String> = Vec::new();
    let mut i: usize = 0;
    while i < ids.len()
        invariant
            i <= ids.len(),
            views_of(parts@) == dec_views(ids@.take(i as int)),
        decreases ids.len() - i,
    {
        let t = format_u64(ids[i] as u64);
        let ghost parts0 = parts@;
        parts.push(t);
        proof {
            assert(parts0.len() == i) by {
                assert(views_of(parts0).len() == parts0.len());
                assert(dec_views(ids@.take(i as int)).len() == i);
            };
            assert(parts@.len() == i + 1);
            let lhs = views_of(parts@);
            let rhs = dec_views(ids@.take(i + 1));
            assert forall|j: int| 0 <= j < i + 1 implies lhs[j] == rhs[j] by {
                assert(lhs[j] == parts@[j]@);
                assert(rhs[j] == dec_str(ids@.take(i + 1)[j] as nat));
                if j < i {
                    assert(views_of(parts0)[j] == dec_views(ids@.take(i as int))[j]);
                    assert(views_of(parts0)[j] == parts0[j]@);
                    assert(dec_views(ids@.take(i as int))[j] == dec_str(
                        ids@.take(i as int)[j] as nat,
                    ));
                }
            };
            assert(lhs =~= rhs);
        }
        i = i + 1;
    }
    let mut r = String::new();
    proof {
        reveal_strlit("[");
        reveal_strlit("]");
        reveal_strlit(",");
    }
    r.append("[");
    let body = join_strings(&parts, ",");
    r.append(body.as_str());
    r.append("]");
    proof {
        assert(ids@.take(ids@.len() as int) =~= ids@);
        assert(","@ =~= seq![',']);
        assert(r@ =~= spec_id_json(ids@));
    }
    r
}

} // verus!
