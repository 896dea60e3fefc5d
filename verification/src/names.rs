//! Matching of time-series names and small text renderings used by the plots.
use vstd::prelude::*;
use crate::text::{chars_of, string_from_chars, i64_to_decimal, spec_decimal};

verus! {

/// ASCII letters and digits.
pub open spec fn spec_is_ascii_alnum(c: char) -> bool {
    let x = c as u32;
    (48 <= x <= 57) || (65 <= x <= 90) || (97 <= x <= 122)
}

/// ASCII lower-casing; every other character is kept.
pub open spec fn spec_ascii_lower(c: char) -> char {
    let x = c as u32;
    if 65 <= x <= 90 {
        (x + 32) as char
    } else {
        c
    }
}

pub fn is_ascii_alnum(c: char) -> (r: bool)
    ensures
        r == spec_is_ascii_alnum(c),
{
    let x = c as u32;
    (48 <= x && x <= 57) || (65 <= x && x <= 90) || (97 <= x && x <= 122)
}

pub fn ascii_lower(c: char) -> (r: char)
    ensures
        r == spec_ascii_lower(c),
{
    let x = c as u32;
    if 65 <= x && x <= 90 {
        let b = x as u8;
        (b + 32) as char
    } else {
        c
    }
}

/// `str::eq_ignore_ascii_case`.
pub open spec fn spec_eq_ignore_ascii_case(a: Seq<char>, b: Seq<char>) -> bool {
    a.len() == b.len() && forall|i: int| 0 <= i < a.len() ==> spec_ascii_lower(a[i]) == spec_ascii_lower(b[i])
}

pub fn eq_ignore_ascii_case(a: &[char], b: &[char]) -> (r: bool)
    ensures
        r == spec_eq_ignore_ascii_case(a@, b@),
{
    if a.len() != b.len() {
        return false;
    }
    let mut i: usize = 0;
    while i < a.len()
        invariant
            a@.len() == b@.len(),
            i <= a@.len(),
            forall|k: int| 0 <= k < i ==> spec_ascii_lower(a@[k]) == spec_ascii_lower(b@[k]),
        decreases a@.len() - i,
    {
        if ascii_lower(a[i]) != ascii_lower(b[i]) {
            return false;
        }
        i = i + 1;
    }
    true
}

/// A series name reduced to its ASCII letters and digits, lower-cased.
pub open spec fn spec_normalize(s: Seq<char>) -> Seq<char>
    decreases s.len(),
{
    if s.len() == 0 {
        s
    } else {
        let rest = spec_normalize(s.drop_last());
        if spec_is_ascii_alnum(s.last()) {
            rest.push(spec_ascii_lower(s.last()))
        } else {
            rest
        }
    }
}

fn normalize_chars(s: &[char]) -> (r: Vec<char>)
    ensures
        r@ == spec_normalize(s@),
{
    let mut r: Vec<char> = Vec::new();
    let mut i: usize = 0;
    while i < s.len()
        invariant
            i <= s@.len(),
            r@ == spec_normalize(s@.subrange(0, i as int)),
        decreases s@.len() - i,
    {
        proof {
            assert(s@.subrange(0, i + 1).drop_last() == s@.subrange(0, i as int));
        }
        if is_ascii_alnum(s[i]) {
            r.push(ascii_lower(s[i]));
        }
        i = i + 1;
    }
    proof {
        assert(s@.subrange(0, s@.len() as int) == s@);
    }
    r
}

/// Reduces a series name to its ASCII letters and digits, lower-cased, so that
/// "SND_UNA", "snd-una" and "snd una" compare equal.
pub fn normalize_series_name(name: &str) -> (r: String)
    ensures
        r@ == spec_normalize(name@),
{
    let cs = chars_of(name);
    let n = normalize_chars(cs.as_slice());
    string_from_chars(n.as_slice())
}

/// The names of a list of (name, id) series descriptions.
pub open spec fn name_of(e: (String, i64)) -> Seq<char> {
    e.0@
}

/// Index of the first series at or after `i` named exactly `req`.
pub open spec fn first_exact(av: Seq<(String, i64)>, req: Seq<char>, i: int) -> Option<int>
    decreases av.len() - i,
{
    if i < 0 || i >= av.len() {
        None
    } else if name_of(av[i]) == req {
        Some(i)
    } else {
        first_exact(av, req, i + 1)
    }
}

/// Index of the first series at or after `i` whose name equals `req` ignoring ASCII case.
pub open spec fn first_nocase(av: Seq<(String, i64)>, req: Seq<char>, i: int) -> Option<int>
    decreases av.len() - i,
{
    if i < 0 || i >= av.len() {
        None
    } else if spec_eq_ignore_ascii_case(name_of(av[i]), req) {
        Some(i)
    } else {
        first_nocase(av, req, i + 1)
    }
}

/// Index of the first series at or after `i` whose normalized name equals the
/// normalized `req`.
pub open spec fn first_normalized(av: Seq<(String, i64)>, req: Seq<char>, i: int) -> Option<int>
    decreases av.len() - i,
{
    if i < 0 || i >= av.len() {
        None
    } else if spec_normalize(name_of(av[i])) == spec_normalize(req) {
        Some(i)
    } else {
        first_normalized(av, req, i + 1)
    }
}

/// The id of the series a required input is bound to by default: the first
/// series with exactly the required name, else the first whose name equals it
/// ignoring ASCII case, else the first whose normalized name equals the
/// normalized required name.
pub open spec fn spec_best_match(required: Seq<char>, available: Seq<(String, i64)>) -> Option<i64> {
    match first_exact(available, required, 0) {
        Some(k) => Some(available[k].1),
        None => match first_nocase(available, required, 0) {
            Some(k) => Some(available[k].1),
            None => match first_normalized(available, required, 0) {
                Some(k) => Some(available[k].1),
                None => None,
            },
        },
    }
}

fn same_chars(a: &[char], b: &[char]) -> (r: bool)
    ensures
        r == (a@ == b@),
{
    if a.len() != b.len() {
        return false;
    }
    let mut i: usize = 0;
    while i < a.len()
        invariant
            a@.len() == b@.len(),
            i <= a@.len(),
            forall|k: int| 0 <= k < i ==> a@[k] == b@[k],
        decreases a@.len() - i,
    {
        if a[i] != b[i] {
            return false;
        }
        i = i + 1;
    }
    assert(a@ =~= b@);
    true
}

/// Picks the series a required plugin input is bound to by default.
pub fn best_match_series_id(required_name: &str, available: &[(String, i64)]) -> (r: Option<i64>)
    ensures
        r == spec_best_match(required_name@, available@),
{
    let req = chars_of(required_name);
    let req_norm = normalize_chars(req.as_slice());
    let mut i: usize = 0;
    while i < available.len()
        invariant
            i <= available@.len(),
            req@ == required_name@,
            first_exact(available@, required_name@, i as int) == first_exact(available@, required_name@, 0),
        decreases available@.len() - i,
    {
        let name = chars_of(available[i].0.as_str());
        if same_chars(name.as_slice(), req.as_slice()) {
            return Some(available[i].1);
        }
        i = i + 1;
    }
    let mut i: usize = 0;
    while i < available.len()
        invariant
            i <= available@.len(),
            req@ == required_name@,
            first_exact(available@, required_name@, 0) is None,
            first_nocase(available@, required_name@, i as int) == first_nocase(available@, required_name@, 0),
        decreases available@.len() - i,
    {
        let name = chars_of(available[i].0.as_str());
        if eq_ignore_ascii_case(name.as_slice(), req.as_slice()) {
            return Some(available[i].1);
        }
        i = i + 1;
    }
    let mut i: usize = 0;
    while i < available.len()
        invariant
            i <= available@.len(),
            req@ == required_name@,
            req_norm@ == spec_normalize(required_name@),
            first_exact(available@, required_name@, 0) is None,
            first_nocase(available@, required_name@, 0) is None,
            first_normalized(available@, required_name@, i as int) == first_normalized(available@, required_name@, 0),
        decreases available@.len() - i,
    {
        let name = chars_of(available[i].0.as_str());
        let norm = normalize_chars(name.as_slice());
        if same_chars(norm.as_slice(), req_norm.as_slice()) {
            return Some(available[i].1);
        }
        i = i + 1;
    }
    None
}

/// A label turned into a vertical marker: its characters in reverse order, one
/// per line.
pub open spec fn spec_vertical_label(s: Seq<char>) -> Seq<char>
    decreases s.len(),
{
    if s.len() == 0 {
        s
    } else if s.len() == 1 {
        seq![s[0]]
    } else {
        seq![s.last(), '\n'] + spec_vertical_label(s.drop_last())
    }
}

/// Renders a label for a vertical plot marker: characters reversed, one per line.
pub fn vertical_marker_label(label: &str) -> (r: String)
    ensures
        r@ == spec_vertical_label(label@),
{
    let cs = chars_of(label);
    let mut out: Vec<char> = Vec::new();
    let mut k: usize = cs.len();
    proof {
        assert(cs@.subrange(0, k as int) == cs@);
        assert(out@ + cs@ =~= cs@);
    }
    while k > 0
        invariant
            k <= cs@.len(),
            cs@ == label@,
            out@ + spec_vertical_label(cs@.subrange(0, k as int)) == spec_vertical_label(cs@),
        decreases k,
    {
        let ghost pre = cs@.subrange(0, k as int);
        proof {
            assert(pre.drop_last() == cs@.subrange(0, k - 1));
            assert(pre.last() == cs@[k - 1]);
        }
        out.push(cs[k - 1]);
        if k > 1 {
            out.push('\n');
        } else {
            assert(pre == seq![cs@[0]]);
        }
        k = k - 1;
        proof {
            assert(spec_vertical_label(cs@.subrange(0, k as int)) == spec_vertical_label(
                pre.drop_last(),
            ));
        }
    }
    proof {
        assert(cs@.subrange(0, 0) =~= Seq::<char>::empty());
        assert(out@ + Seq::<char>::empty() =~= out@);
    }
    string_from_chars(out.as_slice())
}

/// The ids of the series whose name is among `names`, in series order.
pub open spec fn ids_named<T>(available: Seq<(String, i64)>, names: Seq<Seq<char>>, n: int) -> Seq<i64>
    decreases n,
{
    if n <= 0 {
        Seq::empty()
    } else {
        let prev = ids_named::<T>(available, names, n - 1);
        if names.contains(available[n - 1].0@) {
            prev.push(available[n - 1].1)
        } else {
            prev
        }
    }
}

pub(crate) fn name_in(name: &str, names: &[String]) -> (r: bool)
    ensures
        r == names@.map_values(|s: String| s@).contains(name@),
{
    let ghost v = names@.map_values(|s: String| s@);
    let mut i: usize = 0;
    while i < names.len()
        invariant
            i <= names@.len(),
            v == names@.map_values(|s: String| s@),
            forall|k: int| 0 <= k < i ==> v[k] != name@,
        decreases names@.len() - i,
    {
        let a = chars_of(name);
        let b = chars_of(names[i].as_str());
        if same_chars(a.as_slice(), b.as_slice()) {
            assert(v[i as int] == name@);
            return true;
        }
        i = i + 1;
    }
    false
}


/// `{:?}` of a list of integers: "[a, b, c]".
pub open spec fn spec_debug_list(v: Seq<i64>) -> Seq<char> {
    seq!['['] + debug_items(v, v.len() as int) + seq![']']
}

/// The comma-separated items of the first `n` integers.
pub open spec fn debug_items(v: Seq<i64>, n: int) -> Seq<char>
    decreases n,
{
    if n <= 0 {
        Seq::empty()
    } else if n == 1 {
        spec_decimal(v[0] as int)
    } else {
        debug_items(v, n - 1) + seq![',', ' '] + spec_decimal(v[n - 1] as int)
    }
}

fn append_chars(out: &mut Vec<char>, s: &[char])
    ensures
        final(out)@ == old(out)@ + s@,
{
    let mut i: usize = 0;
    while i < s.len()
        invariant
            i <= s@.len(),
            out@ == old(out)@ + s@.subrange(0, i as int),
        decreases s@.len() - i,
    {
        out.push(s[i]);
        i = i + 1;
        proof {
            assert(s@.subrange(0, i as int) == s@.subrange(0, i - 1).push(s@[i - 1]));
        }
    }
    proof {
        assert(s@.subrange(0, s@.len() as int) == s@);
    }
}

/// Writes a list of integers as `{:?}` does.
pub fn debug_list(v: &[i64]) -> (r: Vec<char>)
    ensures
        r@ == spec_debug_list(v@),
{
    let mut out: Vec<char> = Vec::new();
    out.push('[');
    let mut i: usize = 0;
    while i < v.len()
        invariant
            i <= v@.len(),
            out@ == seq!['['] + debug_items(v@, i as int),
        decreases v@.len() - i,
    {
        if i > 0 {
            out.push(',');
            out.push(' ');
        }
        let d = i64_to_decimal(v[i]);
        append_chars(&mut out, d.as_slice());
        i = i + 1;
        proof {
            if i == 1 {
                assert(debug_items(v@, 0) =~= Seq::<char>::empty());
            }
            assert(out@ =~= seq!['['] + debug_items(v@, i as int));
        }
    }
    out.push(']');
    out
}

/// A normalized name consists of lower-case ASCII letters and digits only.
proof fn lemma_normalize_chars(s: Seq<char>)
    ensures
        forall|k: int|
            0 <= k < spec_normalize(s).len() ==> spec_is_ascii_alnum(
                #[trigger] spec_normalize(s)[k],
            ) && spec_ascii_lower(spec_normalize(s)[k]) == spec_normalize(s)[k],
    decreases s.len(),
{
    if s.len() > 0 {
        lemma_normalize_chars(s.drop_last());
        let c = s.last();
        if spec_is_ascii_alnum(c) {
            let x = #[verifier::truncate] (c as u32);
            if 65 <= x <= 90 {
                assert(((x + 32) as char) as u32 == x + 32);
            }
            let rest = spec_normalize(s.drop_last());
            let l = spec_ascii_lower(c);
            assert(spec_is_ascii_alnum(l) && spec_ascii_lower(l) == l);
            assert forall|k: int|
                0 <= k < spec_normalize(s).len() implies spec_is_ascii_alnum(
                #[trigger] spec_normalize(s)[k],
            ) && spec_ascii_lower(spec_normalize(s)[k]) == spec_normalize(s)[k] by {
                if k < rest.len() {
                    assert(spec_normalize(s)[k] == rest[k]);
                }
            }
        } else {
            assert(spec_normalize(s) == spec_normalize(s.drop_last()));
        }
    }
}

/// A name made of lower-case ASCII letters and digits is its own normal form.
proof fn lemma_normalize_fixed(t: Seq<char>)
    requires
        forall|k: int|
            0 <= k < t.len() ==> spec_is_ascii_alnum(#[trigger] t[k]) && spec_ascii_lower(t[k])
                == t[k],
    ensures
        spec_normalize(t) == t,
    decreases t.len(),
{
    if t.len() > 0 {
        lemma_normalize_fixed(t.drop_last());
        assert(t.drop_last().push(t.last()) == t);
    }
}

/// Normalizing a series name twice gives the same result as normalizing it
/// once, so normalized names can be stored and compared again.
pub proof fn law_normalize_idempotent(s: Seq<char>)
    ensures
        spec_normalize(spec_normalize(s)) == spec_normalize(s),
{
    lemma_normalize_chars(s);
    lemma_normalize_fixed(spec_normalize(s));
}

} // verus!
