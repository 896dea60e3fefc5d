//! The filter typed above the flow table: plain words search every column,
//! `column:value` terms search one column, and several terms must all match.
use vstd::prelude::*;
use crate::text::{
    chars_of, contains, find_from, i64_to_decimal, spec_contains, spec_decimal,
    spec_is_whitespace, spec_split_once, spec_to_lowercase, spec_words, split_once,
    split_whitespace, to_lowercase, u64_to_decimal, words_scan,
};

verus! {

/// The columns of a flow as the table shows them; the addresses are given as
/// their display text.
pub struct FlowRow {
    pub id: i64,
    pub src: String,
    pub dst: String,
    pub sport: u16,
    pub dport: u16,
}

/// Whether a `column:value` term matches the flow. An empty value matches
/// everything; an unknown column matches nothing.
pub open spec fn spec_column_matches(f: FlowRow, col: Seq<char>, val: Seq<char>) -> bool {
    if val.len() == 0 {
        true
    } else if col == "id"@ {
        spec_contains(spec_decimal(f.id as int), val)
    } else if col == "src"@ || col == "srcip"@ || col == "source"@ {
        spec_contains(spec_to_lowercase(f.src@), val)
    } else if col == "dst"@ || col == "dstip"@ || col == "dest"@ || col == "destination"@ {
        spec_contains(spec_to_lowercase(f.dst@), val)
    } else if col == "sport"@ || col == "srcport"@ {
        spec_contains(spec_decimal(f.sport as int), val)
    } else if col == "dport"@ || col == "dstport"@ {
        spec_contains(spec_decimal(f.dport as int), val)
    } else if col == "port"@ {
        spec_contains(spec_decimal(f.sport as int), val) || spec_contains(
            spec_decimal(f.dport as int),
            val,
        )
    } else {
        false
    }
}

/// Whether one search term matches the flow: a `column:value` term (split at
/// the first ':') tests that column; any other term must occur in one of the
/// addresses, ports or the id.
pub open spec fn spec_term_matches(f: FlowRow, t: Seq<char>) -> bool {
    match spec_split_once(t, ':') {
        Some((col, val)) => spec_column_matches(f, col, val),
        None => spec_contains(spec_to_lowercase(f.src@), t) || spec_contains(
            spec_to_lowercase(f.dst@),
            t,
        ) || spec_contains(spec_decimal(f.sport as int), t) || spec_contains(
            spec_decimal(f.dport as int),
            t,
        ) || spec_contains(spec_decimal(f.id as int), t),
    }
}

/// Whether the (already lower-cased) filter text selects the flow: the empty
/// filter selects all flows, a filter of several whitespace-separated terms
/// requires each term to match, and any other filter is one term.
pub open spec fn spec_flow_matches(f: FlowRow, filter: Seq<char>) -> bool {
    if filter.len() == 0 {
        true
    } else if spec_words(filter).len() > 1 {
        forall|k: int| 0 <= k < spec_words(filter).len() ==> spec_term_matches(f, #[trigger] spec_words(filter)[k])
    } else {
        spec_term_matches(f, filter)
    }
}

fn is_literal(a: &[char], lit: &str) -> (r: bool)
    ensures
        r == (a@ == lit@),
{
    let b = chars_of(lit);
    if a.len() != b.len() {
        return false;
    }
    let mut i: usize = 0;
    while i < a.len()
        invariant
            b@ == lit@,
            a@.len() == b@.len(),
            i <= a@.len(),
            forall|k: int| 0 <= k < i ==> a@[k] == b@[k],
        decreases a@.len() - i,
    {
        if a[i] != b[i] {
            return false;
        }
        i = i + 1;
    }
    assert(a@ =~= b@);
    true
}

fn lower_chars(s: &String) -> (r: Vec<char>)
    ensures
        r@ == spec_to_lowercase(s@),
{
    let l = to_lowercase(s.as_str());
    chars_of(l.as_str())
}

/// Whether a `column:value` term matches the flow.
pub fn flow_column_matches(f: &FlowRow, col: &[char], val: &[char]) -> (r: bool)
    ensures
        r == spec_column_matches(*f, col@, val@),
{
    if val.len() == 0 {
        return true;
    }
    if is_literal(col, "id") {
        let d = i64_to_decimal(f.id);
        contains(d.as_slice(), val)
    } else if is_literal(col, "src") || is_literal(col, "srcip") || is_literal(col, "source") {
        let s = lower_chars(&f.src);
        contains(s.as_slice(), val)
    } else if is_literal(col, "dst") || is_literal(col, "dstip") || is_literal(col, "dest")
        || is_literal(col, "destination") {
        let s = lower_chars(&f.dst);
        contains(s.as_slice(), val)
    } else if is_literal(col, "sport") || is_literal(col, "srcport") {
        let d = u64_to_decimal(f.sport as u64);
        contains(d.as_slice(), val)
    } else if is_literal(col, "dport") || is_literal(col, "dstport") {
        let d = u64_to_decimal(f.dport as u64);
        contains(d.as_slice(), val)
    } else if is_literal(col, "port") {
        let a = u64_to_decimal(f.sport as u64);
        let b = u64_to_decimal(f.dport as u64);
        contains(a.as_slice(), val) || contains(b.as_slice(), val)
    } else {
        false
    }
}

fn term_matches(f: &FlowRow, t: &[char]) -> (r: bool)
    ensures
        r == spec_term_matches(*f, t@),
{
    match split_once(t, ':') {
        Some((col, val)) => flow_column_matches(f, col.as_slice(), val.as_slice()),
        None => {
            let src = lower_chars(&f.src);
            let dst = lower_chars(&f.dst);
            let sport = u64_to_decimal(f.sport as u64);
            let dport = u64_to_decimal(f.dport as u64);
            let id = i64_to_decimal(f.id);
            contains(src.as_slice(), t) || contains(dst.as_slice(), t) || contains(
                sport.as_slice(),
                t,
            ) || contains(dport.as_slice(), t) || contains(id.as_slice(), t)
        },
    }
}

/// Whether the lower-cased filter text selects the flow.
pub fn flow_matches(f: &FlowRow, filter: &str) -> (r: bool)
    ensures
        r == spec_flow_matches(*f, filter@),
{
    let cs = chars_of(filter);
    if cs.len() == 0 {
        return true;
    }
    let words = split_whitespace(cs.as_slice());
    if words.len() > 1 {
        let mut k: usize = 0;
        while k < words.len()
            invariant
                cs@ == filter@,
                filter@.len() != 0,
                words@.len() > 1,
                words@.len() == spec_words(filter@).len(),
                forall|j: int| 0 <= j < words@.len() ==> #[trigger] words@[j]@ == spec_words(filter@)[j],
                k <= words@.len(),
                forall|j: int| 0 <= j < k ==> spec_term_matches(*f, #[trigger] spec_words(filter@)[j]),
            decreases words@.len() - k,
        {
            let m = term_matches(f, words[k].as_slice());
            assert(words@[k as int]@ == spec_words(filter@)[k as int]);
            if !m {
                assert(!spec_term_matches(*f, spec_words(filter@)[k as int]));
                return false;
            }
            k = k + 1;
        }
        true
    } else {
        term_matches(f, cs.as_slice())
    }
}

// ---------------------------------------------------------------------------
// What the filter is for.

proof fn lemma_no_colon_not_found(t: Seq<char>, i: int)
    requires
        0 <= i,
        forall|k: int| 0 <= k < t.len() ==> t[k] != ':',
    ensures
        find_from(t, ':', i) is None,
    decreases t.len() - i,
{
    if i < t.len() {
        lemma_no_colon_not_found(t, i + 1);
    }
}

proof fn lemma_one_word(w: Seq<char>, n: int)
    requires
        0 <= n <= w.len(),
        forall|k: int| 0 <= k < w.len() ==> !spec_is_whitespace(#[trigger] w[k]),
    ensures
        words_scan(w, n).0.len() == 0,
        words_scan(w, n).1.len() == n,
    decreases n,
{
    if n > 0 {
        lemma_one_word(w, n - 1);
    }
}

/// A search term without ':' matches a flow exactly when it occurs in the
/// lower-cased source or destination address, or in the decimal text of the
/// source port, the destination port or the flow id.
pub proof fn law_plain_term_searches_every_column(f: FlowRow, t: Seq<char>)
    requires
        forall|k: int| 0 <= k < t.len() ==> t[k] != ':',
    ensures
        spec_term_matches(f, t) <==> (spec_contains(spec_to_lowercase(f.src@), t) || spec_contains(
            spec_to_lowercase(f.dst@),
            t,
        ) || spec_contains(spec_decimal(f.sport as int), t) || spec_contains(
            spec_decimal(f.dport as int),
            t,
        ) || spec_contains(spec_decimal(f.id as int), t)),
{
    lemma_no_colon_not_found(t, 0);
}

/// A filter that is a single word without ':' selects a flow exactly when the
/// word occurs in one of the flow's columns as the table shows them (addresses
/// lower-cased, ports and id in decimal).
pub proof fn law_single_word_filter(f: FlowRow, w: Seq<char>)
    requires
        w.len() > 0,
        forall|k: int| 0 <= k < w.len() ==> w[k] != ':',
        forall|k: int| 0 <= k < w.len() ==> !spec_is_whitespace(#[trigger] w[k]),
    ensures
        spec_flow_matches(f, w) <==> (spec_contains(spec_to_lowercase(f.src@), w) || spec_contains(
            spec_to_lowercase(f.dst@),
            w,
        ) || spec_contains(spec_decimal(f.sport as int), w) || spec_contains(
            spec_decimal(f.dport as int),
            w,
        ) || spec_contains(spec_decimal(f.id as int), w)),
{
    lemma_one_word(w, w.len() as int);
    assert(spec_words(w).len() == 1);
    law_plain_term_searches_every_column(f, w);
}

/// A `column:value` term (the column without ':') matches exactly as that
/// column's test does on the value.
pub proof fn law_column_term(f: FlowRow, col: Seq<char>, val: Seq<char>)
    requires
        forall|k: int| 0 <= k < col.len() ==> col[k] != ':',
    ensures
        spec_term_matches(f, col + seq![':'] + val) == spec_column_matches(f, col, val),
{
    let t = col + seq![':'] + val;
    assert(t.subrange(0, col.len() as int) == col);
    assert(t.subrange(col.len() as int + 1, t.len() as int) == val);
    lemma_first_colon(t, col, 0);
}

proof fn lemma_first_colon(t: Seq<char>, col: Seq<char>, i: int)
    requires
        0 <= i <= col.len(),
        col.len() < t.len(),
        t.subrange(0, col.len() as int) == col,
        t[col.len() as int] == ':',
        forall|k: int| 0 <= k < col.len() ==> col[k] != ':',
    ensures
        find_from(t, ':', i) == Some(col.len() as int),
    decreases col.len() - i,
{
    if i < col.len() {
        assert(t[i] == col[i]);
        lemma_first_colon(t, col, i + 1);
    }
}

/// The column tests, as the filter help describes them: an empty value matches
/// every flow; `port:` searches both ports; `dport:` the destination port and
/// `sport:` the source port in decimal; `id:` the flow id; `src:`/`dst:` the
/// lower-cased addresses; an unknown column matches nothing.
pub proof fn law_column_tests(f: FlowRow, val: Seq<char>)
    requires
        val.len() > 0,
    ensures
        spec_column_matches(f, Seq::empty(), Seq::empty()),
        spec_column_matches(f, "port"@, val) == (spec_contains(spec_decimal(f.sport as int), val)
            || spec_contains(spec_decimal(f.dport as int), val)),
        spec_column_matches(f, "dport"@, val) == spec_contains(spec_decimal(f.dport as int), val),
        spec_column_matches(f, "sport"@, val) == spec_contains(spec_decimal(f.sport as int), val),
        spec_column_matches(f, "id"@, val) == spec_contains(spec_decimal(f.id as int), val),
        spec_column_matches(f, "src"@, val) == spec_contains(spec_to_lowercase(f.src@), val),
        spec_column_matches(f, "dst"@, val) == spec_contains(spec_to_lowercase(f.dst@), val),
        !spec_column_matches(f, "color"@, val),
{
    reveal_strlit("port");
    reveal_strlit("dport");
    reveal_strlit("sport");
    reveal_strlit("id");
    reveal_strlit("src");
    reveal_strlit("dst");
    reveal_strlit("color");
    reveal_strlit("srcip");
    reveal_strlit("source");
    reveal_strlit("dstip");
    reveal_strlit("dest");
    reveal_strlit("destination");
    reveal_strlit("srcport");
    reveal_strlit("dstport");
    assert("port"@.len() == 4 && "dport"@.len() == 5 && "sport"@.len() == 5 && "id"@.len() == 2 && "src"@.len() == 3 && "dst"@.len() == 3 && "color"@.len() == 5 && "srcip"@.len() == 5 && "source"@.len() == 6 && "dstip"@.len() == 5 && "dest"@.len() == 4 && "destination"@.len() == 11 && "srcport"@.len() == 7 && "dstport"@.len() == 7);
    assert("port"@ != "dest"@) by {
        assert("port"@[0] != "dest"@[0]);
    }
    assert("dport"@ != "srcip"@ && "dport"@ != "sport"@) by {
        assert("dport"@[0] != "srcip"@[0]);
    }
    assert("dport"@ != "dstip"@) by {
        assert("dport"@[1] != "dstip"@[1]);
    }
    assert("sport"@ != "srcip"@) by {
        assert("sport"@[1] != "srcip"@[1]);
    }
    assert("sport"@ != "dstip"@) by {
        assert("sport"@[0] != "dstip"@[0]);
    }
    assert("dst"@ != "src"@) by {
        assert("dst"@[0] != "src"@[0]);
    }
    assert("color"@ != "srcip"@ && "color"@ != "dstip"@ && "color"@ != "sport"@ && "color"@
        != "dport"@) by {
        assert("color"@[0] != "srcip"@[0]);
    }
}

} // verus!
