//! Decisions of the processing tab: binding plugin inputs to series, and the
//! status lines reported after running and saving a plugin.
use vstd::prelude::*;
use crate::names::{best_match_series_id, first_exact, first_nocase, first_normalized, spec_best_match};
use crate::text::{chars_of, string_from_chars, u64_to_decimal, spec_decimal};

verus! {

/// A plugin input and the series it is currently bound to.
#[derive(Clone, Debug)]
pub struct InputBinding {
    pub required_name: String,
    pub selected_series_id: Option<i64>,
}

/// The bindings must be rebuilt when their names differ from the required
/// ones, position by position, or their number differs.
pub open spec fn spec_needs_rebuild(bindings: Seq<InputBinding>, required: Seq<String>) -> bool {
    bindings.len() != required.len() || exists|i: int|
        0 <= i < bindings.len() && #[trigger] bindings[i].required_name@ != required[i]@
}

/// The series an input is bound to after `ensure_input_bindings`: with changed
/// names every input takes its best match; otherwise a binding to a series
/// that vanished takes its best match, and every other binding stays.
pub open spec fn spec_rebound_id(
    old: Seq<InputBinding>,
    required: Seq<String>,
    available: Seq<(String, i64)>,
    i: int,
) -> Option<i64> {
    if spec_needs_rebuild(old, required) {
        spec_best_match(required[i]@, available)
    } else {
        match old[i].selected_series_id {
            Some(id) => if spec_absent(id, available) {
                spec_best_match(required[i]@, available)
            } else {
                Some(id)
            },
            None => None,
        }
    }
}

/// The id is not among the available series.
pub open spec fn spec_absent(id: i64, available: Seq<(String, i64)>) -> bool {
    forall|k: int| 0 <= k < available.len() ==> #[trigger] available[k].1 != id
}

fn same_name(a: &String, b: &String) -> (r: bool)
    ensures
        r == (a@ == b@),
{
    let x = chars_of(a.as_str());
    let y = chars_of(b.as_str());
    if x.len() != y.len() {
        return false;
    }
    let mut i: usize = 0;
    while i < x.len()
        invariant
            x@ == a@,
            y@ == b@,
            x@.len() == y@.len(),
            i <= x@.len(),
            forall|k: int| 0 <= k < i ==> x@[k] == y@[k],
        decreases x@.len() - i,
    {
        if x[i] != y[i] {
            return false;
        }
        i = i + 1;
    }
    assert(x@ =~= y@);
    true
}

fn id_absent(id: i64, available: &[(String, i64)]) -> (r: bool)
    ensures
        r == spec_absent(id, available@),
{
    let mut i: usize = 0;
    while i < available.len()
        invariant
            i <= available@.len(),
            forall|k: int| 0 <= k < i ==> #[trigger] available@[k].1 != id,
        decreases available@.len() - i,
    {
        if available[i].1 == id {
            return false;
        }
        i = i + 1;
    }
    true
}

fn needs_rebuild(bindings: &[InputBinding], required: &[String]) -> (r: bool)
    ensures
        r == spec_needs_rebuild(bindings@, required@),
{
    if bindings.len() != required.len() {
        return true;
    }
    let mut i: usize = 0;
    while i < bindings.len()
        invariant
            bindings@.len() == required@.len(),
            i <= bindings@.len(),
            forall|k: int| 0 <= k < i ==> #[trigger] bindings@[k].required_name@ == required@[k]@,
        decreases bindings@.len() - i,
    {
        if !same_name(&bindings[i].required_name, &required[i]) {
            return true;
        }
        i = i + 1;
    }
    false
}

/// Keeps the plugin's input bindings in step with the required inputs and the
/// series of the selected flow. When the required names changed, every input
/// is bound afresh to its best match; otherwise only bindings to series that
/// no longer exist are re-bound, and all others are kept.
pub fn ensure_input_bindings(
    bindings: &mut Vec<InputBinding>,
    required: &[String],
    available: &[(String, i64)],
)
    ensures
        final(bindings)@.len() == required@.len(),
        forall|i: int|
            0 <= i < required@.len() ==> #[trigger] final(bindings)@[i].required_name@
                == required@[i]@,
        spec_needs_rebuild(old(bindings)@, required@) ==> forall|i: int|
            0 <= i < required@.len() ==> #[trigger] final(bindings)@[i].selected_series_id
                == spec_best_match(required@[i]@, available@),
        !spec_needs_rebuild(old(bindings)@, required@) ==> forall|i: int|
            0 <= i < required@.len() ==> #[trigger] final(bindings)@[i].selected_series_id == (
            match old(bindings)@[i].selected_series_id {
                Some(id) => if spec_absent(id, available@) {
                    spec_best_match(required@[i]@, available@)
                } else {
                    Some(id)
                },
                None => None,
            }),
        forall|i: int|
            0 <= i < required@.len() ==> #[trigger] final(bindings)@[i].selected_series_id
                == spec_rebound_id(old(bindings)@, required@, available@, i),
{
    let rebuild = needs_rebuild(bindings.as_slice(), required);
    if rebuild {
        let mut fresh: Vec<InputBinding> = Vec::new();
        let mut i: usize = 0;
        while i < required.len()
            invariant
                i <= required@.len(),
                fresh@.len() == i,
                forall|k: int| 0 <= k < i ==> #[trigger] fresh@[k].required_name@ == required@[k]@,
                forall|k: int|
                    0 <= k < i ==> #[trigger] fresh@[k].selected_series_id == spec_best_match(
                        required@[k]@,
                        available@,
                    ),
            decreases required@.len() - i,
        {
            let id = best_match_series_id(required[i].as_str(), available);
            fresh.push(InputBinding { required_name: required[i].clone(), selected_series_id: id });
            i = i + 1;
        }
        *bindings = fresh;
    } else {
        let ghost before = bindings@;
        let mut i: usize = 0;
        while i < bindings.len()
            invariant
                bindings@.len() == required@.len() == before.len(),
                i <= bindings@.len(),
                forall|k: int| 0 <= k < before.len() ==> #[trigger] before[k].required_name@ == required@[k]@,
                forall|k: int| 0 <= k < bindings@.len() ==> #[trigger] bindings@[k].required_name == before[k].required_name,
                forall|k: int|
                    i <= k < bindings@.len() ==> #[trigger] bindings@[k].selected_series_id
                        == before[k].selected_series_id,
                forall|k: int|
                    0 <= k < i ==> #[trigger] bindings@[k].selected_series_id == (
                    match before[k].selected_series_id {
                        Some(id) => if spec_absent(id, available@) {
                            spec_best_match(required@[k]@, available@)
                        } else {
                            Some(id)
                        },
                        None => None,
                    }),
            decreases bindings@.len() - i,
        {
            let current = bindings[i].selected_series_id;
            match current {
                Some(id) => {
                    if id_absent(id, available) {
                        let name = bindings[i].required_name.clone();
                        let new_id = best_match_series_id(name.as_str(), available);
                        let b = InputBinding { required_name: name, selected_series_id: new_id };
                        bindings.set(i, b);
                    }
                },
                None => {},
            }
            i = i + 1;
        }
    }
}

/// The series handed to a plugin for a preview, from its input bindings: the
/// bound ids in order, or the error for the first input that is unbound or
/// bound to a series the flow does not have.
pub open spec fn preview_scan(
    bindings: Seq<InputBinding>,
    available: Seq<(String, i64)>,
    n: int,
) -> Result<Seq<i64>, Seq<char>>
    decreases n,
{
    if n <= 0 {
        Ok(Seq::empty())
    } else {
        match preview_scan(bindings, available, n - 1) {
            Err(e) => Err(e),
            Ok(ids) => match bindings[n - 1].selected_series_id {
                None => Err("Error: no series selected for "@ + bindings[n - 1].required_name@),
                Some(id) => if spec_absent(id, available) {
                    Err(
                        "Error: selected series for "@ + bindings[n - 1].required_name@
                            + " is not available in this flow"@,
                    )
                } else {
                    Ok(ids.push(id))
                },
            },
        }
    }
}

proof fn lemma_preview_stays_err(
    bindings: Seq<InputBinding>,
    available: Seq<(String, i64)>,
    k: int,
    n: int,
)
    requires
        0 <= k <= n,
        preview_scan(bindings, available, k) is Err,
    ensures
        preview_scan(bindings, available, n) == preview_scan(bindings, available, k),
    decreases n - k,
{
    if n > k {
        lemma_preview_stays_err(bindings, available, k, n - 1);
    }
}

/// Checks the input bindings before a preview run and collects the ids of the
/// bound series, or gives the status line of the first problem.
pub fn preview_series_ids(bindings: &[InputBinding], available: &[(String, i64)]) -> (r: Result<
    Vec<i64>,
    String,
>)
    ensures
        match (r, preview_scan(bindings@, available@, bindings@.len() as int)) {
            (Ok(v), Ok(ids)) => v@ == ids,
            (Err(m), Err(e)) => m@ == e,
            _ => false,
        },
{
    let mut ids: Vec<i64> = Vec::new();
    let mut i: usize = 0;
    while i < bindings.len()
        invariant
            i <= bindings@.len(),
            preview_scan(bindings@, available@, i as int) == Ok::<Seq<i64>, Seq<char>>(ids@),
        decreases bindings@.len() - i,
    {
        match bindings[i].selected_series_id {
            None => {
                let mut m = String::from_str("Error: no series selected for ");
                m.append(bindings[i].required_name.as_str());
                proof {
                    lemma_preview_stays_err(bindings@, available@, i + 1, bindings@.len() as int);
                }
                return Err(m);
            },
            Some(id) => {
                if id_absent(id, available) {
                    let mut m = String::from_str("Error: selected series for ");
                    m.append(bindings[i].required_name.as_str());
                    m.append(" is not available in this flow");
                    proof {
                        lemma_preview_stays_err(bindings@, available@, i + 1, bindings@.len() as int);
                    }
                    return Err(m);
                }
                ids.push(id);
            },
        }
        i = i + 1;
    }
    Ok(ids)
}

/// The status line after a preview run: the number of computed series, or the
/// plugin's error.
pub fn preview_status(outcome: Result<usize, String>) -> (r: String)
    ensures
        r@ == (match outcome {
            Ok(n) => "OK — "@ + spec_decimal(n as int) + " new series computed."@,
            Err(e) => "Error: "@ + e@,
        }),
{
    match outcome {
        Ok(n) => {
            let mut m = String::from_str("OK — ");
            let d = string_from_chars(u64_to_decimal(n as u64).as_slice());
            m.append(d.as_str());
            m.append(" new series computed.");
            m
        },
        Err(e) => {
            let mut m = String::from_str("Error: ");
            m.append(e.as_str());
            m
        },
    }
}

/// What happens when the user asks to save the computed series: `Save` when
/// none of them exists yet, `Confirm` with the names that would be overwritten,
/// or `Report` with the error that occurred while looking them up.
#[derive(Debug)]
pub enum SaveDecision {
    Save,
    Confirm(Vec<String>),
    Report(String),
}

/// Decides how to proceed from the lookup of the output series that already
/// exist for the flow.
pub fn save_decision(existing: Result<Vec<String>, String>) -> (r: SaveDecision)
    ensures
        match existing {
            Ok(v) => if v@.len() == 0 {
                r is Save
            } else {
                r matches SaveDecision::Confirm(c) && c@ == v@
            },
            Err(e) => r matches SaveDecision::Report(m) && m@ == "Error: "@ + e@,
        },
{
    match existing {
        Ok(v) => {
            if v.len() == 0 {
                SaveDecision::Save
            } else {
                SaveDecision::Confirm(v)
            }
        },
        Err(e) => {
            let mut m = String::from_str("Error: ");
            m.append(e.as_str());
            SaveDecision::Report(m)
        },
    }
}

/// The messages of the failed saves, in order.
pub open spec fn failures(results: Seq<Result<(), String>>, n: int) -> Seq<Seq<char>>
    decreases n,
{
    if n <= 0 {
        Seq::empty()
    } else {
        match results[n - 1] {
            Ok(()) => failures(results, n - 1),
            Err(e) => failures(results, n - 1).push(e@),
        }
    }
}

/// Messages joined with "; ".
pub open spec fn join_semicolon(parts: Seq<Seq<char>>) -> Seq<char>
    decreases parts.len(),
{
    if parts.len() == 0 {
        Seq::empty()
    } else if parts.len() == 1 {
        parts[0]
    } else {
        join_semicolon(parts.drop_last()) + "; "@ + parts.last()
    }
}

/// The status line after saving: how many series were saved, and the errors
/// of those that were not.
pub open spec fn spec_save_status(results: Seq<Result<(), String>>) -> Seq<char> {
    let errs = failures(results, results.len() as int);
    let saved = results.len() - errs.len();
    if errs.len() == 0 {
        "Saved "@ + spec_decimal(saved) + " series to database."@
    } else {
        "Saved "@ + spec_decimal(saved) + ", errors: "@ + join_semicolon(errs)
    }
}

proof fn lemma_failures_len(results: Seq<Result<(), String>>, n: int)
    requires
        0 <= n <= results.len(),
    ensures
        failures(results, n).len() <= n,
    decreases n,
{
    if n > 0 {
        lemma_failures_len(results, n - 1);
    }
}

/// Summarises the outcome of saving each computed series. Also tells whether
/// every save succeeded (then the cached flow statistics are out of date).
pub fn save_status(results: &[Result<(), String>]) -> (r: (String, bool))
    ensures
        r.0@ == spec_save_status(results@),
        r.1 == (failures(results@, results@.len() as int).len() == 0),
{
    let mut saved: usize = 0;
    let mut errors: Vec<char> = Vec::new();
    let mut n_errors: usize = 0;
    let mut i: usize = 0;
    while i < results.len()
        invariant
            i <= results@.len(),
            n_errors == failures(results@, i as int).len(),
            saved == i - n_errors,
            errors@ == join_semicolon(failures(results@, i as int)),
        decreases results@.len() - i,
    {
        proof {
            lemma_failures_len(results@, i as int);
        }
        match &results[i] {
            Ok(()) => {
                saved = saved + 1;
            },
            Err(e) => {
                let ghost prev = failures(results@, i as int);
                if n_errors > 0 {
                    errors.push(';');
                    errors.push(' ');
                }
                let cs = chars_of(e.as_str());
                let mut k: usize = 0;
                let ghost base = errors@;
                while k < cs.len()
                    invariant
                        k <= cs@.len(),
                        errors@ == base + cs@.subrange(0, k as int),
                    decreases cs@.len() - k,
                {
                    errors.push(cs[k]);
                    k = k + 1;
                    proof {
                        assert(cs@.subrange(0, k as int) == cs@.subrange(0, k - 1).push(cs@[k - 1]));
                    }
                }
                proof {
                    reveal_strlit("; ");
                    assert(cs@.subrange(0, cs@.len() as int) == cs@);
                    let now = prev.push(e@);
                    assert(now.drop_last() == prev);
                    if prev.len() == 0 {
                        assert(errors@ =~= e@);
                    } else {
                        assert(errors@ =~= join_semicolon(prev) + "; "@ + e@);
                    }
                }
                n_errors = n_errors + 1;
            },
        }
        i = i + 1;
    }
    let mut out: Vec<char> = chars_of("Saved ");
    let digits = u64_to_decimal(saved as u64);
    let mut k: usize = 0;
    let ghost base = out@;
    while k < digits.len()
        invariant
            k <= digits@.len(),
            out@ == base + digits@.subrange(0, k as int),
        decreases digits@.len() - k,
    {
        out.push(digits[k]);
        k = k + 1;
        proof {
            assert(digits@.subrange(0, k as int) == digits@.subrange(0, k - 1).push(digits@[k - 1]));
        }
    }
    proof {
        assert(digits@.subrange(0, digits@.len() as int) == digits@);
    }
    let mut s = string_from_chars(out.as_slice());
    if n_errors == 0 {
        s.append(" series to database.");
        (s, true)
    } else {
        s.append(", errors: ");
        let tail = string_from_chars(errors.as_slice());
        s.append(tail.as_str());
        (s, false)
    }
}

proof fn lemma_first_exact_found(av: Seq<(String, i64)>, req: Seq<char>, i: int)
    ensures
        first_exact(av, req, i) matches Some(k) ==> 0 <= k < av.len(),
    decreases av.len() - i,
{
    if 0 <= i < av.len() {
        lemma_first_exact_found(av, req, i + 1);
    }
}

proof fn lemma_first_nocase_found(av: Seq<(String, i64)>, req: Seq<char>, i: int)
    ensures
        first_nocase(av, req, i) matches Some(k) ==> 0 <= k < av.len(),
    decreases av.len() - i,
{
    if 0 <= i < av.len() {
        lemma_first_nocase_found(av, req, i + 1);
    }
}

proof fn lemma_first_normalized_found(av: Seq<(String, i64)>, req: Seq<char>, i: int)
    ensures
        first_normalized(av, req, i) matches Some(k) ==> 0 <= k < av.len(),
    decreases av.len() - i,
{
    if 0 <= i < av.len() {
        lemma_first_normalized_found(av, req, i + 1);
    }
}

/// The best match of a required input is always one of the available series.
pub proof fn law_best_match_is_available(required: Seq<char>, available: Seq<(String, i64)>)
    ensures
        spec_best_match(required, available) matches Some(id) ==> !spec_absent(id, available),
{
    lemma_first_exact_found(available, required, 0);
    lemma_first_nocase_found(available, required, 0);
    lemma_first_normalized_found(available, required, 0);
    if let Some(id) = spec_best_match(required, available) {
        let k = match first_exact(available, required, 0) {
            Some(k) => k,
            None => match first_nocase(available, required, 0) {
                Some(k) => k,
                None => first_normalized(available, required, 0)->0,
            },
        };
        assert(available[k].1 == id);
    }
}

/// Binding the inputs a second time, with the same required names and the
/// same series, changes nothing: the bindings one call leaves behind are
/// already settled.
pub proof fn law_binding_twice_is_once(
    old: Seq<InputBinding>,
    required: Seq<String>,
    available: Seq<(String, i64)>,
    once: Seq<InputBinding>,
)
    requires
        once.len() == required.len(),
        forall|i: int| 0 <= i < required.len() ==> #[trigger] once[i].required_name@ == required[i]@,
        forall|i: int|
            0 <= i < required.len() ==> #[trigger] once[i].selected_series_id == spec_rebound_id(
                old,
                required,
                available,
                i,
            ),
    ensures
        !spec_needs_rebuild(once, required),
        forall|i: int|
            0 <= i < required.len() ==> #[trigger] spec_rebound_id(once, required, available, i)
                == once[i].selected_series_id,
{
    assert forall|i: int| 0 <= i < required.len() implies #[trigger] spec_rebound_id(
        once,
        required,
        available,
        i,
    ) == once[i].selected_series_id by {
        law_best_match_is_available(required[i]@, available);
        assert(once[i].selected_series_id == spec_rebound_id(old, required, available, i));
    }
}

} // verus!
