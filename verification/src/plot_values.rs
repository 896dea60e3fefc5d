//! Selection of the samples of a plotted series by the kind of their values.
//! A sample is a timestamp with a value; floating-point values are carried as
//! `Sample::Float` without their number, since nothing here reads it.
use vstd::prelude::*;
use crate::processor::ValueKind;

verus! {

/// The value of a stored sample, as far as the plot preprocessing reads it.
#[derive(Debug)]
pub enum Sample {
    Int(i64),
    Float,
    Boolean(bool),
    Text(String),
}

/// The text samples among the first `n`, with their timestamps, in order.
pub open spec fn text_samples<T>(data: Seq<(T, Sample)>, n: int) -> Seq<(T, Seq<char>)>
    decreases n,
{
    if n <= 0 {
        Seq::empty()
    } else {
        match data[n - 1].1 {
            Sample::Text(s) => text_samples(data, n - 1).push((data[n - 1].0, s@)),
            _ => text_samples(data, n - 1),
        }
    }
}

/// The text samples of a series, with their timestamps.
pub fn extract_non_empty_string<T: Copy>(plot_data: &[(T, Sample)]) -> (r: Vec<(T, String)>)
    ensures
        r@.map_values(|p: (T, String)| (p.0, p.1@)) == text_samples(
            plot_data@,
            plot_data@.len() as int,
        ),
{
    let mut out: Vec<(T, String)> = Vec::new();
    let mut i: usize = 0;
    while i < plot_data.len()
        invariant
            i <= plot_data@.len(),
            out@.map_values(|p: (T, String)| (p.0, p.1@)) == text_samples(plot_data@, i as int),
        decreases plot_data@.len() - i,
    {
        match &plot_data[i].1 {
            Sample::Text(s) => {
                let ghost before = out@;
                out.push((plot_data[i].0, s.clone()));
                proof {
                    assert(out@.map_values(|p: (T, String)| (p.0, p.1@)) =~= before.map_values(
                        |p: (T, String)| (p.0, p.1@),
                    ).push((plot_data@[i as int].0, s@)));
                }
            },
            _ => {},
        }
        i = i + 1;
    }
    out
}

/// The timestamps of the samples among the first `n` that are `true`.
pub open spec fn true_samples<T>(data: Seq<(T, Sample)>, n: int) -> Seq<T>
    decreases n,
{
    if n <= 0 {
        Seq::empty()
    } else {
        match data[n - 1].1 {
            Sample::Boolean(true) => true_samples(data, n - 1).push(data[n - 1].0),
            _ => true_samples(data, n - 1),
        }
    }
}

/// Keeps only the samples that are boolean `true` (the events of a boolean
/// series); every kept sample is `Sample::Boolean(true)`.
pub fn filter_false_boolean_from_data<T: Copy>(plot_data: &[(T, Sample)]) -> (r: Vec<(T, Sample)>)
    ensures
        r@.len() == true_samples(plot_data@, plot_data@.len() as int).len(),
        forall|k: int|
            0 <= k < r@.len() ==> #[trigger] r@[k].0 == true_samples(
                plot_data@,
                plot_data@.len() as int,
            )[k] && r@[k].1 == Sample::Boolean(true),
{
    let mut out: Vec<(T, Sample)> = Vec::new();
    let mut i: usize = 0;
    while i < plot_data.len()
        invariant
            i <= plot_data@.len(),
            out@.len() == true_samples(plot_data@, i as int).len(),
            forall|k: int|
                0 <= k < out@.len() ==> #[trigger] out@[k].0 == true_samples(plot_data@, i as int)[k]
                    && out@[k].1 == Sample::Boolean(true),
        decreases plot_data@.len() - i,
    {
        let ghost prev = true_samples(plot_data@, i as int);
        match &plot_data[i].1 {
            Sample::Boolean(true) => {
                out.push((plot_data[i].0, Sample::Boolean(true)));
                assert(true_samples(plot_data@, i + 1) == prev.push(plot_data@[i as int].0));
            },
            _ => {
                assert(true_samples(plot_data@, i + 1) == prev);
            },
        }
        i = i + 1;
    }
    out
}

/// The positions of the text series among the first `n` series.
pub open spec fn text_series(kinds: Seq<ValueKind>, n: int) -> Seq<usize>
    decreases n,
{
    if n <= 0 {
        Seq::empty()
    } else if kinds[n - 1] == ValueKind::Text {
        text_series(kinds, n - 1).push((n - 1) as usize)
    } else {
        text_series(kinds, n - 1)
    }
}

/// The positions of the plotted series that hold text, or `None` when there
/// is none.
pub fn filter_for_string_values(kinds: &[ValueKind]) -> (r: Option<Vec<usize>>)
    ensures
        ({
            let t = text_series(kinds@, kinds@.len() as int);
            &&& t.len() == 0 ==> r is None
            &&& t.len() > 0 ==> (r matches Some(v) && v@ == t)
        }),
{
    let mut out: Vec<usize> = Vec::new();
    let mut i: usize = 0;
    while i < kinds.len()
        invariant
            i <= kinds@.len(),
            out@ == text_series(kinds@, i as int),
        decreases kinds@.len() - i,
    {
        if kinds[i] == ValueKind::Text {
            out.push(i);
        }
        i = i + 1;
    }
    if out.len() == 0 {
        None
    } else {
        Some(out)
    }
}

} // verus!
