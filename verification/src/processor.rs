//! The pre-processors of the plotting screens, which derive new series from the
//! series already plotted for a flow.
use vstd::prelude::*;
use crate::plugins::views;

verus! {

/// The kind of values a stored series holds.
#[derive(Clone, Copy, Debug, PartialEq, Eq, Structural)]
pub enum ValueKind {
    Int,
    Float,
    Boolean,
    Text,
}

impl ValueKind {
    /// Numeric code of the kind: integers 0, floats 1, booleans 2, text 3.
    pub fn type_to_int(&self) -> (r: u8)
        ensures
            r == (match *self {
                ValueKind::Int => 0u8,
                ValueKind::Float => 1u8,
                ValueKind::Boolean => 2u8,
                ValueKind::Text => 3u8,
            }),
    {
        match self {
            ValueKind::Int => 0,
            ValueKind::Float => 1,
            ValueKind::Boolean => 2,
            ValueKind::Text => 3,
        }
    }
}

/// The pre-processors that can be chosen.
#[derive(Clone, Copy, Debug, PartialEq, Eq, Structural)]
pub enum ProcessorImplementation {
    DummyProcessor,
    UpperWindow,
}

impl ProcessorImplementation {
    /// Every pre-processor, in the order in which they are offered.
    pub fn all() -> (r: Vec<ProcessorImplementation>)
        ensures
            r@ == seq![ProcessorImplementation::DummyProcessor, ProcessorImplementation::UpperWindow],
    {
        let mut r: Vec<ProcessorImplementation> = Vec::new();
        r.push(ProcessorImplementation::DummyProcessor);
        r.push(ProcessorImplementation::UpperWindow);
        r
    }

    /// The name under which the pre-processor is offered.
    pub fn to_string(&self) -> (r: String)
        ensures
            r@ == (match *self {
                ProcessorImplementation::DummyProcessor => "Dummy Processor"@,
                ProcessorImplementation::UpperWindow => "Upper TCP Window Number"@,
            }),
    {
        match self {
            ProcessorImplementation::DummyProcessor => String::from_str("Dummy Processor"),
            ProcessorImplementation::UpperWindow => String::from_str("Upper TCP Window Number"),
        }
    }
}

/// Why the upper-window pre-processor refuses its inputs.
#[derive(Clone, Copy, Debug, PartialEq, Eq, Structural)]
pub enum UpperWindowInputError {
    /// Fewer than two series were plotted.
    MissingUna,
    MissingWnd,
    /// SND_UNA and SND_WND hold different kinds of values.
    Mismatch,
    /// The series hold neither integers nor floats.
    NotNumeric,
}

/// The error text reported for each refusal.
pub open spec fn spec_upper_window_message(e: UpperWindowInputError) -> Seq<char> {
    match e {
        UpperWindowInputError::MissingUna => "No SND_UNA series!"@,
        UpperWindowInputError::MissingWnd => "No SND_WND series!"@,
        UpperWindowInputError::Mismatch => "Mismatch in TS types!"@,
        UpperWindowInputError::NotNumeric => "Series invalid type: Are not INT or FLOAT!"@,
    }
}

impl UpperWindowInputError {
    pub fn message(&self) -> (r: String)
        ensures
            r@ == spec_upper_window_message(*self),
    {
        match self {
            UpperWindowInputError::MissingUna => String::from_str("No SND_UNA series!"),
            UpperWindowInputError::MissingWnd => String::from_str("No SND_WND series!"),
            UpperWindowInputError::Mismatch => String::from_str("Mismatch in TS types!"),
            UpperWindowInputError::NotNumeric => String::from_str(
                "Series invalid type: Are not INT or FLOAT!",
            ),
        }
    }
}

/// Sum of two series of integers, position by position, with its extremes.
pub open spec fn sums(una: Seq<i64>, wnd: Seq<i64>) -> Seq<int> {
    Seq::new(
        if una.len() <= wnd.len() {
            una.len()
        } else {
            wnd.len()
        },
        |i: int| una[i] + wnd[i],
    )
}

/// The least of `start` and the values of `s`.
pub open spec fn seq_min(s: Seq<int>, start: int) -> int
    decreases s.len(),
{
    if s.len() == 0 {
        start
    } else {
        let m = seq_min(s.drop_last(), start);
        if s.last() < m {
            s.last()
        } else {
            m
        }
    }
}

/// The greatest of `start` and the values of `s`.
pub open spec fn seq_max(s: Seq<int>, start: int) -> int
    decreases s.len(),
{
    if s.len() == 0 {
        start
    } else {
        let m = seq_max(s.drop_last(), start);
        if s.last() > m {
            s.last()
        } else {
            m
        }
    }
}

/// Upper window edge: SND_UNA + SND_WND.
pub struct UpperWindow {
    pub required_timeseries_as_string: Vec<String>,
}

impl UpperWindow {
    pub fn new() -> (r: UpperWindow)
        ensures
            views(r.required_timeseries_as_string@) == seq!["SND_UNA"@, "SND_WND"@],
    {
        let mut v: Vec<String> = Vec::new();
        v.push(String::from_str("SND_UNA"));
        v.push(String::from_str("SND_WND"));
        let r = UpperWindow { required_timeseries_as_string: v };
        assert(views(r.required_timeseries_as_string@) =~= seq!["SND_UNA"@, "SND_WND"@]);
        r
    }

    pub fn receive_name(&self) -> (r: String)
        ensures
            r@ == "Upper TCP Window Number"@,
    {
        String::from_str("Upper TCP Window Number")
    }

    pub fn receive_description(&self) -> (r: String)
        ensures
            r@ == "\n        Calculates the upper bound of the sliding TCP window based on SND_UNA + SND_WND\n        "@,
    {
        String::from_str(
            "\n        Calculates the upper bound of the sliding TCP window based on SND_UNA + SND_WND\n        ",
        )
    }

    pub fn receive_required_timeseries(&self) -> (r: Vec<String>)
        ensures
            views(r@) == views(self.required_timeseries_as_string@),
    {
        let r = self.required_timeseries_as_string.clone();
        assert(views(r@) =~= views(self.required_timeseries_as_string@));
        r
    }

    /// Checks the plotted series handed to the pre-processor: `kinds` holds the
    /// value kind of each plotted series, in plotting order. On success, the kind
    /// shared by SND_UNA and SND_WND.
    pub fn check_inputs(kinds: &[ValueKind]) -> (r: Result<ValueKind, UpperWindowInputError>)
        ensures
            kinds@.len() == 0 ==> r == Err::<ValueKind, UpperWindowInputError>(
                UpperWindowInputError::MissingUna,
            ),
            kinds@.len() == 1 ==> r == Err::<ValueKind, UpperWindowInputError>(
                UpperWindowInputError::MissingWnd,
            ),
            kinds@.len() >= 2 ==> r == (if kinds@[0] != kinds@[1] {
                Err(UpperWindowInputError::Mismatch)
            } else if kinds@[0] == ValueKind::Int || kinds@[0] == ValueKind::Float {
                Ok(kinds@[0])
            } else {
                Err(UpperWindowInputError::NotNumeric)
            }),
    {
        if kinds.len() == 0 {
            return Err(UpperWindowInputError::MissingUna);
        }
        if kinds.len() == 1 {
            return Err(UpperWindowInputError::MissingWnd);
        }
        let a = kinds[0];
        let b = kinds[1];
        if a != b {
            Err(UpperWindowInputError::Mismatch)
        } else {
            match a {
                ValueKind::Int | ValueKind::Float => Ok(a),
                _ => Err(UpperWindowInputError::NotNumeric),
            }
        }
    }

    /// The integer case: SND_UNA + SND_WND at every position of the shorter
    /// series, with the least and the greatest sum (i64::MAX and i64::MIN when
    /// there is none).
    pub fn sum_int_series(una: &[i64], wnd: &[i64]) -> (r: (Vec<i64>, i64, i64))
        requires
            forall|i: int|
                0 <= i < sums(una@, wnd@).len() ==> i64::MIN <= #[trigger] sums(una@, wnd@)[i]
                    <= i64::MAX,
        ensures
            r.0@.len() == sums(una@, wnd@).len(),
            forall|i: int| 0 <= i < r.0@.len() ==> r.0@[i] == #[trigger] sums(una@, wnd@)[i],
            r.1 == seq_min(sums(una@, wnd@), i64::MAX as int),
            r.2 == seq_max(sums(una@, wnd@), i64::MIN as int),
    {
        let n = if una.len() <= wnd.len() {
            una.len()
        } else {
            wnd.len()
        };
        let ghost all = sums(una@, wnd@);
        let mut out: Vec<i64> = Vec::new();
        let mut min: i64 = i64::MAX;
        let mut max: i64 = i64::MIN;
        let mut i: usize = 0;
        while i < n
            invariant
                n == all.len(),
                all == sums(una@, wnd@),
                n <= una@.len(),
                n <= wnd@.len(),
                i <= n,
                forall|k: int| 0 <= k < all.len() ==> i64::MIN <= #[trigger] all[k] <= i64::MAX,
                out@.len() == i,
                forall|k: int| 0 <= k < i ==> out@[k] == #[trigger] all[k],
                min == seq_min(all.subrange(0, i as int), i64::MAX as int),
                max == seq_max(all.subrange(0, i as int), i64::MIN as int),
            decreases n - i,
        {
            assert(all[i as int] == una@[i as int] + wnd@[i as int]);
            let s = una[i] + wnd[i];
            proof {
                assert(all.subrange(0, i + 1).drop_last() == all.subrange(0, i as int));
            }
            if s < min {
                min = s;
            }
            if s > max {
                max = s;
            }
            out.push(s);
            i = i + 1;
        }
        proof {
            assert(all.subrange(0, n as int) == all);
        }
        (out, min, max)
    }
}

impl Default for UpperWindow {
    fn default() -> (r: UpperWindow)
        ensures
            views(r.required_timeseries_as_string@) == seq!["SND_UNA"@, "SND_WND"@],
    {
        UpperWindow::new()
    }
}

} // verus!
