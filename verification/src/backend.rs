//! Choice of the database backend and the lookups made against a flow's series.
use vstd::prelude::*;
use crate::paths::{path_extension, spec_path_extension};
use crate::names::{debug_list, ids_named, name_in, spec_debug_list};
use crate::text::{chars_of, string_from_chars};

verus! {

/// The database kinds the plotting backend can be pointed at.
#[derive(Clone, Copy, Debug, PartialEq, Eq, Structural)]
pub enum DataSource {
    Influx,
    Sqllite,
    Unselected,
}

/// The name under which each source is listed.
pub open spec fn spec_source_name(s: DataSource) -> Seq<char> {
    match s {
        DataSource::Influx => "Influx"@,
        DataSource::Sqllite => "Sqllite"@,
        DataSource::Unselected => "Nothing selected"@,
    }
}

/// The source a database file is opened with, by its extension.
pub open spec fn spec_source_for_extension(ext: Seq<char>) -> Option<DataSource> {
    if ext == "sqlite"@ {
        Some(DataSource::Sqllite)
    } else if ext == "influx"@ {
        Some(DataSource::Influx)
    } else {
        None
    }
}

fn is_literal(a: &str, lit: &str) -> (r: bool)
    ensures
        r == (a@ == lit@),
{
    let x = chars_of(a);
    let y = chars_of(lit);
    if x.len() != y.len() {
        return false;
    }
    let mut i: usize = 0;
    while i < x.len()
        invariant
            x@ == a@,
            y@ == lit@,
            x@.len() == y@.len(),
            i <= x@.len(),
            forall|k: int| 0 <= k < i ==> x@[k] == y@[k],
        decreases x@.len() - i,
    {
        if x[i] != y[i] {
            return false;
        }
        i = i + 1;
    }
    assert(x@ =~= y@);
    true
}

impl DataSource {
    /// All sources in the order they are listed.
    pub fn iterator() -> (r: Vec<DataSource>)
        ensures
            r@ == seq![DataSource::Influx, DataSource::Sqllite, DataSource::Unselected],
    {
        let mut r: Vec<DataSource> = Vec::new();
        r.push(DataSource::Influx);
        r.push(DataSource::Sqllite);
        r.push(DataSource::Unselected);
        r
    }

    /// The name under which the source is listed.
    pub fn to_string(&self) -> (r: String)
        ensures
            r@ == spec_source_name(*self),
    {
        match self {
            DataSource::Influx => String::from_str("Influx"),
            DataSource::Sqllite => String::from_str("Sqllite"),
            DataSource::Unselected => String::from_str("Nothing selected"),
        }
    }
}

/// The source for a file extension: "sqlite" or "influx".
pub fn source_for_extension(ext: &str) -> (r: Option<DataSource>)
    ensures
        r == spec_source_for_extension(ext@),
{
    if is_literal(ext, "sqlite") {
        Some(DataSource::Sqllite)
    } else if is_literal(ext, "influx") {
        Some(DataSource::Influx)
    } else {
        None
    }
}

/// The source of a database file chosen by the user, by the file's extension.
/// The path must have an extension.
pub fn receive_source_from_path(path: &str) -> (r: Option<DataSource>)
    requires
        spec_path_extension(path@) is Some,
    ensures
        r == spec_source_for_extension(spec_path_extension(path@).unwrap()),
{
    match path_extension(path) {
        Some(ext) => source_for_extension(ext.as_str()),
        None => None,
    }
}

/// Like `receive_source_from_path`, for any path: `None` when the path has no
/// extension, else the source its extension selects.
pub fn try_receive_source_from_path(path: &str) -> (r: Option<Option<DataSource>>)
    ensures
        match spec_path_extension(path@) {
            Some(ext) => r == Some(spec_source_for_extension(ext)),
            None => r is None,
        },
{
    match path_extension(path) {
        Some(_) => Some(receive_source_from_path(path)),
        None => None,
    }
}

/// The ids of the series whose name is one of `names`, in the order of
/// `available`.
fn ids_with_names(available: &[(String, i64)], names: &[String]) -> (r: Vec<i64>)
    ensures
        r@ == ids_named::<()>(available@, names@.map_values(|s: String| s@), available@.len() as int),
{
    let ghost v = names@.map_values(|s: String| s@);
    let mut out: Vec<i64> = Vec::new();
    let mut i: usize = 0;
    while i < available.len()
        invariant
            i <= available@.len(),
            v == names@.map_values(|s: String| s@),
            out@ == ids_named::<()>(available@, v, i as int),
        decreases available@.len() - i,
    {
        if name_in(available[i].0.as_str(), names) {
            out.push(available[i].1);
        }
        i = i + 1;
    }
    out
}

/// What the plotting backend keeps of its connection: the kind of database and
/// the file it was opened from.
pub struct IntermediateBackend {
    pub source_type: DataSource,
    pub database_path: Option<String>,
}

/// The message reported when a flow lacks some of the requested series.
pub open spec fn spec_count_mismatch_message(ids: Seq<i64>) -> Seq<char> {
    "amount of received ids does not match requested amount, maybe database does not contain the time series?, values were "@
        + spec_debug_list(ids)
}

impl IntermediateBackend {
    /// The ids of the series (given as name and id) whose name is one of
    /// `names`, in the order of `available`, when there is exactly one per
    /// requested name; `None` when the number of ids found differs from the
    /// number of names.
    pub fn filter_timeseries_on_name(available: &[(String, i64)], names: &[String]) -> (r: Option<
        Vec<i64>,
    >)
        ensures
            ({
                let ids = ids_named::<()>(
                    available@,
                    names@.map_values(|s: String| s@),
                    available@.len() as int,
                );
                &&& ids.len() == names@.len() ==> (r matches Some(v) && v@ == ids)
                &&& ids.len() != names@.len() ==> r is None
            }),
    {
        let ids = ids_with_names(available, names);
        if ids.len() == names.len() {
            Some(ids)
        } else {
            None
        }
    }

    /// A backend for `source` that is not connected to any file.
    pub fn unconnected(source: DataSource) -> (r: IntermediateBackend)
        ensures
            r.source_type == source,
            r.database_path is None,
    {
        IntermediateBackend { source_type: source, database_path: None }
    }

    /// Resolves series names to ids for the selected flow. `flow_series` lists
    /// the (name, id) of every series of the flow, or is `None` when the flow
    /// was not found. Succeeds when every requested name was found, with the
    /// ids in the order of the flow's series.
    pub fn receive_series_id_from_string_and_flow_id(
        &self,
        flow_series: Option<&[(String, i64)]>,
        collection_of_strings: &[String],
    ) -> (r: Result<Option<Vec<i64>>, String>)
        ensures
            match flow_series {
                None => r matches Err(m) && m@ == "No Flow found, aborting"@,
                Some(av) => {
                    let ids = ids_named::<()>(
                        av@,
                        collection_of_strings@.map_values(|s: String| s@),
                        av@.len() as int,
                    );
                    if ids.len() == collection_of_strings@.len() {
                        r matches Ok(Some(v)) && v@ == ids
                    } else {
                        r matches Err(m) && m@ == spec_count_mismatch_message(ids)
                    }
                },
            },
    {
        match flow_series {
            None => Err(String::from_str("No Flow found, aborting")),
            Some(av) => {
                match IntermediateBackend::filter_timeseries_on_name(av, collection_of_strings) {
                    Some(ids) => Ok(Some(ids)),
                    None => {
                        let ids = ids_with_names(av, collection_of_strings);
                        let mut m = String::from_str(
                            "amount of received ids does not match requested amount, maybe database does not contain the time series?, values were ",
                        );
                        let list = debug_list(ids.as_slice());
                        let list = string_from_chars(list.as_slice());
                        m.append(list.as_str());
                        Err(m)
                    },
                }
            },
        }
    }
}

} // verus!
