//! The database files the visualiser opens, and how flows are named in it.
use vstd::prelude::*;
use crate::paths::{path_extension, spec_path_extension};
use crate::flow_filter::FlowRow;
use crate::text::{chars_of, string_from_chars, i64_to_decimal, u64_to_decimal, spec_decimal};

verus! {

/// The storage engines a recording database can use.
#[derive(Clone, Copy, Debug, PartialEq, Eq, Structural)]
pub enum DataSource {
    Sqllite,
    DuckDB,
}

/// How each engine is named to the user.
pub open spec fn spec_engine_name(s: DataSource) -> Seq<char> {
    match s {
        DataSource::Sqllite => "SQLite"@,
        DataSource::DuckDB => "DuckDB"@,
    }
}

/// The engine a database file is opened with, chosen by its extension
/// ("sqlite" or "duck"); other extensions are refused.
pub open spec fn spec_engine_for_extension(ext: Seq<char>) -> Result<DataSource, Seq<char>> {
    if ext == "sqlite"@ {
        Ok(DataSource::Sqllite)
    } else if ext == "duck"@ {
        Ok(DataSource::DuckDB)
    } else {
        Err("Unknown extension: "@ + ext)
    }
}

fn is_literal(a: &str, lit: &str) -> (r: bool)
    ensures
        r == (a@ == lit@),
{
    let x = chars_of(a);
    let y = chars_of(lit);
    if x.len() != y.len() {
        return false;
    }
    let mut i: usize = 0;
    while i < x.len()
        invariant
            x@ == a@,
            y@ == lit@,
            x@.len() == y@.len(),
            i <= x@.len(),
            forall|k: int| 0 <= k < i ==> x@[k] == y@[k],
        decreases x@.len() - i,
    {
        if x[i] != y[i] {
            return false;
        }
        i = i + 1;
    }
    assert(x@ =~= y@);
    true
}

impl DataSource {
    /// How the engine is named to the user.
    pub fn to_string(&self) -> (r: String)
        ensures
            r@ == spec_engine_name(*self),
    {
        match self {
            DataSource::Sqllite => String::from_str("SQLite"),
            DataSource::DuckDB => String::from_str("DuckDB"),
        }
    }
}

/// The engine for a file extension.
pub fn engine_for_extension(ext: &str) -> (r: Result<DataSource, String>)
    ensures
        match (r, spec_engine_for_extension(ext@)) {
            (Ok(a), Ok(b)) => a == b,
            (Err(m), Err(e)) => m@ == e,
            _ => false,
        },
{
    if is_literal(ext, "sqlite") {
        Ok(DataSource::Sqllite)
    } else if is_literal(ext, "duck") {
        Ok(DataSource::DuckDB)
    } else {
        let mut m = String::from_str("Unknown extension: ");
        m.append(ext);
        Err(m)
    }
}

/// The engine for a database path, by its extension; a path without an
/// extension counts as having the empty one.
pub fn engine_for_path(path: &str) -> (r: Result<DataSource, String>)
    ensures
        match (r, spec_engine_for_extension(
            match spec_path_extension(path@) {
                Some(e) => e,
                None => Seq::empty(),
            },
        )) {
            (Ok(a), Ok(b)) => a == b,
            (Err(m), Err(e)) => m@ == e,
            _ => false,
        },
{
    match path_extension(path) {
        Some(ext) => engine_for_extension(ext.as_str()),
        None => {
            let empty = String::new();
            engine_for_extension(empty.as_str())
        },
    }
}

/// How a flow is named in lists: "ID:<id> <src>:<sport> → <dst>:<dport>".
pub open spec fn spec_format_flow(f: FlowRow) -> Seq<char> {
    "ID:"@ + spec_decimal(f.id as int) + " "@ + f.src@ + ":"@ + spec_decimal(f.sport as int)
        + " → "@ + f.dst@ + ":"@ + spec_decimal(f.dport as int)
}

/// Names a flow for lists and titles.
pub fn format_flow(flow: &FlowRow) -> (r: String)
    ensures
        r@ == spec_format_flow(*flow),
{
    let mut s = String::from_str("ID:");
    let id = string_from_chars(i64_to_decimal(flow.id).as_slice());
    s.append(id.as_str());
    s.append(" ");
    s.append(flow.src.as_str());
    s.append(":");
    let sport = string_from_chars(u64_to_decimal(flow.sport as u64).as_slice());
    s.append(sport.as_str());
    s.append(" → ");
    s.append(flow.dst.as_str());
    s.append(":");
    let dport = string_from_chars(u64_to_decimal(flow.dport as u64).as_slice());
    s.append(dport.as_str());
    s
}

} // verus!
