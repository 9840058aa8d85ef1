//! Taking in a record as it was read, and reading the live flags of its
//! creators.

use crate::creator::{texts, SizeError, YTCreator};
use crate::text::{flag_value, parse_bool, trim, trimmed};
use vstd::prelude::*;

verus! {

/// Admits a record as it was read from the creators file: the record itself
/// where it has a size, else the reason why it has none.
pub fn get_json_data(loaded: YTCreator) -> (r: Result<YTCreator, SizeError>)
    ensures
        r is Ok <==> loaded.sized(),
        r matches Ok(obj) ==> obj == loaded,
        r matches Err(e) ==> Err::<usize, SizeError>(e) == loaded.size_or_error(),
{
    match loaded.check_size() {
        Ok(_) => Ok(loaded),
        Err(e) => Err(e),
    }
}

/// The flag that a live status spells once the white space at its ends is
/// taken off.
pub open spec fn live_flag(status: Seq<char>) -> Option<bool> {
    flag_value(trimmed(status))
}

/// Whether every status of a column spells a flag.
pub open spec fn all_flags(column: Seq<Seq<char>>) -> bool {
    forall|i: int| 0 <= i < column.len() ==> live_flag(#[trigger] column[i]) is Some
}

/// The flags of a column of statuses that all spell one.
pub open spec fn live_flags(column: Seq<Seq<char>>) -> Seq<bool> {
    Seq::new(column.len(), |i: int| live_flag(column[i]).unwrap())
}

/// The live flag of every creator, read from the column of statuses.
pub fn get_live_status(live_status: Option<&Vec<String>>) -> (out_status: Vec<bool>)
    requires
        live_status matches Some(column) && all_flags(texts(column@)),
    ensures
        out_status@ == live_flags(texts(live_status.unwrap()@)),
{
    let status_as_strings: &Vec<String> = live_status.unwrap();
    let n: usize = status_as_strings.len();
    let mut out_status: Vec<bool> = Vec::new();
    let mut i: usize = 0;
    while i < n
        invariant
            i <= n,
            n == status_as_strings@.len(),
            all_flags(texts(status_as_strings@)),
            out_status@.len() == i,
            forall|j: int|
                0 <= j < i ==> Some(out_status@[j]) == live_flag(
                    #[trigger] texts(status_as_strings@)[j],
                ),
        decreases n - i,
    {
        let status: &str = status_as_strings[i].as_str();
        assert(texts(status_as_strings@)[i as int] == status@);
        let bool_output: bool = parse_bool(trim(status)).unwrap();
        out_status.push(bool_output);
        i += 1;
    }
    out_status
}

/// The live flag of every creator, or `None` where there is no column of
/// statuses or one of them spells no flag.
pub fn read_live_status(live_status: Option<&Vec<String>>) -> (r: Option<Vec<bool>>)
    ensures
        r is Some <==> (live_status matches Some(column) && all_flags(texts(column@))),
        r matches Some(out_status) ==> out_status@ == live_flags(texts(live_status.unwrap()@)),
{
    let column: &Vec<String> = match live_status {
        Some(column) => column,
        None => {
            return None;
        },
    };
    let n: usize = column.len();
    let mut i: usize = 0;
    while i < n
        invariant
            i <= n,
            n == column@.len(),
            live_status == Some(column),
            forall|j: int| 0 <= j < i ==> live_flag(#[trigger] texts(column@)[j]) is Some,
        decreases n - i,
    {
        let status: &str = column[i].as_str();
        if parse_bool(trim(status)).is_none() {
            assert(live_flag(texts(column@)[i as int]) is None);
            return None;
        }
        i += 1;
    }
    Some(get_live_status(live_status))
}

} // verus!
