//! The choices of the commands that look up clubs and regions and their
//! leadership.
use vstd::prelude::*;
use crate::date::Date;
use crate::db::leadership::DateFilter;

verus! {

/// How a club or region is looked up.
#[derive(Clone, Copy, Debug, PartialEq, Eq, Structural)]
pub enum Lookup {
    /// By its number.
    Number(i32),
    /// By its node id.
    Uid(u64),
    /// All of them.
    All,
}

/// The lookup an optional id asks for: by number when the flag is set (the
/// id truncated to 32 bits), else by node id; all when no id is given.
pub fn lookup(id: Option<u64>, number: bool) -> (r: Lookup)
    ensures
        r == (match id {
            Some(i) => if number {
                Lookup::Number(i as i32)
            } else {
                Lookup::Uid(i)
            },
            None => Lookup::All,
        }),
{
    match id {
        Some(i) => if number {
            #[verifier::truncate]
            let n = i as i32;
            Lookup::Number(n)
        } else {
            Lookup::Uid(i)
        },
        None => Lookup::All,
    }
}

/// The leadership filter of an optional date: terms active on that date,
/// or current terms when none is given.
pub fn date_filter(as_of: Option<Date>) -> (r: DateFilter)
    ensures
        r == (match as_of {
            Some(d) => DateFilter::AsOf(d),
            None => DateFilter::Current,
        }),
{
    match as_of {
        Some(d) => DateFilter::AsOf(d),
        None => DateFilter::Current,
    }
}

} // verus!
