use vstd::prelude::*;

use crate::text::{ends_with, lower_of, lowercase, trim_class, trimmed, CharClass};

verus! {

/// The unit a race distance is given in.
#[derive(Clone, Copy, Debug, PartialEq, Eq, Structural)]
pub enum DistanceUnit {
    Miles,
    Kilometers,
}

impl Default for DistanceUnit {
    fn default() -> (r: DistanceUnit)
        ensures
            r == DistanceUnit::Miles,
    {
        DistanceUnit::Miles
    }
}

pub open spec fn unit_name(u: DistanceUnit) -> Seq<char> {
    match u {
        DistanceUnit::Miles => "miles"@,
        DistanceUnit::Kilometers => "kilometers"@,
    }
}

impl DistanceUnit {
    /// The unit's name in lower case, as forms and pages show it.
    pub fn to_string(&self) -> (r: String)
        ensures
            r@ == unit_name(*self),
    {
        match self {
            DistanceUnit::Miles => String::from_str("miles"),
            DistanceUnit::Kilometers => String::from_str("kilometers"),
        }
    }
}

/// A distance as written, split into its number (not yet read) and its unit.
pub struct DistanceText {
    pub number: String,
    pub unit: DistanceUnit,
}

/// The number and unit of lower-case distance text: a trailing `k` means
/// kilometres, a trailing `m` miles; anything else names no unit.
pub open spec fn unit_split(lowered: Seq<char>) -> Option<(Seq<char>, DistanceUnit)> {
    if ends_with(lowered, "k"@) {
        Some((lowered.subrange(0, lowered.len() - "k"@.len()), DistanceUnit::Kilometers))
    } else if ends_with(lowered, "m"@) {
        Some((lowered.subrange(0, lowered.len() - "m"@.len()), DistanceUnit::Miles))
    } else {
        None
    }
}

/// The text of a distance cell with white space, then double quotes, trimmed
/// from both ends, and lower-cased.
pub open spec fn distance_key(s: Seq<char>) -> Seq<char> {
    lower_of(trimmed(trimmed(s, CharClass::WhiteSpace), CharClass::Only('"')))
}

/// Splits lower-case distance text such as `5k` or `26.2m` into number and unit.
pub fn split_unit(lowered: &str) -> (r: Option<DistanceText>)
    ensures
        r is Some <==> unit_split(lowered@) is Some,
        r matches Some(d) ==> unit_split(lowered@) == Some((d.number@, d.unit)),
{
    match crate::text::strip_suffix(lowered, "k") {
        Some(n) => Some(DistanceText { number: n.to_owned(), unit: DistanceUnit::Kilometers }),
        None => match crate::text::strip_suffix(lowered, "m") {
            Some(n) => Some(DistanceText { number: n.to_owned(), unit: DistanceUnit::Miles }),
            None => None,
        },
    }
}

/// Splits a distance as a spreadsheet or a form writes it (`"5K"`, ` 10m `)
/// into number and unit; `None` when it names no unit.
pub fn parse_distance(s: &str) -> (r: Option<DistanceText>)
    ensures
        r is Some <==> unit_split(distance_key(s@)) is Some,
        r matches Some(d) ==> unit_split(distance_key(s@)) == Some((d.number@, d.unit)),
{
    let t = trim_class(trim_class(s, CharClass::WhiteSpace), CharClass::Only('"'));
    let lowered = lowercase(t);
    split_unit(lowered.as_str())
}

} // verus!
