use vstd::prelude::*;

verus! {

/// A town of the challenge, as stored in the towns view.
pub struct Town {
    pub id: i64,
    pub name: String,
    pub county_id: i64,
    pub county: String,
}

/// The lowest valid town identifier.
pub const FIRST_TOWN_ID: i64 = 1;

/// One past the highest valid town identifier.
pub const TOWN_ID_END: i64 = 169;

/// A town identifier is valid when it lies in `FIRST_TOWN_ID..TOWN_ID_END`.
pub open spec fn valid_town_id(town_id: i64) -> bool {
    FIRST_TOWN_ID <= town_id < TOWN_ID_END
}

impl Town {
    /// Whether `town_id` names one of the towns.
    pub fn is_valid(town_id: i64) -> (r: bool)
        ensures
            r == valid_town_id(town_id),
    {
        FIRST_TOWN_ID <= town_id && town_id < TOWN_ID_END
    }

    /// Whether `town_id` names none of the towns.
    pub fn is_not_valid(town_id: i64) -> (r: bool)
        ensures
            r == !valid_town_id(town_id),
    {
        !Self::is_valid(town_id)
    }
}

} // verus!
