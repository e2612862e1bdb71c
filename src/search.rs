use vstd::prelude::*;

use crate::number::{int_text, int_to_string};
use crate::pagination::{is_plan_for, plan_filter, Fragment, Pagination, QueryPlan};
use crate::text::{lower_of, lowercase};

verus! {

/// The view of races that searches read.
pub const RACES_VIEW: &'static str = "races_view";

/// The view of users that searches read.
pub const USERS_VIEW: &'static str = "users_view";

/// Races that have not started yet, soonest first.
pub const UPCOMING_RACES_FILTER: &'static str = "start_at >= DateTime('now') ORDER BY start_at ASC";

/// Races of one town, whose lower-cased name is like the first bind value, that
/// took place in the last six months, latest first.
pub const RECENT_TOWN_RACES_FILTER: &'static str =
    "LOWER(name) LIKE ? AND town_id = ? AND start_at >= DateTime('now', '-6 months') AND start_at <= DateTime('now') ORDER BY start_at DESC";

/// Registered runners whose lower-cased full name or email is like the bind
/// values, by full name.
pub const RUNNER_SEARCH_FILTER: &'static str =
    "(LOWER(full_name) LIKE ? OR LOWER(email) LIKE ?) AND runner_id IS NOT NULL ORDER BY full_name ASC";

/// The query string of the upcoming races page.
pub struct RaceSearchParams {
    pub race_name: Option<String>,
    pub town_id: Option<i64>,
    pub page: Option<i64>,
    pub page_size: Option<i64>,
}

/// The query string of the race lookup on the town submission form.
pub struct SubmitTownSearchParams {
    pub race_name: String,
    pub town_id: i64,
}

impl From<RaceSearchParams> for Pagination {
    fn from(params: RaceSearchParams) -> (r: Pagination)
        ensures
            r.page == params.page,
            r.page_size == params.page_size,
    {
        Pagination { page: params.page, page_size: params.page_size }
    }
}

impl vstd::std_specs::convert::FromSpecImpl<RaceSearchParams> for Pagination {
    open spec fn obeys_from_spec() -> bool {
        true
    }

    open spec fn from_spec(params: RaceSearchParams) -> Pagination {
        Pagination { page: params.page, page_size: params.page_size }
    }
}

/// A `LIKE` pattern that matches any text holding `s`.
pub open spec fn contains_pattern_of(s: Seq<char>) -> Seq<char> {
    "%"@ + s + "%"@
}

/// The `LIKE` pattern that matches any text holding `lowered`.
pub fn contains_pattern(lowered: &str) -> (r: String)
    ensures
        r@ == contains_pattern_of(lowered@),
{
    let mut p = String::from_str("%");
    p.append(lowered);
    p.append("%");
    p
}

/// Plans a page of the races that have not started yet.
pub fn upcoming_races_plan(params: RaceSearchParams) -> (r: QueryPlan)
    ensures
        is_plan_for(
            r,
            RACES_VIEW@,
            Pagination { page: params.page, page_size: params.page_size },
            Some(Fragment { text: UPCOMING_RACES_FILTER }),
            Seq::empty(),
        ),
{
    let pagination = Pagination::from(params);
    let binds: Vec<String> = Vec::new();
    plan_filter(RACES_VIEW, &pagination, Some(Fragment { text: UPCOMING_RACES_FILTER }), binds)
}

/// Plans the first page of the recent races of a town whose names hold the
/// given text, in any case.
pub fn submit_town_search_plan(params: &SubmitTownSearchParams) -> (r: QueryPlan)
    ensures
        r.binds@.len() == 2,
        r.binds@[0]@ == contains_pattern_of(lower_of(params.race_name@)),
        r.binds@[1]@ == int_text(params.town_id as int),
        is_plan_for(
            r,
            RACES_VIEW@,
            Pagination { page: None, page_size: None },
            Some(Fragment { text: RECENT_TOWN_RACES_FILTER }),
            r.binds@,
        ),
{
    let lowered = lowercase(params.race_name.as_str());
    let pattern = contains_pattern(lowered.as_str());
    let town = int_to_string(params.town_id);
    let mut binds: Vec<String> = Vec::new();
    binds.push(pattern);
    binds.push(town);
    let pagination = Pagination { page: None, page_size: None };
    plan_filter(RACES_VIEW, &pagination, Some(Fragment { text: RECENT_TOWN_RACES_FILTER }), binds)
}

/// Plans a page of the registered runners whose name or email holds `search`,
/// in any case.
pub fn runner_search_plan(pagination: &Pagination, search: &str) -> (r: QueryPlan)
    ensures
        r.binds@.len() == 2,
        r.binds@[0]@ == contains_pattern_of(lower_of(search@)),
        r.binds@[1]@ == contains_pattern_of(lower_of(search@)),
        is_plan_for(
            r,
            USERS_VIEW@,
            *pagination,
            Some(Fragment { text: RUNNER_SEARCH_FILTER }),
            r.binds@,
        ),
{
    let lowered = lowercase(search);
    let pattern = contains_pattern(lowered.as_str());
    let again = contains_pattern(lowered.as_str());
    let mut binds: Vec<String> = Vec::new();
    binds.push(pattern);
    binds.push(again);
    plan_filter(USERS_VIEW, pagination, Some(Fragment { text: RUNNER_SEARCH_FILTER }), binds)
}

} // verus!
