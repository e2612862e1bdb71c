use vstd::prelude::*;

use crate::calendar::{date_exists, precedes, time_exists, valid_date, valid_time, LocalDateTime};
use crate::distance::{distance_key, parse_distance, unit_split, DistanceText, DistanceUnit};
use crate::number::{decimal_i32, parse_i32};
use crate::text::{
    ends_with, is_blank, is_blank_str, split_char, split_on, starts_with, strip_prefix,
    strip_suffix, trim_class, trimmed, CharClass,
};

verus! {

/// Year, month, day, hour, minute and second as a spreadsheet cell spells them.
pub type DateParts = (i32, u32, u32, u32, u32, u32);

/// What stands between `Date(` and `)` in a cell, once white space and then
/// double quotes are trimmed from both ends.
pub open spec fn date_body(input: Seq<char>) -> Option<Seq<char>> {
    let s = trimmed(trimmed(input, CharClass::WhiteSpace), CharClass::Only('"'));
    if starts_with(s, "Date("@) {
        let v = s.subrange("Date("@.len() as int, s.len() as int);
        if ends_with(v, ")"@) {
            Some(v.subrange(0, v.len() - ")"@.len()))
        } else {
            None
        }
    } else {
        None
    }
}

/// The number that a comma-separated field of a cell holds, white space aside.
pub open spec fn field_number(piece: Seq<char>) -> Option<i32> {
    decimal_i32(trimmed(piece, CharClass::WhiteSpace))
}

pub open spec fn fields_are_numbers(pieces: Seq<Seq<char>>) -> bool {
    forall|i: int| 0 <= i < pieces.len() ==> (#[trigger] field_number(pieces[i])) is Some
}

/// `n` as `u32`: negative values wrap around, as an `as` cast does.
pub open spec fn wrapped(n: i32) -> u32 {
    if n >= 0 {
        n as u32
    } else {
        (n + 0x1_0000_0000) as u32
    }
}

/// The parts of a cell such as `Date(2025,5,17)` or `Date(2025,5,17,8,30,0)`:
/// three numbers give a date at midnight, six a date and time. Negative numbers
/// after the year wrap around as an `as u32` cast makes them. Otherwise the error message.
pub open spec fn date_parts_of(input: Seq<char>) -> Result<DateParts, Seq<char>> {
    match date_body(input) {
        None => Err("Invalid date format: "@ + input),
        Some(body) => {
            let pieces = split_on(body, ',');
            let v = |i: int| field_number(pieces[i])->0;
            if !fields_are_numbers(pieces) {
                Err("Invalid number in: "@ + input)
            } else if pieces.len() == 3 {
                Ok((v(0), wrapped(v(1)), wrapped(v(2)), 0u32, 0u32, 0u32))
            } else if pieces.len() == 6 {
                Ok((v(0), wrapped(v(1)), wrapped(v(2)), wrapped(v(3)), wrapped(v(4)), wrapped(v(5))))
            } else {
                Err("Unexpected date format: "@ + input)
            }
        },
    }
}

/// The date of the first cell at the time of day of the second, or the message
/// of what is wrong with them.
pub open spec fn date_cells_of(date: Seq<char>, time: Seq<char>) -> Result<
    LocalDateTime,
    Seq<char>,
> {
    match date_parts_of(date) {
        Err(m) => Err(m),
        Ok(d) => match date_parts_of(time) {
            Err(m) => Err(m),
            Ok(t) => if !valid_date(d.0, d.1, d.2) {
                Err("Invalid date"@)
            } else if !valid_time(t.3, t.4, t.5) {
                Err("Invalid time"@)
            } else {
                Ok(
                    LocalDateTime {
                        year: d.0,
                        month: d.1,
                        day: d.2,
                        hour: t.3,
                        minute: t.4,
                        second: t.5,
                    },
                )
            },
        },
    }
}

fn message(prefix: &str, subject: &str) -> (r: String)
    ensures
        r@ == prefix@ + subject@,
{
    let mut m = String::from_str(prefix);
    m.append(subject);
    m
}

fn wrap(n: i32) -> (r: u32)
    ensures
        r == wrapped(n),
{
    if n >= 0 {
        n as u32
    } else {
        (n as i64 + 0x1_0000_0000) as u32
    }
}

/// Reads the parts of a cell such as `Date(2025,5,17)`.
pub fn parse_date(input: &str) -> (r: Result<DateParts, String>)
    ensures
        r matches Ok(t) ==> date_parts_of(input@) == Ok::<DateParts, Seq<char>>(t),
        r matches Err(m) ==> date_parts_of(input@) == Err::<DateParts, Seq<char>>(m@),
{
    let s = trim_class(trim_class(input, CharClass::WhiteSpace), CharClass::Only('"'));
    let body = match strip_prefix(s, "Date(") {
        Some(v) => match strip_suffix(v, ")") {
            Some(b) => b,
            None => return Err(message("Invalid date format: ", input)),
        },
        None => return Err(message("Invalid date format: ", input)),
    };
    let pieces = split_char(body, ',');
    let ghost spec_pieces = split_on(body@, ',');
    let mut nums: Vec<i32> = Vec::new();
    let mut i: usize = 0;
    while i < pieces.len()
        invariant
            date_body(input@) == Some(body@),
            spec_pieces == split_on(body@, ','),
            pieces@.len() == spec_pieces.len(),
            forall|j: int| 0 <= j < pieces@.len() ==> #[trigger] pieces@[j]@ == spec_pieces[j],
            i <= pieces@.len(),
            nums@.len() == i,
            forall|j: int|
                0 <= j < i ==> (#[trigger] field_number(spec_pieces[j])) == Some(nums@[j]),
        decreases pieces@.len() - i,
    {
        match parse_i32(trim_class(pieces[i].as_str(), CharClass::WhiteSpace)) {
            Some(v) => nums.push(v),
            None => {
                assert(field_number(spec_pieces[i as int]) is None);
                return Err(message("Invalid number in: ", input));
            },
        }
        i += 1;
    }
    assert(fields_are_numbers(spec_pieces));
    if nums.len() == 3 {
        Ok((nums[0], wrap(nums[1]), wrap(nums[2]), 0, 0, 0))
    } else if nums.len() == 6 {
        Ok((nums[0], wrap(nums[1]), wrap(nums[2]), wrap(nums[3]), wrap(nums[4]), wrap(nums[5])))
    } else {
        Err(message("Unexpected date format: ", input))
    }
}

/// Reads the start of a race from its date cell and its time cell.
pub fn parse_date_cells(date: String, time: String) -> (r: Result<LocalDateTime, String>)
    ensures
        r matches Ok(t) ==> date_cells_of(date@, time@) == Ok::<LocalDateTime, Seq<char>>(t),
        r matches Err(m) ==> date_cells_of(date@, time@) == Err::<LocalDateTime, Seq<char>>(m@),
{
    let (y, mo, d, _, _, _) = match parse_date(date.as_str()) {
        Ok(parts) => parts,
        Err(m) => return Err(m),
    };
    let (_, _, _, h, mi, s) = match parse_date(time.as_str()) {
        Ok(parts) => parts,
        Err(m) => return Err(m),
    };
    if !date_exists(y, mo, d) {
        return Err(String::from_str("Invalid date"));
    }
    if !time_exists(h, mi, s) {
        return Err(String::from_str("Invalid time"));
    }
    Ok(LocalDateTime { year: y, month: mo, day: d, hour: h, minute: mi, second: s })
}

/// A cell of the sheet: the JSON text of its value, when it has one.
pub struct GvizCell {
    pub v: Option<String>,
}

/// A row of the sheet; its cells are absent when the row is empty.
pub struct GvizRow {
    pub c: Option<Vec<Option<GvizCell>>>,
}

pub struct GvizTable {
    pub rows: Vec<GvizRow>,
}

/// The answer of the sheet's query endpoint.
pub struct GvizResponse {
    pub table: GvizTable,
}

/// The sheet of upcoming races that the society publishes.
pub struct GoogleSheet {
    pub table: GvizTable,
}

/// A race listed in the sheet, one for each distance it offers.
pub struct UpcomingRaceEntry {
    pub name: String,
    pub town_name: String,
    pub distance: DistanceText,
    pub start_at: LocalDateTime,
    pub race_url: String,
}

pub struct EntryView {
    pub name: Seq<char>,
    pub town_name: Seq<char>,
    pub number: Seq<char>,
    pub unit: DistanceUnit,
    pub start_at: LocalDateTime,
    pub race_url: Seq<char>,
}

impl View for UpcomingRaceEntry {
    type V = EntryView;

    open spec fn view(&self) -> EntryView {
        EntryView {
            name: self.name@,
            town_name: self.town_name@,
            number: self.distance.number@,
            unit: self.distance.unit,
            start_at: self.start_at,
            race_url: self.race_url@,
        }
    }
}

pub open spec fn entries_view(s: Seq<UpcomingRaceEntry>) -> Seq<EntryView> {
    s.map_values(|e: UpcomingRaceEntry| e@)
}

/// The column that holds the start date.
pub const DATE_COLUMN: usize = 0;

/// The column that holds the start time.
pub const TIME_COLUMN: usize = 1;

/// The column that holds the town's name.
pub const TOWN_COLUMN: usize = 2;

/// The column that holds the race's name.
pub const NAME_COLUMN: usize = 4;

/// The column that holds the distances offered, separated by commas.
pub const DISTANCE_COLUMN: usize = 6;

/// The column that holds the race's web address.
pub const URL_COLUMN: usize = 7;

/// The column that is blank for a confirmed race.
pub const UNCONFIRMED_COLUMN: usize = 8;

/// The number of columns a row needs to describe a race.
pub const COLUMNS: usize = 9;

/// The text of a cell: its value's JSON text without surrounding double quotes,
/// or empty.
pub open spec fn cell_text(c: Option<GvizCell>) -> Seq<char> {
    match c {
        Some(cell) => match cell.v {
            Some(t) => trimmed(t@, CharClass::Only('"')),
            None => Seq::empty(),
        },
        None => Seq::empty(),
    }
}

/// The texts of the cells of a row.
pub open spec fn row_columns(row: GvizRow) -> Seq<Seq<char>> {
    match row.c {
        Some(cells) => Seq::new(cells@.len(), |i: int| cell_text(cells@[i])),
        None => Seq::empty(),
    }
}

/// The entries for the comma-separated distances `pieces` of a race.
pub open spec fn piece_entries(
    pieces: Seq<Seq<char>>,
    cols: Seq<Seq<char>>,
    start: LocalDateTime,
) -> Seq<EntryView>
    decreases pieces.len(),
{
    if pieces.len() == 0 {
        Seq::empty()
    } else {
        let before = piece_entries(pieces.drop_last(), cols, start);
        match unit_split(distance_key(trimmed(pieces.last(), CharClass::WhiteSpace))) {
            Some(found) => before.push(
                EntryView {
                    name: cols[NAME_COLUMN as int],
                    town_name: cols[TOWN_COLUMN as int],
                    number: found.0,
                    unit: found.1,
                    start_at: start,
                    race_url: cols[URL_COLUMN as int],
                },
            ),
            None => before,
        }
    }
}

/// The entries of one row, seen at time `now`: none for a row that is too
/// short, whose start cannot be read, that has already started or that is not
/// confirmed; else one for each distance that names a unit.
pub open spec fn row_entries(cols: Seq<Seq<char>>, now: LocalDateTime) -> Seq<EntryView> {
    if cols.len() < COLUMNS {
        Seq::empty()
    } else {
        match date_cells_of(cols[DATE_COLUMN as int], cols[TIME_COLUMN as int]) {
            Err(_) => Seq::empty(),
            Ok(start) => if precedes(start, now) || !is_blank(cols[UNCONFIRMED_COLUMN as int]) {
                Seq::empty()
            } else {
                piece_entries(split_on(cols[DISTANCE_COLUMN as int], ','), cols, start)
            },
        }
    }
}

/// The entries of all rows, in order.
pub open spec fn sheet_entries(rows: Seq<GvizRow>, now: LocalDateTime) -> Seq<EntryView>
    decreases rows.len(),
{
    if rows.len() == 0 {
        Seq::empty()
    } else {
        sheet_entries(rows.drop_last(), now) + row_entries(row_columns(rows.last()), now)
    }
}

fn cell_string(c: &Option<GvizCell>) -> (r: String)
    ensures
        r@ == cell_text(*c),
{
    match c {
        Some(cell) => match &cell.v {
            Some(t) => trim_class(t.as_str(), CharClass::Only('"')).to_owned(),
            None => String::new(),
        },
        None => String::new(),
    }
}

fn columns(row: &GvizRow) -> (r: Vec<String>)
    ensures
        r@.len() == row_columns(*row).len(),
        forall|i: int| 0 <= i < r@.len() ==> #[trigger] r@[i]@ == row_columns(*row)[i],
{
    let mut out: Vec<String> = Vec::new();
    match &row.c {
        Some(cells) => {
            let mut i: usize = 0;
            while i < cells.len()
                invariant
                    row.c == Some(*cells),
                    i <= cells@.len(),
                    out@.len() == i,
                    forall|j: int| 0 <= j < i ==> #[trigger] out@[j]@ == cell_text(cells@[j]),
                decreases cells@.len() - i,
            {
                out.push(cell_string(&cells[i]));
                i += 1;
            }
        },
        None => {},
    }
    out
}

fn push_distances(
    cols: &Vec<String>,
    start: LocalDateTime,
    out: &mut Vec<UpcomingRaceEntry>,
)
    requires
        cols@.len() >= COLUMNS,
    ensures
        entries_view(final(out)@) == entries_view(old(out)@) + piece_entries(
            split_on(cols@[DISTANCE_COLUMN as int]@, ','),
            cols@.map_values(|c: String| c@),
            start,
        ),
{
    let ghost colv = cols@.map_values(|c: String| c@);
    let pieces = split_char(cols[DISTANCE_COLUMN].as_str(), ',');
    let ghost spec_pieces = split_on(cols@[DISTANCE_COLUMN as int]@, ',');
    let ghost start_out = entries_view(out@);
    let mut i: usize = 0;
    while i < pieces.len()
        invariant
            cols@.len() >= COLUMNS,
            colv == cols@.map_values(|c: String| c@),
            pieces@.len() == spec_pieces.len(),
            forall|j: int| 0 <= j < pieces@.len() ==> #[trigger] pieces@[j]@ == spec_pieces[j],
            i <= pieces@.len(),
            entries_view(out@) == start_out + piece_entries(
                spec_pieces.subrange(0, i as int),
                colv,
                start,
            ),
        decreases pieces@.len() - i,
    {
        let ghost upto = spec_pieces.subrange(0, i + 1);
        assert(upto.drop_last() =~= spec_pieces.subrange(0, i as int));
        let piece = trim_class(pieces[i].as_str(), CharClass::WhiteSpace);
        match parse_distance(piece) {
            Some(distance) => {
                let entry = UpcomingRaceEntry {
                    name: cols[NAME_COLUMN].clone(),
                    town_name: cols[TOWN_COLUMN].clone(),
                    distance,
                    start_at: start,
                    race_url: cols[URL_COLUMN].clone(),
                };
                let ghost before = out@;
                out.push(entry);
                assert(entries_view(out@) =~= entries_view(before).push(entry@));
            },
            None => {},
        }
        i += 1;
    }
    assert(spec_pieces.subrange(0, pieces@.len() as int) =~= spec_pieces);
}

impl GoogleSheet {
    /// The races of the sheet that start at or after `now` and are confirmed,
    /// one entry for each distance that names a unit, in the order of the sheet.
    pub fn upcoming_entries(&self, now: &LocalDateTime) -> (r: Vec<UpcomingRaceEntry>)
        ensures
            entries_view(r@) == sheet_entries(self.table.rows@, *now),
    {
        let rows = &self.table.rows;
        let mut out: Vec<UpcomingRaceEntry> = Vec::new();
        let mut i: usize = 0;
        while i < rows.len()
            invariant
                rows@ == self.table.rows@,
                i <= rows@.len(),
                entries_view(out@) == sheet_entries(rows@.subrange(0, i as int), *now),
            decreases rows@.len() - i,
        {
            let ghost upto = rows@.subrange(0, i + 1);
            assert(upto.drop_last() =~= rows@.subrange(0, i as int));
            let ghost before = entries_view(out@);
            let cols = columns(&rows[i]);
            let ghost colv = cols@.map_values(|c: String| c@);
            assert(colv =~= row_columns(rows@[i as int]));
            if cols.len() >= COLUMNS {
                match parse_date_cells(cols[DATE_COLUMN].clone(), cols[TIME_COLUMN].clone()) {
                    Ok(start) => {
                        if !start.is_before(now) && is_blank_str(
                            cols[UNCONFIRMED_COLUMN].as_str(),
                        ) {
                            push_distances(&cols, start, &mut out);
                        }
                    },
                    Err(_) => {},
                }
            }
            assert(entries_view(out@) =~= before + row_entries(colv, *now));
            i += 1;
        }
        assert(rows@.subrange(0, rows@.len() as int) =~= rows@);
        out
    }
}

/// Whether `s` holds the character `c`.
pub open spec fn contains_char(s: Seq<char>, c: char) -> bool {
    exists|i: int| 0 <= i < s.len() && s[i] == c
}

/// Whether `i` is the position of the first `{` of `s`.
pub open spec fn is_first_open(s: Seq<char>, i: int) -> bool {
    0 <= i < s.len() && s[i] == '{' && forall|k: int| 0 <= k < i ==> s[k] != '{'
}

/// Whether `j` is the position of the last `}` of `s`.
pub open spec fn is_last_close(s: Seq<char>, j: int) -> bool {
    0 <= j < s.len() && s[j] == '}' && forall|k: int| j < k < s.len() ==> s[k] != '}'
}

/// The JSON object inside the text the sheet's endpoint returns: from the first
/// `{` to the last `}`. Fails with "no JSON found" without a `{`, and with
/// "no JSON end found" without a `}` after it.
pub fn json_payload(raw: &str) -> (r: Result<&str, String>)
    ensures
        r matches Err(m) ==> (m@ == "no JSON found"@ && !contains_char(raw@, '{')) || (m@
            == "no JSON end found"@ && exists|i: int|
            is_first_open(raw@, i) && forall|k: int| i <= k < raw@.len() ==> raw@[k] != '}'),
        r matches Ok(t) ==> exists|i: int, j: int|
            is_first_open(raw@, i) && is_last_close(raw@, j) && i < j && t@ == raw@.subrange(
                i,
                j + 1,
            ),
{
    let n = raw.unicode_len();
    let mut start: usize = 0;
    while start < n && raw.get_char(start) != '{'
        invariant
            n == raw@.len(),
            start <= n,
            forall|k: int| 0 <= k < start ==> raw@[k] != '{',
        decreases n - start,
    {
        start += 1;
    }
    if start == n {
        return Err(String::from_str("no JSON found"));
    }
    let mut end: usize = n;
    while end > start + 1 && raw.get_char(end - 1) != '}'
        invariant
            n == raw@.len(),
            start < n,
            start + 1 <= end <= n,
            forall|k: int| end <= k < n ==> raw@[k] != '}',
        decreases end,
    {
        end -= 1;
    }
    assert(is_first_open(raw@, start as int));
    if end == start + 1 {
        assert(forall|k: int| start <= k < raw@.len() ==> raw@[k] != '}');
        return Err(String::from_str("no JSON end found"));
    }
    assert(is_last_close(raw@, end - 1));
    Ok(raw.substring_char(start, end))
}

} // verus!
