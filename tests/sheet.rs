use ctrunner::calendar::LocalDateTime;
use ctrunner::distance::{parse_distance, split_unit, DistanceUnit};
use ctrunner::sheet::{
    json_payload, parse_date, parse_date_cells, GoogleSheet, GvizCell, GvizRow, GvizTable,
};

fn at(year: i32, month: u32, day: u32, hour: u32, minute: u32) -> LocalDateTime {
    LocalDateTime::new(year, month, day, hour, minute, 0).unwrap()
}

#[test]
fn date_cells_parse() {
    assert_eq!(parse_date("Date(2025,5,17)"), Ok((2025, 5, 17, 0, 0, 0)));
    assert_eq!(parse_date(" \"Date(2025, 5, 17, 8, 30, 5)\" "), Ok((2025, 5, 17, 8, 30, 5)));
    assert_eq!(parse_date("Date(+2025,-1,3)"), Ok((2025, u32::MAX, 3, 0, 0, 0)));
}

#[test]
fn date_cell_errors() {
    assert_eq!(parse_date("2025-05-17"), Err("Invalid date format: 2025-05-17".to_string()));
    assert_eq!(parse_date("Date(2025,5,17"), Err("Invalid date format: Date(2025,5,17".to_string()));
    assert_eq!(parse_date("Date(2025,x,17)"), Err("Invalid number in: Date(2025,x,17)".to_string()));
    assert_eq!(
        parse_date("Date(2025,5,99999999999)"),
        Err("Invalid number in: Date(2025,5,99999999999)".to_string())
    );
    assert_eq!(parse_date("Date(2025,5)"), Err("Unexpected date format: Date(2025,5)".to_string()));
    assert_eq!(parse_date("Date()"), Err("Invalid number in: Date()".to_string()));
}

#[test]
fn date_and_time_cells_combine() {
    let t = parse_date_cells("Date(2025,5,17)".to_string(), "Date(1899,11,30,9,15,0)".to_string());
    assert_eq!(t, Ok(at(2025, 5, 17, 9, 15)));
    assert_eq!(
        parse_date_cells("Date(2025,2,29)".to_string(), "Date(1899,11,30,9,0,0)".to_string()),
        Err("Invalid date".to_string())
    );
    assert_eq!(
        parse_date_cells("Date(2024,2,29)".to_string(), "Date(1899,11,30,24,0,0)".to_string()),
        Err("Invalid time".to_string())
    );
    assert!(parse_date_cells("Date(2024,2,29)".to_string(), "Date(1899,11,30,23,59,59)".to_string()).is_ok());
    assert_eq!(
        parse_date_cells("Date(2025,0,17)".to_string(), "bad".to_string()),
        Err("Invalid date format: bad".to_string())
    );
}

#[test]
fn distances_split_into_number_and_unit() {
    let k = parse_distance(" \"5K\" ").unwrap();
    assert_eq!(k.number, "5");
    assert_eq!(k.unit, DistanceUnit::Kilometers);
    let m = parse_distance("26.2M").unwrap();
    assert_eq!(m.number, "26.2");
    assert_eq!(m.unit, DistanceUnit::Miles);
    assert!(parse_distance("13.1 mi").is_none());
    assert!(parse_distance("").is_none());
    assert!(split_unit("10K").is_none());
    assert_eq!(split_unit("10k").unwrap().number, "10");
    assert_eq!(DistanceUnit::default(), DistanceUnit::Miles);
    assert_eq!(DistanceUnit::Kilometers.to_string(), "kilometers");
    assert_eq!(DistanceUnit::Miles.to_string(), "miles");
}

#[test]
fn json_payload_is_cut_out() {
    assert_eq!(json_payload("/*O_o*/\ngoogle.setResponse({\"a\":{}});"), Ok("{\"a\":{}}"));
    assert_eq!(json_payload("nothing"), Err("no JSON found".to_string()));
    assert_eq!(json_payload("} {"), Err("no JSON end found".to_string()));
}

fn cell(json: &str) -> Option<GvizCell> {
    Some(GvizCell { v: Some(json.to_string()) })
}

fn row(date: &str, time: &str, town: &str, name: &str, miles: &str, url: &str, unconfirmed: Option<&str>) -> GvizRow {
    GvizRow {
        c: Some(vec![
            cell(date),
            cell(time),
            cell(town),
            None,
            cell(name),
            None,
            cell(miles),
            cell(url),
            match unconfirmed {
                Some(u) => cell(u),
                None => Some(GvizCell { v: None }),
            },
        ]),
    }
}

#[test]
fn sheet_rows_become_entries() {
    let sheet = GoogleSheet {
        table: GvizTable {
            rows: vec![
                row("\"Date(2025,6,1)\"", "\"Date(1899,11,30,9,0,0)\"", "\"Hartford\"", "\"Summer Run\"", "\"5K, 10k,fun\"", "\"https://r.example\"", None),
                row("\"Date(2025,1,1)\"", "\"Date(1899,11,30,9,0,0)\"", "\"Old\"", "\"Past\"", "\"5k\"", "\"u\"", None),
                row("\"Date(2025,7,4)\"", "\"Date(1899,11,30,8,0,0)\"", "\"Avon\"", "\"Maybe\"", "\"5k\"", "\"u\"", Some("\"TBD\"")),
                row("\"bad\"", "\"Date(1899,11,30,8,0,0)\"", "\"Avon\"", "\"Broken\"", "\"5k\"", "\"u\"", None),
                GvizRow { c: Some(vec![cell("\"Date(2025,8,1)\"")]) },
                GvizRow { c: None },
                row("\"Date(2025,3,1)\"", "\"Date(1899,11,30,12,0,0)\"", "\"Bristol\"", "\"Noon Mile\"", "\"1M\"", "\"v\"", Some("\"  \"")),
            ],
        },
    };
    let now = at(2025, 3, 1, 12, 0);
    let entries = sheet.upcoming_entries(&now);
    assert_eq!(entries.len(), 3);
    assert_eq!(entries[0].name, "Summer Run");
    assert_eq!(entries[0].town_name, "Hartford");
    assert_eq!(entries[0].distance.number, "5");
    assert_eq!(entries[0].distance.unit, DistanceUnit::Kilometers);
    assert_eq!(entries[0].start_at, at(2025, 6, 1, 9, 0));
    assert_eq!(entries[0].race_url, "https://r.example");
    assert_eq!(entries[1].distance.number, "10");
    assert_eq!(entries[2].name, "Noon Mile");
    assert_eq!(entries[2].distance.unit, DistanceUnit::Miles);
}
