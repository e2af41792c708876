use sheets_fdw::cells::{Cell, Row, TargetColumn, TypeOid};
use sheets_fdw::error::FdwError;
use sheets_fdw::options::Options;
use sheets_fdw::scan::{ExampleFdw, HttpMethod};

fn col(num: usize, name: &str, type_oid: TypeOid) -> TargetColumn {
    TargetColumn { num, name: name.to_owned(), type_oid }
}

fn two_row_body() -> String {
    ")]}'\n{\"table\":{\"rows\":[\
{\"c\":[{\"v\":1.0,\"f\":\"1\"},{\"v\":\"Erlich Bachman\"}]},\
{\"c\":[{\"v\":2.0,\"f\":\"2\"},{\"v\":\"Richard Hendricks\"}]}\
]}}".to_owned()
}

fn one_row_body() -> String {
    ")]}'\n{\"table\":{\"rows\":[{\"c\":[{\"v\":7.0},{\"v\":\"Jian Yang\"}]}]}}".to_owned()
}

#[test]
fn version_requirement_is_fixed() {
    assert_eq!(ExampleFdw::host_version_requirement(), "^0.1.0");
}

#[test]
fn default_connector_starts_empty() {
    let fdw: ExampleFdw = Default::default();
    assert_eq!(fdw.row_count(), 0);
    assert_eq!(fdw.cursor(), 0);
}

#[test]
fn init_defaults_the_base_url() {
    let mut fdw = ExampleFdw::new();
    let opts = Options::new();
    assert!(fdw.init(&opts).is_ok());
    let mut table = Options::new();
    table.set("sheet_id", "abc123");
    let req = fdw.begin_scan_request(&table).unwrap();
    assert_eq!(req.method, HttpMethod::Get);
    assert_eq!(
        req.url,
        "https://docs.google.com/spreadsheets/d/abc123/gviz/tq?tqx=out:json"
    );
    assert_eq!(req.headers.len(), 2);
    assert_eq!(req.headers[0].0, "user-agent");
    assert_eq!(req.headers[0].1, "Sheets FDW");
    assert_eq!(req.headers[1].0, "x-datasource-auth");
    assert_eq!(req.headers[1].1, "true");
    assert_eq!(req.body, "");
}

#[test]
fn init_takes_the_base_url_option() {
    let mut fdw = ExampleFdw::new();
    let mut opts = Options::new();
    opts.set("base_url", "http://localhost:9000/sheets");
    assert!(fdw.init(&opts).is_ok());
    let mut table = Options::new();
    table.set("sheet_id", "s1");
    let req = fdw.begin_scan_request(&table).unwrap();
    assert_eq!(req.url, "http://localhost:9000/sheets/s1/gviz/tq?tqx=out:json");
}

#[test]
fn missing_sheet_id_is_a_missing_option() {
    let mut fdw = ExampleFdw::new();
    fdw.init(&Options::new()).unwrap();
    let err = fdw.begin_scan_request(&Options::new()).unwrap_err();
    assert_eq!(err, FdwError::MissingOption("sheet_id".to_owned()));
    assert_eq!(err.message(), "required option is missing: sheet_id");
}

#[test]
fn full_scan_produces_every_row_then_stays_exhausted() {
    let mut fdw = ExampleFdw::new();
    fdw.init(&Options::new()).unwrap();
    assert!(fdw.begin_scan(Ok(two_row_body())).is_ok());
    assert_eq!(fdw.row_count(), 2);
    assert_eq!(fdw.cursor(), 0);
    let cols = vec![col(1, "id", TypeOid::I64), col(2, "name", TypeOid::Str)];
    let mut produced = 0;
    loop {
        let mut row = Row::new();
        match fdw.iter_scan(&cols, &mut row).unwrap() {
            Some(_) => {
                assert_eq!(row.cells.len(), 2);
                produced += 1;
            }
            None => break,
        }
    }
    // exactly as many row-produced signals as fetched records
    assert_eq!(produced, 2);
    // exhaustion is idempotent: further pulls keep signaling no-more-rows
    for _ in 0..3 {
        let mut row = Row::new();
        assert_eq!(fdw.iter_scan(&cols, &mut row).unwrap(), None);
        assert_eq!(row.cells.len(), 0);
        assert_eq!(fdw.cursor(), 2);
    }
}

#[test]
fn fresh_scan_resets_cursor_and_rows() {
    let mut fdw = ExampleFdw::new();
    fdw.init(&Options::new()).unwrap();
    fdw.begin_scan(Ok(two_row_body())).unwrap();
    let cols = vec![col(1, "id", TypeOid::I64), col(2, "name", TypeOid::Str)];
    let mut row = Row::new();
    fdw.iter_scan(&cols, &mut row).unwrap();
    assert_eq!(fdw.cursor(), 1);
    assert!(fdw.end_scan().is_ok());
    assert_eq!(fdw.row_count(), 0);
    assert_eq!(fdw.cursor(), 0);
    // a new scan repopulates from the new fetch alone
    fdw.begin_scan(Ok(one_row_body())).unwrap();
    assert_eq!(fdw.row_count(), 1);
    assert_eq!(fdw.cursor(), 0);
    let mut row = Row::new();
    assert_eq!(fdw.iter_scan(&cols, &mut row).unwrap(), Some(0));
    assert_eq!(row.cells[0], Some(Cell::I64(7)));
    assert_eq!(row.cells[1], Some(Cell::Str("Jian Yang".to_owned())));
    let mut row = Row::new();
    assert_eq!(fdw.iter_scan(&cols, &mut row).unwrap(), None);
}

#[test]
fn missing_prefix_fails_and_leaves_the_store_empty() {
    let mut fdw = ExampleFdw::new();
    fdw.init(&Options::new()).unwrap();
    let err = fdw
        .begin_scan(Ok("{\"table\":{\"rows\":[]}}".to_owned()))
        .unwrap_err();
    assert_eq!(err, FdwError::Format("invalid response".to_owned()));
    assert_eq!(fdw.row_count(), 0);
    // a pull after the failed begin behaves as if no scan were open
    let cols = vec![col(1, "id", TypeOid::I64)];
    let mut row = Row::new();
    assert_eq!(fdw.iter_scan(&cols, &mut row).unwrap(), None);
    assert_eq!(row.cells.len(), 0);
}

#[test]
fn failed_begin_replaces_a_prior_row_store() {
    let mut fdw = ExampleFdw::new();
    fdw.init(&Options::new()).unwrap();
    fdw.begin_scan(Ok(two_row_body())).unwrap();
    assert_eq!(fdw.row_count(), 2);
    assert!(fdw.begin_scan(Ok("no prefix here".to_owned())).is_err());
    assert_eq!(fdw.row_count(), 0);
    assert_eq!(fdw.cursor(), 0);
}

#[test]
fn undecodable_body_carries_the_parse_diagnostic() {
    let mut fdw = ExampleFdw::new();
    fdw.init(&Options::new()).unwrap();
    let err = fdw.begin_scan(Ok(")]}'\n{oops".to_owned())).unwrap_err();
    let expected = serde_json::from_str::<serde_json::Value>("{oops")
        .unwrap_err()
        .to_string();
    assert_eq!(err, FdwError::Format(expected));
}

#[test]
fn body_without_a_row_array_fails() {
    let mut fdw = ExampleFdw::new();
    fdw.init(&Options::new()).unwrap();
    for body in [")]}'\n{\"table\":{}}", ")]}'\n[1,2]", ")]}'\n{\"table\":{\"rows\":3}}"] {
        let err = fdw.begin_scan(Ok(body.to_owned())).unwrap_err();
        assert_eq!(
            err,
            FdwError::Format("cannot get rows from response".to_owned())
        );
        assert_eq!(fdw.row_count(), 0);
    }
}

#[test]
fn transport_failure_is_passed_on() {
    let mut fdw = ExampleFdw::new();
    fdw.init(&Options::new()).unwrap();
    let err = fdw.begin_scan(Err("connection refused".to_owned())).unwrap_err();
    assert_eq!(err, FdwError::Transport("connection refused".to_owned()));
    assert_eq!(err.message(), "connection refused");
    assert_eq!(fdw.row_count(), 0);
}

#[test]
fn re_scan_is_always_unsupported() {
    let mut fdw = ExampleFdw::new();
    fdw.init(&Options::new()).unwrap();
    let expect = FdwError::UnsupportedOperation("re_scan on foreign table is not supported".to_owned());
    // before any scan
    assert_eq!(fdw.re_scan().unwrap_err(), expect);
    // while a scan is open
    fdw.begin_scan(Ok(two_row_body())).unwrap();
    assert_eq!(fdw.re_scan().unwrap_err(), expect);
    // once the scan is exhausted
    let cols = vec![col(1, "id", TypeOid::I64)];
    loop {
        let mut row = Row::new();
        if fdw.iter_scan(&cols, &mut row).unwrap().is_none() {
            break;
        }
    }
    assert_eq!(fdw.re_scan().unwrap_err(), expect);
    // and after the scan ended
    fdw.end_scan().unwrap();
    assert_eq!(fdw.re_scan().unwrap_err(), expect);
}

#[test]
fn begin_modify_is_unsupported_but_leaf_writes_report_success() {
    let mut fdw = ExampleFdw::new();
    fdw.init(&Options::new()).unwrap();
    fdw.begin_scan(Ok(two_row_body())).unwrap();
    let cols = vec![col(1, "id", TypeOid::I64), col(2, "name", TypeOid::Str)];
    let mut row = Row::new();
    fdw.iter_scan(&cols, &mut row).unwrap();
    assert_eq!(
        fdw.begin_modify().unwrap_err(),
        FdwError::UnsupportedOperation("modify on foreign table is not supported".to_owned())
    );
    // insert without a prior successful begin_modify still reports success
    // and changes nothing observable
    let spare = Row::new();
    assert!(fdw.insert(&spare).is_ok());
    assert!(fdw.update(Cell::I64(1), &spare).is_ok());
    assert!(fdw.delete(Cell::I64(1)).is_ok());
    assert!(fdw.end_modify().is_ok());
    assert_eq!(fdw.row_count(), 2);
    assert_eq!(fdw.cursor(), 1);
    // the open scan continues exactly where it stood
    let mut row = Row::new();
    assert_eq!(fdw.iter_scan(&cols, &mut row).unwrap(), Some(0));
    assert_eq!(row.cells[0], Some(Cell::I64(2)));
    let mut row = Row::new();
    assert_eq!(fdw.iter_scan(&cols, &mut row).unwrap(), None);
}

#[test]
fn options_lookup_and_defaults() {
    let mut opts = Options::new();
    assert_eq!(opts.get("base_url"), None);
    opts.set("base_url", "http://a");
    opts.set("base_url", "http://b");
    // first match wins
    assert_eq!(opts.get("base_url"), Some("http://a".to_owned()));
    assert_eq!(opts.require_or("base_url", "http://d"), "http://a");
    assert_eq!(opts.require_or("missing", "http://d"), "http://d");
    assert!(opts.require("base_url").is_ok());
    let err = opts.require("missing").unwrap_err();
    assert_eq!(err, FdwError::MissingOption("missing".to_owned()));
}
