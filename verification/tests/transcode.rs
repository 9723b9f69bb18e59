use rs_arrow_ipc_stream2x::calendar::{FIRST_DAY, LAST_DAY};
use rs_arrow_ipc_stream2x::cell::decimal_text;
use rs_arrow_ipc_stream2x::model::fits;
use rs_arrow_ipc_stream2x::{
    accept, batch_iter2x, render, write_batch, write_header, Batch, CellValue, Column, Error,
    LogicalType, NumberSource, PendingNumber, TimeUnit, Value,
};
use rust_xlsxwriter::{Workbook, Worksheet, XlsxError};
use std::io::Read;

fn column(name: &str, data_type: LogicalType, values: Vec<Option<Value>>) -> Column {
    Column { name: name.to_string(), data_type, values }
}

fn utf8(s: &str) -> Option<Value> {
    Some(Value::Text(s.to_string()))
}

fn signed(v: i64) -> Option<Value> {
    Some(Value::Int(v))
}

fn single(data_type: LogicalType, values: Vec<Option<Value>>) -> Batch {
    let rows = values.len();
    Batch::new(vec![column("c", data_type, values)], rows).unwrap()
}

fn people() -> Batch {
    Batch::new(
        vec![
            column("id", LogicalType::Int32, vec![signed(1), signed(2)]),
            column("name", LogicalType::Utf8, vec![utf8("Alice"), None]),
        ],
        2,
    )
    .unwrap()
}

/// The worksheet part and the shared strings part of the saved workbook.
fn saved(sheet: Worksheet) -> (String, String) {
    let mut book = Workbook::new();
    book.push_worksheet(sheet);
    let bytes = book.save_to_buffer().unwrap();
    let mut archive = zip::ZipArchive::new(std::io::Cursor::new(bytes)).unwrap();
    let mut cells = String::new();
    archive.by_name("xl/worksheets/sheet1.xml").unwrap().read_to_string(&mut cells).unwrap();
    let mut strings = String::new();
    if let Ok(mut part) = archive.by_name("xl/sharedStrings.xml") {
        part.read_to_string(&mut strings).unwrap();
    }
    (cells, strings)
}

fn run(items: Vec<Result<Batch, arrow::error::ArrowError>>) -> (Result<(), Error>, String, String, Vec<PendingNumber>) {
    let mut sheet = Worksheet::new();
    let mut pending = Vec::new();
    let out = batch_iter2x(items, &mut sheet, &mut pending);
    let (cells, strings) = saved(sheet);
    (out, cells, strings, pending)
}

#[test]
fn ids_and_names_with_a_null() {
    let (out, cells, strings, pending) = run(vec![Ok(people())]);
    assert!(out.is_ok());
    assert!(pending.is_empty());
    assert!(strings.contains("<si><t>id</t></si><si><t>name</t></si><si><t>Alice</t></si>"));
    assert!(cells.contains(r#"<c r="A1" t="s"><v>0</v></c><c r="B1" t="s"><v>1</v></c>"#));
    assert!(cells.contains(r#"<c r="A2"><v>1</v></c><c r="B2" t="s"><v>2</v></c>"#));
    assert!(cells.contains(r#"<c r="A3"><v>2</v></c>"#));
    assert!(!cells.contains(r#"r="B3""#));
    assert!(!cells.contains(r#"r="A4""#));
}

#[test]
fn epoch_day_is_first_of_january_1970() {
    let batch = single(LogicalType::Date32, vec![signed(0), signed(2_147_483_647), signed(-2_147_483_648)]);
    let (out, cells, _, pending) = run(vec![Ok(batch)]);
    assert!(out.is_ok());
    assert!(pending.is_empty());
    // 1970-01-01 is day 25569 of the sheet's calendar.
    assert!(cells.contains(r#"<c r="A2"><v>25569</v></c>"#));
    assert!(!cells.contains(r#"r="A3""#));
    assert!(!cells.contains(r#"r="A4""#));
}

#[test]
fn date_in_milliseconds_keeps_the_time_of_day() {
    let batch = single(LogicalType::Date64, vec![signed(0), signed(129_600_000), signed(i64::MAX), signed(i64::MIN)]);
    let (out, cells, _, _) = run(vec![Ok(batch)]);
    assert!(out.is_ok());
    assert!(cells.contains(r#"<c r="A2"><v>25569</v></c>"#));
    assert!(cells.contains(r#"<c r="A3"><v>25570.5</v></c>"#));
    assert!(!cells.contains(r#"r="A4""#));
    assert!(!cells.contains(r#"r="A5""#));
}

#[test]
fn calendar_bounds_are_those_of_the_date_type() {
    assert_eq!(chrono::NaiveDate::from_epoch_days(FIRST_DAY as i32), Some(chrono::NaiveDate::MIN));
    assert_eq!(chrono::NaiveDate::from_epoch_days(LAST_DAY as i32), Some(chrono::NaiveDate::MAX));
    assert_eq!(chrono::NaiveDate::from_epoch_days(FIRST_DAY as i32 - 1), None);
    assert_eq!(chrono::NaiveDate::from_epoch_days(LAST_DAY as i32 + 1), None);
    let first = FIRST_DAY * 86_400_000;
    let last = (LAST_DAY + 1) * 86_400_000 - 1;
    assert!(chrono::DateTime::<chrono::Utc>::from_timestamp_millis(first).is_some());
    assert!(chrono::DateTime::<chrono::Utc>::from_timestamp_millis(first - 1).is_none());
    assert!(chrono::DateTime::<chrono::Utc>::from_timestamp_millis(last).is_some());
    assert!(chrono::DateTime::<chrono::Utc>::from_timestamp_millis(last + 1).is_none());
}

#[test]
fn last_day_of_the_calendar_is_written_and_the_next_is_not() {
    let batch = single(LogicalType::Date32, vec![signed(LAST_DAY), signed(LAST_DAY + 1), signed(FIRST_DAY - 1)]);
    let (out, cells, _, _) = run(vec![Ok(batch)]);
    assert!(out.is_ok());
    assert!(cells.contains(r#"<c r="A2"><v>"#));
    assert!(!cells.contains(r#"r="A3""#));
    assert!(!cells.contains(r#"r="A4""#));
}

#[test]
fn timestamp_is_decimal_text() {
    let data_type = LogicalType::Timestamp(TimeUnit::Millisecond);
    assert_eq!(render(&data_type, &signed(1000)), Some(CellValue::Text("1000".to_string())));
    let (out, cells, strings, _) = run(vec![Ok(single(data_type, vec![signed(1000), None]))]);
    assert!(out.is_ok());
    assert!(strings.contains("<si><t>1000</t></si>"));
    assert!(cells.contains(r#"<c r="A2" t="s"><v>1</v></c>"#));
    assert!(!cells.contains(r#"r="A3""#));
}

#[test]
fn timestamp_text_in_every_unit_and_sign() {
    for unit in [TimeUnit::Second, TimeUnit::Millisecond, TimeUnit::Microsecond, TimeUnit::Nanosecond] {
        let data_type = LogicalType::Timestamp(unit);
        assert_eq!(render(&data_type, &signed(0)), Some(CellValue::Text("0".to_string())));
        assert_eq!(render(&data_type, &signed(-42)), Some(CellValue::Text("-42".to_string())));
        assert_eq!(render(&data_type, &signed(1_700_000_000)), Some(CellValue::Text("1700000000".to_string())));
        assert_eq!(
            render(&data_type, &signed(i64::MIN)),
            Some(CellValue::Text("-9223372036854775808".to_string()))
        );
        assert_eq!(render(&data_type, &None), None);
    }
}

#[test]
fn empty_stream_leaves_the_sheet_empty() {
    let (out, cells, _, pending) = run(Vec::new());
    assert!(out.is_ok());
    assert!(pending.is_empty());
    assert!(!cells.contains("<c "));
}

#[test]
fn decode_failure_after_the_first_batch() {
    let failure = arrow::error::ArrowError::ParseError("truncated".to_string());
    let (out, cells, _, _) = run(vec![Ok(people()), Err(failure), Ok(people())]);
    match out {
        Err(Error::Arrow(arrow::error::ArrowError::ParseError(message))) => assert_eq!(message, "truncated"),
        other => panic!("{:?}", other),
    }
    assert!(cells.contains(r#"<c r="A2"><v>1</v></c>"#));
    assert!(cells.contains(r#"<c r="A3"><v>2</v></c>"#));
    assert!(!cells.contains(r#"r="A4""#));
}

#[test]
fn decode_failure_first_writes_nothing() {
    let failure = arrow::error::ArrowError::ParseError("bad".to_string());
    let (out, cells, _, _) = run(vec![Err(failure), Ok(people())]);
    assert!(matches!(out, Err(Error::Arrow(_))));
    assert!(!cells.contains("<c "));
}

#[test]
fn header_holds_the_names_in_order() {
    let batch = Batch::new(
        vec![
            column("z", LogicalType::Boolean, vec![]),
            column("a", LogicalType::Utf8, vec![]),
            column("m", LogicalType::Int64, vec![]),
        ],
        0,
    )
    .unwrap();
    let mut sheet = Worksheet::new();
    let mut cursor: u32 = 0;
    assert!(write_header(&mut sheet, &batch, &mut cursor).is_ok());
    assert_eq!(cursor, 1);
    let (cells, strings) = saved(sheet);
    assert!(strings.contains("<si><t>z</t></si><si><t>a</t></si><si><t>m</t></si>"));
    assert!(cells.contains(
        r#"<c r="A1" t="s"><v>0</v></c><c r="B1" t="s"><v>1</v></c><c r="C1" t="s"><v>2</v></c>"#
    ));
    assert_eq!(cells.matches("<c ").count(), 3);
}

#[test]
fn header_is_written_once() {
    let (out, cells, strings, _) = run(vec![Ok(people()), Ok(people())]);
    assert!(out.is_ok());
    assert_eq!(strings.matches("<t>id</t>").count(), 1);
    assert!(cells.contains(r#"<c r="A4"><v>1</v></c><c r="B4" t="s"><v>2</v></c>"#));
    assert!(cells.contains(r#"<c r="A5"><v>2</v></c>"#));
    assert!(!cells.contains(r#"r="A6""#));
}

#[test]
fn unnamed_column_has_no_header_cell() {
    let batch = Batch::new(
        vec![column("", LogicalType::Int8, vec![signed(7)]), column("b", LogicalType::Int8, vec![signed(8)])],
        1,
    )
    .unwrap();
    let (out, cells, _, _) = run(vec![Ok(batch)]);
    assert!(out.is_ok());
    assert!(!cells.contains(r#"r="A1""#));
    assert!(cells.contains(r#"<c r="B1" t="s"><v>0</v></c>"#));
    assert!(cells.contains(r#"<c r="A2"><v>7</v></c><c r="B2"><v>8</v></c>"#));
}

#[test]
fn cursor_is_one_plus_the_rows_so_far() {
    let mut sheet = Worksheet::new();
    let mut pending = Vec::new();
    let mut cursor: u32 = 0;
    let sizes = [3usize, 0, 5, 1];
    let mut total: u32 = 0;
    for rows in sizes {
        let batch = single(LogicalType::Int16, (0..rows).map(|v| signed(v as i64)).collect());
        assert!(accept(&mut sheet, &mut cursor, &mut pending, Ok(batch)).is_ok());
        total += rows as u32;
        assert_eq!(cursor, 1 + total);
    }
    let (cells, _) = saved(sheet);
    assert_eq!(cells.matches("<row ").count(), 10);
    assert!(cells.contains(r#"<c r="A10"><v>0</v></c>"#));
}

#[test]
fn write_batch_moves_the_cursor_by_the_row_count() {
    let mut sheet = Worksheet::new();
    let mut pending = Vec::new();
    let mut cursor: u32 = 10;
    assert!(write_batch(&mut sheet, &people(), &mut cursor, &mut pending).is_ok());
    assert_eq!(cursor, 12);
    let (cells, _) = saved(sheet);
    assert!(cells.contains(r#"<c r="A11"><v>1</v></c><c r="B11" t="s"><v>0</v></c>"#));
    assert!(cells.contains(r#"<c r="A12"><v>2</v></c>"#));
    assert!(!cells.contains(r#"r="B12""#));
}

#[test]
fn null_leaves_the_cell_unset_every_time() {
    for _ in 0..2 {
        let batch = Batch::new(
            vec![
                column("a", LogicalType::Utf8, vec![None]),
                column("b", LogicalType::UInt8, vec![None]),
                column("c", LogicalType::Float64, vec![None]),
                column("d", LogicalType::Boolean, vec![None]),
                column("e", LogicalType::Date32, vec![None]),
                column("f", LogicalType::Time32(TimeUnit::Second), vec![None]),
                column("g", LogicalType::Timestamp(TimeUnit::Second), vec![None]),
                column("h", LogicalType::Other("Null".to_string()), vec![None]),
            ],
            1,
        )
        .unwrap();
        let (out, cells, _, pending) = run(vec![Ok(batch)]);
        assert!(out.is_ok());
        assert!(pending.is_empty());
        assert_eq!(cells.matches("<c ").count(), 8);
        assert!(!cells.contains(r#"<row r="2""#));
    }
}

#[test]
fn integers_of_every_width_become_numbers() {
    let cases = [
        (LogicalType::Int8, signed(-128), CellValue::Integer(-128)),
        (LogicalType::Int16, signed(-32_768), CellValue::Integer(-32_768)),
        (LogicalType::Int32, signed(2_147_483_647), CellValue::Integer(2_147_483_647)),
        (LogicalType::Int64, signed(9_007_199_254_740_991), CellValue::Integer(9_007_199_254_740_991)),
        (LogicalType::UInt8, Some(Value::UInt(255)), CellValue::Unsigned(255)),
        (LogicalType::UInt16, Some(Value::UInt(65_535)), CellValue::Unsigned(65_535)),
        (LogicalType::UInt32, Some(Value::UInt(4_294_967_295)), CellValue::Unsigned(4_294_967_295)),
        (LogicalType::UInt64, Some(Value::UInt(u64::MAX)), CellValue::Unsigned(u64::MAX)),
    ];
    for (data_type, value, cell) in cases {
        assert_eq!(render(&data_type, &value), Some(cell));
    }
    let batch = Batch::new(
        vec![
            column("s", LogicalType::Int64, vec![signed(-9_007_199_254_740_991)]),
            column("u", LogicalType::UInt64, vec![Some(Value::UInt(9_007_199_254_740_991))]),
            column("b", LogicalType::Int8, vec![signed(-5)]),
        ],
        1,
    )
    .unwrap();
    let (out, cells, _, _) = run(vec![Ok(batch)]);
    assert!(out.is_ok());
    assert!(cells.contains(r#"<c r="A2"><v>-9007199254740991</v></c>"#));
    assert!(cells.contains(r#"<c r="B2"><v>9007199254740991</v></c>"#));
    assert!(cells.contains(r#"<c r="C2"><v>-5</v></c>"#));
}

#[test]
fn booleans_map_one_to_one() {
    assert_eq!(render(&LogicalType::Boolean, &Some(Value::Bool(true))), Some(CellValue::Boolean(true)));
    assert_eq!(render(&LogicalType::Boolean, &Some(Value::Bool(false))), Some(CellValue::Boolean(false)));
    let batch = single(LogicalType::Boolean, vec![Some(Value::Bool(true)), Some(Value::Bool(false))]);
    let (out, cells, _, _) = run(vec![Ok(batch)]);
    assert!(out.is_ok());
    assert!(cells.contains(r#"<c r="A2" t="b"><v>1</v></c>"#));
    assert!(cells.contains(r#"<c r="A3" t="b"><v>0</v></c>"#));
}

#[test]
fn floats_are_deferred_with_their_bits() {
    let bits = 1.5f64.to_bits();
    let batch = Batch::new(
        vec![
            column("i", LogicalType::Int32, vec![signed(1), signed(2)]),
            column("h", LogicalType::Float16, vec![Some(Value::Float(bits)), None]),
            column("f", LogicalType::Float32, vec![None, Some(Value::Float(bits))]),
            column("d", LogicalType::Float64, vec![Some(Value::Float(0)), Some(Value::Float(bits))]),
        ],
        2,
    )
    .unwrap();
    let (out, cells, _, pending) = run(vec![Ok(batch)]);
    assert!(out.is_ok());
    assert_eq!(
        pending,
        vec![
            PendingNumber { row: 1, col: 1, source: NumberSource::Bits(bits) },
            PendingNumber { row: 1, col: 3, source: NumberSource::Bits(0) },
            PendingNumber { row: 2, col: 2, source: NumberSource::Bits(bits) },
            PendingNumber { row: 2, col: 3, source: NumberSource::Bits(bits) },
        ]
    );
    assert!(!cells.contains(r#"r="B2""#));
    assert!(cells.contains(r#"<c r="A3"><v>2</v></c>"#));
}

#[test]
fn time_of_day_is_a_fraction_of_a_day() {
    let fraction = |value, units_per_day| {
        Some(CellValue::Deferred(NumberSource::DayFraction { value, units_per_day }))
    };
    assert_eq!(render(&LogicalType::Time32(TimeUnit::Second), &signed(43_200)), fraction(43_200, 86_400));
    assert_eq!(render(&LogicalType::Time32(TimeUnit::Millisecond), &signed(1)), fraction(1, 86_400_000));
    assert_eq!(render(&LogicalType::Time64(TimeUnit::Microsecond), &signed(2)), fraction(2, 86_400_000_000));
    assert_eq!(
        render(&LogicalType::Time64(TimeUnit::Nanosecond), &signed(3)),
        fraction(3, 86_400_000_000_000)
    );
    assert_eq!(render(&LogicalType::Time32(TimeUnit::Microsecond), &signed(1)), None);
    assert_eq!(render(&LogicalType::Time32(TimeUnit::Nanosecond), &signed(1)), None);
    assert_eq!(render(&LogicalType::Time64(TimeUnit::Second), &signed(1)), None);
    assert_eq!(render(&LogicalType::Time64(TimeUnit::Millisecond), &signed(1)), None);
    let batch = single(LogicalType::Time32(TimeUnit::Second), vec![None, signed(43_200)]);
    let (out, cells, _, pending) = run(vec![Ok(batch)]);
    assert!(out.is_ok());
    assert_eq!(
        pending,
        vec![PendingNumber {
            row: 2,
            col: 0,
            source: NumberSource::DayFraction { value: 43_200, units_per_day: 86_400 },
        }]
    );
    assert!(!cells.contains(r#"r="A3""#));
}

#[test]
fn other_types_get_a_placeholder() {
    let data_type = LogicalType::Other("Decimal128(10, 2)".to_string());
    assert_eq!(
        render(&data_type, &Some(Value::Opaque)),
        Some(CellValue::Text("unsupported data type: Decimal128(10, 2)".to_string()))
    );
    assert_eq!(render(&data_type, &None), None);
    let (out, cells, strings, _) = run(vec![Ok(single(data_type, vec![Some(Value::Opaque), None]))]);
    assert!(out.is_ok());
    assert!(strings.contains("<t>unsupported data type: Decimal128(10, 2)</t>"));
    assert!(cells.contains(r#"<c r="A2" t="s"><v>1</v></c>"#));
    assert!(!cells.contains(r#"r="A3""#));
}

#[test]
fn batch_refuses_a_value_of_another_storage_class() {
    let one = |data_type, value| Batch::new(vec![column("c", data_type, vec![None, value])], 2);
    assert!(one(LogicalType::Utf8, signed(1)).is_none());
    assert!(one(LogicalType::Int32, utf8("1")).is_none());
    assert!(one(LogicalType::UInt32, signed(1)).is_none());
    assert!(one(LogicalType::Boolean, signed(1)).is_none());
    assert!(one(LogicalType::Float64, signed(1)).is_none());
    assert!(one(LogicalType::Date32, Some(Value::UInt(1))).is_none());
    assert!(one(LogicalType::Utf8, Some(Value::Opaque)).is_none());
    assert!(one(LogicalType::Int8, signed(128)).is_none());
    assert!(one(LogicalType::Int8, signed(127)).is_some());
    assert!(one(LogicalType::Int16, signed(-32_769)).is_none());
    assert!(one(LogicalType::Date32, signed(2_147_483_648)).is_none());
    assert!(one(LogicalType::Time32(TimeUnit::Second), signed(-2_147_483_649)).is_none());
    assert!(one(LogicalType::UInt8, Some(Value::UInt(256))).is_none());
    assert!(one(LogicalType::UInt16, Some(Value::UInt(65_536))).is_none());
    assert!(one(LogicalType::UInt32, Some(Value::UInt(4_294_967_296))).is_none());
    assert!(one(LogicalType::UInt64, Some(Value::UInt(u64::MAX))).is_some());
    assert!(one(LogicalType::Int64, signed(i64::MIN)).is_some());
    assert!(one(LogicalType::Other("Null".to_string()), signed(1)).is_some());
    assert!(fits(&LogicalType::Boolean, &Value::Bool(true)));
    assert!(!fits(&LogicalType::Boolean, &Value::Float(0)));
}

#[test]
fn integer_over_53_bits_is_the_nearest_number() {
    let batch = single(
        LogicalType::Int64,
        vec![signed(9_007_199_254_740_992), signed(9_007_199_254_740_993), signed(-9_007_199_254_740_992)],
    );
    let (out, cells, _, _) = run(vec![Ok(batch)]);
    assert!(out.is_ok());
    assert!(cells.contains(r#"<c r="A2"><v>9007199254740992</v></c>"#));
    assert!(cells.contains(r#"<c r="A3"><v>9007199254740992</v></c>"#));
    assert!(cells.contains(r#"<c r="A4"><v>-9007199254740992</v></c>"#));
    let batch = single(LogicalType::UInt64, vec![Some(Value::UInt(u64::MAX))]);
    let (out, cells, _, _) = run(vec![Ok(batch)]);
    assert!(out.is_ok());
    assert!(cells.contains(r#"<c r="A2"><v>18446744073709552000</v></c>"#));
}

#[test]
fn midnight_and_its_day_are_the_same_cell() {
    let day = single(LogicalType::Date32, vec![signed(19_000)]);
    let instant = single(LogicalType::Date64, vec![signed(19_000 * 86_400_000)]);
    let (_, from_day, _, _) = run(vec![Ok(day)]);
    let (_, from_instant, _, _) = run(vec![Ok(instant)]);
    assert!(from_day.contains(r#"<c r="A2"><v>44569</v></c>"#));
    assert_eq!(from_day, from_instant);
}

#[test]
fn deferred_number_off_the_grid_is_a_write_error() {
    let mut sheet = Worksheet::new();
    let mut pending = Vec::new();
    let mut cursor: u32 = 1_048_575;
    let batch = Batch::new(
        vec![
            column("f", LogicalType::Float64, vec![Some(Value::Float(7)), Some(Value::Float(8))]),
            column("i", LogicalType::Int8, vec![signed(1), signed(2)]),
        ],
        2,
    )
    .unwrap();
    let out = write_batch(&mut sheet, &batch, &mut cursor, &mut pending);
    assert!(matches!(out, Err(XlsxError::RowColumnLimitError)));
    assert_eq!(cursor, 1_048_576);
    assert_eq!(pending, vec![PendingNumber { row: 1_048_575, col: 0, source: NumberSource::Bits(7) }]);
    let (cells, _) = saved(sheet);
    assert_eq!(cells.matches("<c ").count(), 1);
    assert!(cells.contains(r#"<c r="B1048576"><v>1</v></c>"#));
}

#[test]
fn text_is_copied_verbatim() {
    assert_eq!(
        render(&LogicalType::Utf8, &utf8("  a <b> & c\u{e9} ")),
        Some(CellValue::Text("  a <b> & c\u{e9} ".to_string()))
    );
    let (out, cells, _, _) = run(vec![Ok(single(LogicalType::Utf8, vec![utf8(""), utf8("x")]))]);
    assert!(out.is_ok());
    // An empty text leaves no cell.
    assert!(!cells.contains(r#"r="A2""#));
    assert!(cells.contains(r#"<c r="A3" t="s"><v>1</v></c>"#));
}

#[test]
fn row_past_the_grid_is_a_write_error() {
    let mut sheet = Worksheet::new();
    let mut pending = Vec::new();
    let mut cursor: u32 = 1_048_575;
    let batch = single(LogicalType::Int32, vec![signed(1), None, signed(3), signed(4)]);
    let out = write_batch(&mut sheet, &batch, &mut cursor, &mut pending);
    assert!(matches!(out, Err(XlsxError::RowColumnLimitError)));
    // The null row passed; the cursor stands at the refused row.
    assert_eq!(cursor, 1_048_577);
    let (cells, _) = saved(sheet);
    assert!(cells.contains(r#"<c r="A1048576"><v>1</v></c>"#));
    assert_eq!(cells.matches("<c ").count(), 1);
}

#[test]
fn text_over_the_limit_is_a_write_error() {
    let long = "x".repeat(32_768);
    let fits = "y".repeat(32_767);
    let batch = Batch::new(
        vec![
            column("a", LogicalType::Utf8, vec![utf8(&fits), utf8("kept")]),
            column("b", LogicalType::Utf8, vec![utf8("b"), utf8(&long)]),
            column("c", LogicalType::Utf8, vec![utf8("c"), utf8("lost")]),
        ],
        2,
    )
    .unwrap();
    let (out, cells, strings, _) = run(vec![Ok(batch), Ok(people())]);
    assert!(matches!(out, Err(Error::Xlsx(XlsxError::MaxStringLengthExceeded))));
    assert!(strings.contains("<t>kept</t>"));
    assert!(!strings.contains("<t>lost</t>"));
    assert!(cells.contains(r#"r="C2""#));
    assert!(cells.contains(r#"r="A3""#));
    assert!(!cells.contains(r#"r="B3""#));
    assert!(!cells.contains(r#"r="A4""#));
}

#[test]
fn column_past_the_grid_is_a_write_error_only_where_a_cell_is_due() {
    let mut columns = Vec::new();
    for _ in 0..16_385 {
        columns.push(column("", LogicalType::Int8, vec![None]));
    }
    let blank = Batch::new(columns.clone(), 1).unwrap();
    let (out, _, _, _) = run(vec![Ok(blank)]);
    assert!(out.is_ok());
    columns[16_384] = column("", LogicalType::Int8, vec![signed(1)]);
    let (out, _, _, _) = run(vec![Ok(Batch::new(columns.clone(), 1).unwrap())]);
    assert!(matches!(out, Err(Error::Xlsx(XlsxError::RowColumnLimitError))));
    columns[16_384] = column("n", LogicalType::Int8, vec![None]);
    let mut sheet = Worksheet::new();
    let mut cursor: u32 = 0;
    let out = write_header(&mut sheet, &Batch::new(columns, 1).unwrap(), &mut cursor);
    assert!(matches!(out, Err(XlsxError::RowColumnLimitError)));
    assert_eq!(cursor, 0);
}

#[test]
fn batch_needs_columns_of_one_length() {
    let a = column("a", LogicalType::Int8, vec![signed(1), signed(2)]);
    let b = column("b", LogicalType::Int8, vec![signed(1)]);
    assert!(Batch::new(vec![a.clone(), b.clone()], 2).is_none());
    assert!(Batch::new(vec![a.clone(), b], 1).is_none());
    assert!(Batch::new(vec![a.clone()], 3).is_none());
    let batch = Batch::new(vec![a.clone(), a.clone()], 2).unwrap();
    assert_eq!(batch.num_rows(), 2);
    assert_eq!(batch.num_columns(), 2);
    assert_eq!(batch.column(1), &a);
    let empty = Batch::new(Vec::new(), 4).unwrap();
    assert_eq!(empty.num_rows(), 4);
    assert_eq!(empty.num_columns(), 0);
}

#[test]
fn batch_without_columns_still_takes_its_rows() {
    let mut sheet = Worksheet::new();
    let mut pending = Vec::new();
    let mut cursor: u32 = 0;
    let empty = Batch::new(Vec::new(), 4).unwrap();
    assert!(accept(&mut sheet, &mut cursor, &mut pending, Ok(empty)).is_ok());
    assert_eq!(cursor, 5);
}

#[test]
fn message_names_the_kind_of_failure() {
    let from_sheet = Error::from(XlsxError::RowColumnLimitError);
    assert!(matches!(from_sheet, Error::Xlsx(XlsxError::RowColumnLimitError)));
    assert_eq!(from_sheet.message(), format!("Xlsx error: {}", XlsxError::RowColumnLimitError));
    assert!(from_sheet.message().len() > "Xlsx error: ".len());
    let from_source = Error::from(arrow::error::ArrowError::ParseError("truncated".to_string()));
    assert!(matches!(from_source, Error::Arrow(_)));
    assert_eq!(from_source.message(), "Arrow error: Parser error: truncated");
}

#[test]
fn label_comes_before_the_detail() {
    assert_eq!(rs_arrow_ipc_stream2x::error::labelled(true, "full"), "Xlsx error: full");
    assert_eq!(rs_arrow_ipc_stream2x::error::labelled(false, ""), "Arrow error: ");
}

#[test]
fn failed_write_surfaces_from_the_stream_as_a_sheet_error() {
    let long = "x".repeat(40_000);
    let batch = Batch::new(vec![column(&long, LogicalType::Int8, vec![signed(1)])], 1).unwrap();
    let (out, cells, _, _) = run(vec![Ok(batch)]);
    assert!(matches!(out, Err(Error::Xlsx(XlsxError::MaxStringLengthExceeded))));
    assert!(!cells.contains("<c "));
}

#[test]
fn decimal_text_is_what_display_writes() {
    for v in [0i64, 1, 9, 10, 11, 99, 100, 1000, 1_234_567_890, -1, -9, -10, -1000, i64::MAX, i64::MIN, i64::MIN + 1] {
        assert_eq!(decimal_text(v), format!("{}", v));
    }
    assert_eq!(decimal_text(1000), "1000");
    assert_eq!(decimal_text(-9_223_372_036_854_775_808), "-9223372036854775808");
}

#[test]
fn column_beyond_every_index_is_off_the_grid_too() {
    let mut columns = Vec::new();
    for _ in 0..65_537 {
        columns.push(column("", LogicalType::Int8, vec![None]));
    }
    let (out, cells, _, _) = run(vec![Ok(Batch::new(columns.clone(), 1).unwrap())]);
    assert!(out.is_ok());
    assert!(!cells.contains("<c "));
    columns[65_536] = column("", LogicalType::Int8, vec![signed(1)]);
    let (out, cells, _, _) = run(vec![Ok(Batch::new(columns.clone(), 1).unwrap())]);
    assert!(matches!(out, Err(Error::Xlsx(XlsxError::RowColumnLimitError))));
    assert!(!cells.contains("<c "));
    columns[65_536] = column("", LogicalType::Float64, vec![Some(Value::Float(0))]);
    let (out, _, _, pending) = run(vec![Ok(Batch::new(columns.clone(), 1).unwrap())]);
    assert!(matches!(out, Err(Error::Xlsx(XlsxError::RowColumnLimitError))));
    assert!(pending.is_empty());
    columns[65_536] = column("n", LogicalType::Int8, vec![None]);
    let (out, cells, _, _) = run(vec![Ok(Batch::new(columns, 1).unwrap())]);
    assert!(matches!(out, Err(Error::Xlsx(XlsxError::RowColumnLimitError))));
    assert!(!cells.contains("<c "));
}

#[test]
fn fractions_of_a_second_are_kept_in_a_date_time() {
    let batch = single(LogicalType::Date64, vec![signed(-1), signed(43_200_500)]);
    let (out, cells, _, _) = run(vec![Ok(batch)]);
    assert!(out.is_ok());
    assert!(cells.contains(r#"<c r="A2"><v>25568.99999998"#));
    assert!(cells.contains(r#"<c r="A3"><v>25569.5000057"#));
}

#[test]
fn date_time_in_a_leap_second_gets_a_date_time_cell() {
    let moment = chrono::NaiveDate::from_ymd_opt(2016, 12, 31)
        .unwrap()
        .and_hms_milli_opt(23, 59, 59, 1_500)
        .unwrap();
    let mut sheet = Worksheet::new();
    let out = rs_arrow_ipc_stream2x::sheet::write_cell(&mut sheet, 0, 0, &CellValue::DateTime(moment));
    assert!(out.is_ok());
    let (cells, _) = saved(sheet);
    assert_eq!(cells.matches("<c ").count(), 1);
    assert!(cells.contains(r#"<c r="A1"><v>4273"#));
    let mut sheet = Worksheet::new();
    let out = rs_arrow_ipc_stream2x::sheet::write_cell(&mut sheet, 1_048_576, 0, &CellValue::DateTime(moment));
    assert!(matches!(out, Err(XlsxError::RowColumnLimitError)));
}
