use std::time::Duration;
use wmi::wql::{
    associators_query, build_notification_query, build_query, quote_and_escape_wql_str,
    validate_identifier, validate_struct_name_and_fields, FilterValue, IdentifierError,
};

fn all_filters(class_name: &'static str) -> Vec<(String, FilterValue)> {
    // Given in an order other than the one the clause lists them in.
    vec![
        ("C9".to_owned(), FilterValue::StringLike("d".to_owned())),
        ("C3".to_owned(), FilterValue::Number(42)),
        ("C1".to_owned(), FilterValue::Str("a")),
        ("C5".to_owned(), FilterValue::String(r#"with " and \ chars"#.to_owned())),
        ("C2".to_owned(), FilterValue::String("b".to_owned())),
        ("C4".to_owned(), FilterValue::Bool(false)),
        ("C6".to_owned(), FilterValue::IsA("Class")),
        ("C7".to_owned(), FilterValue::is_a(class_name).unwrap()),
        ("C8".to_owned(), FilterValue::StrLike("c")),
    ]
}

#[test]
fn it_builds_correct_query_without_filters() {
    let query = build_query("Win32_OperatingSystem", &["Caption"], None);
    let select_part = r#"SELECT Caption FROM Win32_OperatingSystem "#.to_owned();

    assert_eq!(query, select_part);
}

#[test]
fn it_builds_correct_notification_query_without_filters() {
    let query = build_notification_query("Win32_ProcessStartTrace", None, None);
    let select_part = r#"SELECT * FROM Win32_ProcessStartTrace "#.to_owned();

    assert_eq!(query, select_part);
}

#[test]
fn it_builds_correct_query() {
    let filters = all_filters("Win32_OperatingSystem");

    let query = build_query("Win32_OperatingSystem", &["Caption"], Some(&filters));
    let select_part = r#"SELECT Caption FROM Win32_OperatingSystem "#.to_owned();
    let where_part = r#"WHERE C1 = "a" AND C2 = "b" AND C3 = 42 AND C4 = false AND C5 = "with \" and \\ chars" AND C6 ISA "Class" AND C7 ISA "Win32_OperatingSystem" AND C8 LIKE "c" AND C9 LIKE "d""#;

    assert_eq!(query, select_part + where_part);
}

#[test]
fn it_builds_correct_notification_query() {
    let filters = all_filters("Win32_ProcessStartTrace");
    let within = format!("{}", Duration::from_secs_f64(10.5).as_secs_f64());

    let query = build_notification_query("Win32_ProcessStartTrace", Some(&filters), Some(within.as_str()));
    let select_part = r#"SELECT * FROM Win32_ProcessStartTrace "#.to_owned();
    let within_part = r#"WITHIN 10.5 "#;
    let where_part = r#"WHERE C1 = "a" AND C2 = "b" AND C3 = 42 AND C4 = false AND C5 = "with \" and \\ chars" AND C6 ISA "Class" AND C7 ISA "Win32_ProcessStartTrace" AND C8 LIKE "c" AND C9 LIKE "d""#;

    assert_eq!(query, select_part + within_part + where_part);
}

#[test]
fn query_where_clause_does_not_depend_on_filter_order() {
    let mut reversed = all_filters("Win32_OperatingSystem");
    reversed.reverse();
    let a = build_query("Win32_OperatingSystem", &["Caption", "Name"], Some(&all_filters("Win32_OperatingSystem")));
    let b = build_query("Win32_OperatingSystem", &["Caption", "Name"], Some(&reversed));
    assert_eq!(a, b);
    assert!(a.starts_with("SELECT Caption, Name FROM Win32_OperatingSystem WHERE C1 = "));
}

#[test]
fn query_with_empty_filters_has_no_where_clause() {
    let query = build_query("Win32_Process", &["Name", "ProcessId"], Some(&[]));
    assert_eq!(query, "SELECT Name, ProcessId FROM Win32_Process ");
}

#[test]
fn query_number_filters_are_decimal() {
    let filters = vec![
        ("A".to_owned(), FilterValue::Number(-9223372036854775808)),
        ("B".to_owned(), FilterValue::Bool(true)),
        ("C".to_owned(), FilterValue::from(7i64)),
    ];
    let query = build_query("X", &["A"], Some(&filters));
    assert_eq!(query, "SELECT A FROM X WHERE A = -9223372036854775808 AND B = true AND C = 7");
}

#[test]
fn query_filter_value_conversions() {
    assert_eq!(FilterValue::from("a"), FilterValue::Str("a"));
    assert_eq!(FilterValue::from("b".to_owned()), FilterValue::String("b".to_owned()));
    assert_eq!(FilterValue::from(3i64), FilterValue::Number(3));
    assert_eq!(FilterValue::from(false), FilterValue::Bool(false));
}

#[test]
fn query_is_a_rejects_bad_class_names() {
    assert_eq!(FilterValue::is_a("Evil\"Class"), Err(IdentifierError::BadChar));
    assert_eq!(FilterValue::is_a("1Class"), Err(IdentifierError::BadStart));
    assert_eq!(FilterValue::is_a(""), Err(IdentifierError::Empty));
}

#[test]
fn query_associators() {
    let q = associators_query(r#"\\.\root\cimv2:Win32_DiskDrive.DeviceID="X""#, "Win32_DiskDriveToDiskPartition", "Win32_DiskPartition");
    assert_eq!(
        q,
        r#"ASSOCIATORS OF {\\.\root\cimv2:Win32_DiskDrive.DeviceID="X"} WHERE AssocClass = Win32_DiskDriveToDiskPartition ResultClass = Win32_DiskPartition"#
    );
}

#[test]
fn quote_and_escape_wql_str_escapes_quotes_and_backslashes() {
    assert_eq!(quote_and_escape_wql_str(r#"C:\Path\With"In Name"#), r#""C:\\Path\\With\"In Name""#);
    assert_eq!(quote_and_escape_wql_str(""), r#""""#);
    assert_eq!(quote_and_escape_wql_str("PlayStation™Now"), "\"PlayStation™Now\"");
}

#[test]
fn it_fails_for_sqli() {
    validate_struct_name_and_fields("Evil\\Struct\\Name", &[]).unwrap_err();
    validate_struct_name_and_fields("EvilFieldName", &["Evil\"Field\"Name"]).unwrap_err();
}

#[test]
fn identifier_rules() {
    assert_eq!(validate_identifier("Win32_OperatingSystem"), Ok(()));
    assert_eq!(validate_identifier("_x9"), Ok(()));
    assert_eq!(validate_identifier("Ünïcode"), Ok(()));
    assert_eq!(validate_identifier(""), Err(IdentifierError::Empty));
    assert_eq!(validate_identifier("9x"), Err(IdentifierError::BadStart));
    assert_eq!(validate_identifier("a b"), Err(IdentifierError::BadChar));
    assert_eq!(
        validate_struct_name_and_fields("Win32_OperatingSystem", &["Caption", "Name"]),
        Ok(())
    );
    assert_eq!(validate_struct_name_and_fields("Ok", &["Fine", "", "9"]), Err(IdentifierError::Empty));
    assert_eq!(
        IdentifierError::BadStart.message(),
        "An identifier must start with '_' or an alphabetic character"
    );
}

#[test]
fn query_selects_fields_separated_by_comma_and_space() {
    let query = build_query("Win32_OperatingSystem", &["Caption", "Debug"], None);
    assert_eq!(query, "SELECT Caption, Debug FROM Win32_OperatingSystem ");
}
