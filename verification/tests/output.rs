use ynab::output::{lookup_key, scalar_text, table_columns, table_header, table_rows, JsonValue};

const ID: &str = "00000000-0000-0000-0000-000000000002";

fn text(value: &str) -> JsonValue {
    JsonValue::String(value.to_owned())
}

fn object(entries: Vec<(&str, JsonValue)>) -> JsonValue {
    JsonValue::Object(entries.into_iter().map(|(k, v)| (k.to_owned(), v)).collect())
}

#[test]
fn table_renderer_is_selected_without_changing_value() {
    let value = JsonValue::Array(vec![object(vec![("id", text(ID)), ("name", text("Acme"))])]);
    let rows = table_rows(&value);
    assert_eq!(rows.len(), 1);
    assert!(matches!(rows.get(0), JsonValue::Object(entries) if matches!(&entries[1].1, JsonValue::String(s) if s == "Acme")));
    assert_eq!(table_columns(&rows), vec!["id", "name"]);
}

#[test]
fn table_renderer_extracts_collection_rows() {
    let value = object(vec![
        (
            "accounts",
            JsonValue::Array(vec![object(vec![
                ("id", text(ID)),
                ("name", text("Checking")),
                ("balance", JsonValue::Number("1000".into())),
            ])]),
        ),
        ("server_knowledge", JsonValue::Number("3".into())),
    ]);
    let rows = table_rows(&value);
    assert_eq!(rows.len(), 1);
    let columns = table_columns(&rows);
    assert_eq!(columns, vec!["id", "name", "balance"]);
    assert!(!columns.contains(&"server_knowledge"));
}

#[test]
fn single_objects_and_scalars_are_one_row() {
    let user = object(vec![("id", text(ID))]);
    let rows = table_rows(&user);
    assert_eq!(rows.len(), 1);
    assert_eq!(table_columns(&rows), vec!["id"]);
    let scalar = JsonValue::Bool(true);
    let rows = table_rows(&scalar);
    assert_eq!(rows.len(), 1);
    assert!(table_columns(&rows).is_empty());
    let other = object(vec![("stored", JsonValue::Bool(true))]);
    assert!(table_columns(&table_rows(&other)).is_empty());
}

#[test]
fn first_listed_collection_wins() {
    let value = object(vec![
        ("transactions", JsonValue::Array(vec![object(vec![("amount", JsonValue::Number("1".into()))])])),
        ("accounts", JsonValue::Array(vec![object(vec![("name", text("A"))]), object(vec![("name", text("B"))])])),
        ("plans", JsonValue::Null),
    ]);
    let rows = table_rows(&value);
    assert_eq!(rows.len(), 2);
    assert_eq!(table_columns(&rows), vec!["name"]);
}

#[test]
fn cells_show_scalars_as_text() {
    assert_eq!(scalar_text(&JsonValue::Null).as_deref(), Some(""));
    assert_eq!(scalar_text(&text("Acme")).as_deref(), Some("Acme"));
    assert_eq!(scalar_text(&JsonValue::Bool(false)).as_deref(), Some("false"));
    assert_eq!(scalar_text(&JsonValue::Number("-1250".into())).as_deref(), Some("-1250"));
    assert_eq!(scalar_text(&JsonValue::Array(Vec::new())), None);
    assert_eq!(scalar_text(&object(vec![("id", text(ID))])), None);
}

#[test]
fn lookup_takes_the_first_entry_with_the_key() {
    let entries = vec![
        ("name".to_owned(), text("first")),
        ("name".to_owned(), text("second")),
    ];
    assert!(matches!(lookup_key(&entries, "name"), Some(JsonValue::String(s)) if s == "first"));
    assert!(lookup_key(&entries, "id").is_none());
}

#[test]
fn header_is_the_columns_or_value() {
    let value = JsonValue::Array(vec![object(vec![("name", text("A"))])]);
    assert_eq!(table_header(&table_rows(&value)), vec!["name"]);
    let scalar = JsonValue::Bool(true);
    assert_eq!(table_header(&table_rows(&scalar)), vec!["value"]);
}
