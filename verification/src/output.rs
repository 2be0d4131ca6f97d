//! Which rows and columns the table rendering of a JSON result shows.
use crate::text::{owned, str_eq};
use vstd::prelude::*;

verus! {

/// A JSON value, with numbers kept as their text.
#[derive(Debug)]
pub enum JsonValue {
    Null,
    Bool(bool),
    Number(String),
    String(String),
    Array(Vec<JsonValue>),
    Object(Vec<(String, JsonValue)>),
}

/// The value stored under `key`, taking the first entry with that key.
pub open spec fn lookup(entries: Seq<(String, JsonValue)>, key: Seq<char>) -> Option<JsonValue>
    decreases entries.len(),
{
    if entries.len() == 0 {
        None
    } else if entries[0].0@ == key {
        Some(entries[0].1)
    } else {
        lookup(entries.drop_first(), key)
    }
}

/// The keys under which a result holds its list of resources.
pub open spec fn collection_keys() -> Seq<Seq<char>> {
    seq![
        "plans"@,
        "accounts"@,
        "category_groups"@,
        "categories"@,
        "payees"@,
        "payee_locations"@,
        "months"@,
        "money_movements"@,
        "money_movement_groups"@,
        "transactions"@,
        "scheduled_transactions"@,
    ]
}

/// The columns a table may show, in order.
pub open spec fn column_keys() -> Seq<Seq<char>> {
    seq![
        "id"@,
        "name"@,
        "date"@,
        "month"@,
        "type"@,
        "account_name"@,
        "payee_name"@,
        "category_name"@,
        "amount"@,
        "balance"@,
        "budgeted"@,
        "activity"@,
        "cleared"@,
        "approved"@,
        "on_budget"@,
        "closed"@,
        "deleted"@,
        "frequency"@,
        "server_knowledge"@,
        "source"@,
    ]
}

/// The first of `keys` under which the object holds an array, as that array.
pub open spec fn first_collection(entries: Seq<(String, JsonValue)>, keys: Seq<Seq<char>>) -> Option<
    Seq<JsonValue>,
>
    decreases keys.len(),
{
    if keys.len() == 0 {
        None
    } else {
        match lookup(entries, keys[0]) {
            Some(JsonValue::Array(rows)) => Some(rows@),
            _ => first_collection(entries, keys.drop_first()),
        }
    }
}

/// The rows of a result: an array's items; an object's first resource list; else the
/// value alone.
pub open spec fn table_rows_spec(value: JsonValue) -> Seq<JsonValue> {
    match value {
        JsonValue::Array(rows) => rows@,
        JsonValue::Object(entries) => match first_collection(entries@, collection_keys()) {
            Some(rows) => rows,
            None => seq![value],
        },
        _ => seq![value],
    }
}

/// A name under which the API returns a list of resources.
pub open spec fn is_documented_list_key(key: Seq<char>) -> bool {
    ||| key == "plans"@
    ||| key == "accounts"@
    ||| key == "category_groups"@
    ||| key == "categories"@
    ||| key == "payees"@
    ||| key == "payee_locations"@
    ||| key == "months"@
    ||| key == "money_movements"@
    ||| key == "money_movement_groups"@
    ||| key == "transactions"@
    ||| key == "scheduled_transactions"@
}

proof fn lemma_only_array_is_found(
    entries: Seq<(String, JsonValue)>,
    keys: Seq<Seq<char>>,
    key: Seq<char>,
    rows: Vec<JsonValue>,
)
    requires
        keys.contains(key),
        lookup(entries, key) == Some(JsonValue::Array(rows)),
        forall|i: int|
            0 <= i < keys.len() && keys[i] != key ==> !(lookup(entries, #[trigger] keys[i]) matches Some(
                JsonValue::Array(_),
            )),
    ensures
        first_collection(entries, keys) == Some(rows@),
    decreases keys.len(),
{
    if keys[0] != key {
        assert(!(lookup(entries, keys[0]) matches Some(JsonValue::Array(_))));
        let i = choose|i: int| 0 <= i < keys.len() && keys[i] == key;
        assert(keys.drop_first()[i - 1] == key);
        assert forall|j: int|
            0 <= j < keys.drop_first().len() && keys.drop_first()[j] != key implies !(lookup(
            entries,
            #[trigger] keys.drop_first()[j],
        ) matches Some(JsonValue::Array(_))) by {
            assert(keys.drop_first()[j] == keys[j + 1]);
        }
        lemma_only_array_is_found(entries, keys.drop_first(), key, rows);
    }
}

/// The rows of an object holding one documented resource list (`plans`, `accounts`,
/// `category_groups`, `categories`, `payees`, `payee_locations`, `months`,
/// `money_movements`, `money_movement_groups`, `transactions` or
/// `scheduled_transactions`) as an array, and no other, are that array's items, however
/// many other fields it has.
pub proof fn law_resource_list_is_the_rows(
    entries: Vec<(String, JsonValue)>,
    key: Seq<char>,
    rows: Vec<JsonValue>,
)
    requires
        is_documented_list_key(key),
        lookup(entries@, key) == Some(JsonValue::Array(rows)),
        forall|other: Seq<char>|
            is_documented_list_key(other) && other != key ==> !(#[trigger] lookup(entries@, other) matches Some(
                JsonValue::Array(_),
            )),
    ensures
        table_rows_spec(JsonValue::Object(entries)) == rows@,
{
    let keys = collection_keys();
    assert(keys[0] == "plans"@ && keys[1] == "accounts"@ && keys[2] == "category_groups"@);
    assert(keys[3] == "categories"@ && keys[4] == "payees"@ && keys[5] == "payee_locations"@);
    assert(keys[6] == "months"@ && keys[7] == "money_movements"@);
    assert(keys[8] == "money_movement_groups"@ && keys[9] == "transactions"@);
    assert(keys[10] == "scheduled_transactions"@ && keys.len() == 11);
    assert(keys.contains(key)) by {
        if key == "plans"@ {
            assert(keys[0] == key);
        } else if key == "accounts"@ {
            assert(keys[1] == key);
        } else if key == "category_groups"@ {
            assert(keys[2] == key);
        } else if key == "categories"@ {
            assert(keys[3] == key);
        } else if key == "payees"@ {
            assert(keys[4] == key);
        } else if key == "payee_locations"@ {
            assert(keys[5] == key);
        } else if key == "months"@ {
            assert(keys[6] == key);
        } else if key == "money_movements"@ {
            assert(keys[7] == key);
        } else if key == "money_movement_groups"@ {
            assert(keys[8] == key);
        } else if key == "transactions"@ {
            assert(keys[9] == key);
        } else {
            assert(keys[10] == key);
        }
    }
    assert forall|i: int| 0 <= i < keys.len() && keys[i] != key implies !(lookup(
        entries@,
        #[trigger] keys[i],
    ) matches Some(JsonValue::Array(_))) by {
        assert(is_documented_list_key(keys[i]));
    }
    lemma_only_array_is_found(entries@, keys, key, rows);
}

/// Some row is an object with this key.
pub open spec fn column_present(rows: Seq<JsonValue>, key: Seq<char>) -> bool {
    exists|i: int|
        0 <= i < rows.len() && (#[trigger] rows[i] matches JsonValue::Object(entries) && lookup(
            entries@,
            key,
        ) is Some)
}

/// The columns, in order, that some row has.
pub open spec fn present_columns(rows: Seq<JsonValue>, keys: Seq<Seq<char>>) -> Seq<Seq<char>>
    decreases keys.len(),
{
    if keys.len() == 0 {
        Seq::empty()
    } else {
        let rest = present_columns(rows, keys.drop_last());
        if column_present(rows, keys.last()) {
            rest.push(keys.last())
        } else {
            rest
        }
    }
}

/// The rows of a result, borrowed from it.
pub enum TableRows<'a> {
    Many(&'a Vec<JsonValue>),
    One(&'a JsonValue),
}

pub open spec fn rows_view(rows: TableRows) -> Seq<JsonValue> {
    match rows {
        TableRows::Many(items) => items@,
        TableRows::One(item) => seq![*item],
    }
}

impl<'a> TableRows<'a> {
    pub fn len(&self) -> (result: usize)
        ensures
            result == rows_view(*self).len(),
    {
        match self {
            TableRows::Many(items) => items.len(),
            TableRows::One(_) => 1,
        }
    }

    pub fn get(&self, index: usize) -> (result: &'a JsonValue)
        requires
            index < rows_view(*self).len(),
        ensures
            *result == rows_view(*self)[index as int],
    {
        match self {
            TableRows::Many(items) => &items[index],
            TableRows::One(item) => item,
        }
    }
}

/// The value an object stores under `key`.
pub fn lookup_key<'a>(entries: &'a Vec<(String, JsonValue)>, key: &str) -> (result: Option<
    &'a JsonValue,
>)
    ensures
        match lookup(entries@, key@) {
            Some(v) => result matches Some(r) && *r == v,
            None => result is None,
        },
{
    let mut i: usize = 0;
    assert(entries@.skip(0) == entries@);
    while i < entries.len()
        invariant
            i <= entries@.len(),
            lookup(entries@, key@) == lookup(entries@.skip(i as int), key@),
        decreases entries@.len() - i,
    {
        assert(entries@.skip(i as int).drop_first() == entries@.skip(i + 1));
        if str_eq(entries[i].0.as_str(), key) {
            return Some(&entries[i].1);
        }
        i = i + 1;
    }
    None
}

fn collection_key(index: usize) -> (result: &'static str)
    requires
        index < 11,
    ensures
        result@ == collection_keys()[index as int],
{
    match index {
        0 => "plans",
        1 => "accounts",
        2 => "category_groups",
        3 => "categories",
        4 => "payees",
        5 => "payee_locations",
        6 => "months",
        7 => "money_movements",
        8 => "money_movement_groups",
        9 => "transactions",
        _ => "scheduled_transactions",
    }
}

fn column_key(index: usize) -> (result: &'static str)
    requires
        index < 20,
    ensures
        result@ == column_keys()[index as int],
{
    match index {
        0 => "id",
        1 => "name",
        2 => "date",
        3 => "month",
        4 => "type",
        5 => "account_name",
        6 => "payee_name",
        7 => "category_name",
        8 => "amount",
        9 => "balance",
        10 => "budgeted",
        11 => "activity",
        12 => "cleared",
        13 => "approved",
        14 => "on_budget",
        15 => "closed",
        16 => "deleted",
        17 => "frequency",
        18 => "server_knowledge",
        _ => "source",
    }
}

/// The rows a table of this result shows.
pub fn table_rows(value: &JsonValue) -> (result: TableRows)
    ensures
        rows_view(result) == table_rows_spec(*value),
{
    match value {
        JsonValue::Array(rows) => TableRows::Many(rows),
        JsonValue::Object(entries) => {
            let mut i: usize = 0;
            let ghost keys = collection_keys();
            assert(keys.skip(0) == keys);
            while i < 11
                invariant
                    i <= 11,
                    keys == collection_keys(),
                    *value == JsonValue::Object(*entries),
                    first_collection(entries@, keys) == first_collection(
                        entries@,
                        keys.skip(i as int),
                    ),
                decreases 11 - i,
            {
                let key = collection_key(i);
                assert(keys.skip(i as int).drop_first() == keys.skip(i + 1));
                assert(keys.skip(i as int)[0] == keys[i as int]);
                match lookup_key(entries, key) {
                    Some(JsonValue::Array(rows)) => {
                        return TableRows::Many(rows);
                    },
                    _ => {},
                }
                i = i + 1;
            }
            assert(keys.skip(11) =~= Seq::<Seq<char>>::empty());
            TableRows::One(value)
        },
        _ => TableRows::One(value),
    }
}

/// Whether some row is an object with this key.
fn has_column(rows: &TableRows, key: &str) -> (result: bool)
    ensures
        result == column_present(rows_view(*rows), key@),
{
    let n = rows.len();
    let mut i: usize = 0;
    while i < n
        invariant
            n == rows_view(*rows).len(),
            i <= n,
            forall|k: int|
                0 <= k < i ==> !(#[trigger] rows_view(*rows)[k] matches JsonValue::Object(entries)
                    && lookup(entries@, key@) is Some),
        decreases n - i,
    {
        let row = rows.get(i);
        match row {
            JsonValue::Object(entries) => {
                if lookup_key(entries, key).is_some() {
                    assert(rows_view(*rows)[i as int] matches JsonValue::Object(e) && lookup(
                        e@,
                        key@,
                    ) is Some);
                    return true;
                }
            },
            _ => {},
        }
        i = i + 1;
    }
    false
}

/// The columns of a table of these rows: those of the known columns that some row has,
/// in the known order.
pub fn table_columns(rows: &TableRows) -> (result: Vec<&'static str>)
    ensures
        result@.map_values(|k: &'static str| k@) == present_columns(rows_view(*rows), column_keys()),
{
    let mut result: Vec<&'static str> = Vec::new();
    let mut i: usize = 0;
    let ghost keys = column_keys();
    while i < 20
        invariant
            i <= 20,
            keys == column_keys(),
            result@.map_values(|k: &'static str| k@) == present_columns(
                rows_view(*rows),
                keys.take(i as int),
            ),
        decreases 20 - i,
    {
        let key = column_key(i);
        let ghost before = result@;
        assert(keys.take(i + 1).drop_last() == keys.take(i as int));
        assert(keys.take(i + 1).last() == keys[i as int]);
        if has_column(rows, key) {
            result.push(key);
            assert(result@.map_values(|k: &'static str| k@) =~= before.map_values(
                |k: &'static str| k@,
            ).push(key@));
        }
        i = i + 1;
    }
    assert(keys.take(20) == keys);
    result
}

/// The header of a table of these rows: its columns, or the single column `value`
/// where no row has a known column (each row is then shown whole).
pub fn table_header(rows: &TableRows) -> (result: Vec<&'static str>)
    ensures
        ({
            let columns = present_columns(rows_view(*rows), column_keys());
            &&& columns.len() > 0 ==> result@.map_values(|k: &'static str| k@) == columns
            &&& columns.len() == 0 ==> result@.map_values(|k: &'static str| k@) == seq!["value"@]
        }),
{
    let columns = table_columns(rows);
    if columns.len() > 0 {
        columns
    } else {
        let mut header: Vec<&'static str> = Vec::new();
        header.push("value");
        assert(header@.map_values(|k: &'static str| k@) =~= seq!["value"@]);
        header
    }
}

/// The text of a table cell holding a scalar: empty for `null`, a string as it is, a
/// boolean as `true` or `false`, a number as written. Arrays and objects have no scalar
/// text (`None`); the table shows them as compact JSON.
pub fn scalar_text(value: &JsonValue) -> (result: Option<String>)
    ensures
        match *value {
            JsonValue::Null => result matches Some(t) && t@ == Seq::<char>::empty(),
            JsonValue::String(s) => result == Some(s),
            JsonValue::Bool(b) => result matches Some(t) && t@ == (if b {
                "true"@
            } else {
                "false"@
            }),
            JsonValue::Number(n) => result == Some(n),
            _ => result is None,
        },
{
    match value {
        JsonValue::Null => Some(String::new()),
        JsonValue::String(s) => Some(s.clone()),
        JsonValue::Bool(b) => {
            if *b {
                Some(owned("true"))
            } else {
                Some(owned("false"))
            }
        },
        JsonValue::Number(n) => Some(n.clone()),
        _ => None,
    }
}

} // verus!
