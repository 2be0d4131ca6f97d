use ynab::reads::{read_request, ReadCommand};
use ynab::endpoints::TransactionScope;
use ynab::dates::{CalendarDate, PlanMonth};
use ynab::endpoints::{
    accounts_create, accounts_get, accounts_list, categories_create, categories_get,
    categories_get_month, categories_list, categories_update, categories_update_month,
    category_groups_create, category_groups_update, money_movement_groups_list,
    money_movement_groups_list_for_month, money_movements_list, money_movements_list_for_month,
    months_get, months_list, payee_locations_get, payee_locations_list,
    payee_locations_list_for_payee, payees_create, payees_get, payees_list, payees_update,
    plans_get, plans_list, plans_settings, scheduled_transactions_create,
    scheduled_transactions_delete, scheduled_transactions_get, scheduled_transactions_list,
    scheduled_transactions_update, transactions_create, transactions_delete, transactions_get,
    transactions_import, transactions_list, transactions_list_for_account,
    transactions_list_for_category, transactions_list_for_month, transactions_list_for_payee,
    transactions_update, transactions_update_bulk, user_get, ApiRequest, Body, QueryValue,
};
use ynab::ids::{PlanId, Uuid};
use ynab::models::{
    CreateTransactions, ExistingTransaction, NewCategory, NewTransaction, Nullable, PostPayee,
    SaveAccount, SaveAccountType, SaveCategory, SaveCategoryGroup, SaveMonthCategory, SavePayee,
    SaveScheduledTransaction, SaveTransactionWithIdOrImportId, ScheduledTransactionFrequency,
    TransactionFilters, TransactionType,
};
use ynab::money::{Milliunits, ServerKnowledge};
use ynab::retry::Method;

const PLAN: &str = "aaaaaaaa-aaaa-aaaa-aaaa-aaaaaaaaaaaa";
const ACCOUNT: &str = "bbbbbbbb-bbbb-bbbb-bbbb-bbbbbbbbbbbb";
const CATEGORY: &str = "cccccccc-cccc-cccc-cccc-cccccccccccc";
const GROUP: &str = "dddddddd-dddd-dddd-dddd-dddddddddddd";
const PAYEE: &str = "eeeeeeee-eeee-eeee-eeee-eeeeeeeeeeee";
const LOCATION: &str = "ffffffff-ffff-ffff-ffff-ffffffffffff";
const TRANSACTION: &str = "11111111-1111-1111-1111-111111111111";
const SCHEDULED: &str = "22222222-2222-2222-2222-222222222222";

fn id(value: &str) -> Uuid {
    Uuid::parse_str(value).unwrap()
}

fn plan_id() -> PlanId {
    PlanId::Id(id(PLAN))
}

fn month() -> PlanMonth {
    PlanMonth::new(CalendarDate::new(2026, 1, 1).unwrap()).unwrap()
}

fn date(year: i32, month: u8, day: u8) -> CalendarDate {
    CalendarDate::new(year, month, day).unwrap()
}

/// The request's path under the API's `/v1` base.
fn route(request: &ApiRequest) -> String {
    format!("/v1/{}", request.segments.join("/"))
}

/// The request's query as sorted text pairs.
fn query(request: &ApiRequest) -> Vec<(String, String)> {
    let mut pairs: Vec<(String, String)> = request
        .query
        .iter()
        .map(|pair| {
            let value = match &pair.value {
                QueryValue::Text(text) => text.clone(),
                QueryValue::Number(number) => number.to_string(),
                QueryValue::Flag(flag) => flag.to_string(),
            };
            (pair.name.clone(), value)
        })
        .collect();
    pairs.sort();
    pairs
}

fn pairs(expected: &[(&str, &str)]) -> Vec<(String, String)> {
    let mut pairs: Vec<(String, String)> = expected
        .iter()
        .map(|(key, value)| ((*key).to_owned(), (*value).to_owned()))
        .collect();
    pairs.sort();
    pairs
}

fn assert_request(
    request: &ApiRequest,
    method: Method,
    expected_route: &str,
    expected_query: &[(&str, &str)],
) {
    assert_eq!(request.method, method);
    assert_eq!(route(request), expected_route);
    assert_eq!(query(request), pairs(expected_query));
}

#[test]
fn user_and_plan_endpoints_match_contract() {
    let user = user_get();
    assert_request(&user, Method::Get, "/v1/user", &[]);
    assert!(matches!(user.body, Body::Empty));

    let plans = plans_list(true);
    assert_request(&plans, Method::Get, "/v1/plans", &[("include_accounts", "true")]);

    let plan = plans_get(&plan_id(), Some(ServerKnowledge(7)));
    assert_request(
        &plan,
        Method::Get,
        &format!("/v1/plans/{PLAN}"),
        &[("last_knowledge_of_server", "7")],
    );

    let settings = plans_settings(&plan_id());
    assert_request(&settings, Method::Get, &format!("/v1/plans/{PLAN}/settings"), &[]);
}

#[test]
fn account_endpoints_match_contract() {
    let list_route = format!("/v1/plans/{PLAN}/accounts");
    let list = accounts_list(&plan_id(), Some(ServerKnowledge(3)));
    assert_request(&list, Method::Get, &list_route, &[("last_knowledge_of_server", "3")]);

    let get = accounts_get(&plan_id(), id(ACCOUNT));
    assert_request(&get, Method::Get, &format!("{list_route}/{ACCOUNT}"), &[]);

    let request = SaveAccount {
        name: "Checking".to_owned(),
        account_type: SaveAccountType::from_str(SaveAccountType::CHECKING),
        balance: Milliunits(0),
    };
    let create = accounts_create(&plan_id(), &request);
    assert_request(&create, Method::Post, &list_route, &[]);
    match create.body {
        Body::PostAccount(wrapper) => {
            assert_eq!(wrapper.account.name, "Checking");
            assert_eq!(wrapper.account.account_type.0, "checking");
            assert_eq!(wrapper.account.balance, Milliunits(0));
        }
        other => panic!("unexpected body {other:?}"),
    }
}

#[test]
fn category_and_group_endpoints_match_contract() {
    let route_text = format!("/v1/plans/{PLAN}/categories");
    let list = categories_list(&plan_id(), Some(ServerKnowledge(4)));
    assert_request(&list, Method::Get, &route_text, &[("last_knowledge_of_server", "4")]);

    let get = categories_get(&plan_id(), id(CATEGORY));
    assert_request(&get, Method::Get, &format!("{route_text}/{CATEGORY}"), &[]);

    let new_category = NewCategory {
        name: Some("Food".to_owned()),
        note: Nullable::Null,
        category_group_id: id(GROUP),
        goal_target: Nullable::Omitted,
        goal_target_date: Nullable::Omitted,
        goal_needs_whole_amount: Nullable::Omitted,
        goal_frequency: None,
    };
    let create = categories_create(&plan_id(), &new_category);
    assert_request(&create, Method::Post, &route_text, &[]);
    match create.body {
        Body::PostCategory(wrapper) => {
            assert_eq!(wrapper.category.name.as_deref(), Some("Food"));
            assert_eq!(wrapper.category.note, Nullable::Null);
            assert_eq!(wrapper.category.category_group_id, id(GROUP));
            assert!(wrapper.category.goal_target.is_omitted());
        }
        other => panic!("unexpected body {other:?}"),
    }

    let save_category = SaveCategory {
        name: Nullable::Value("Groceries".to_owned()),
        ..SaveCategory::default()
    };
    let update = categories_update(&plan_id(), id(CATEGORY), &save_category);
    assert_request(&update, Method::Patch, &format!("{route_text}/{CATEGORY}"), &[]);
    match update.body {
        Body::PatchCategory(wrapper) => {
            assert_eq!(wrapper.category.name, Nullable::Value("Groceries".to_owned()));
            assert!(wrapper.category.note.is_omitted());
            assert_eq!(wrapper.category.category_group_id, None);
        }
        other => panic!("unexpected body {other:?}"),
    }

    let month_route = format!("/v1/plans/{PLAN}/months/2026-01-01/categories/{CATEGORY}");
    let get_month = categories_get_month(&plan_id(), month(), id(CATEGORY));
    assert_request(&get_month, Method::Get, &month_route, &[]);

    let assign = SaveMonthCategory { budgeted: Milliunits(25_000) };
    let update_month = categories_update_month(&plan_id(), month(), id(CATEGORY), &assign);
    assert_request(&update_month, Method::Patch, &month_route, &[]);
    match update_month.body {
        Body::PatchMonthCategory(wrapper) => {
            assert_eq!(wrapper.category.budgeted, Milliunits(25_000))
        }
        other => panic!("unexpected body {other:?}"),
    }

    let groups = format!("/v1/plans/{PLAN}/category_groups");
    let group_request = SaveCategoryGroup { name: "Wants".to_owned() };
    let create_group = category_groups_create(&plan_id(), &group_request);
    assert_request(&create_group, Method::Post, &groups, &[]);
    assert!(matches!(
        create_group.body,
        Body::CategoryGroup(ref wrapper) if wrapper.category_group.name == "Wants"
    ));
    let update_group = category_groups_update(&plan_id(), id(GROUP), &group_request);
    assert_request(&update_group, Method::Patch, &format!("{groups}/{GROUP}"), &[]);
    assert!(matches!(
        update_group.body,
        Body::CategoryGroup(ref wrapper) if wrapper.category_group.name == "Wants"
    ));
}

#[test]
fn payee_and_location_endpoints_match_contract() {
    let route_text = format!("/v1/plans/{PLAN}/payees");
    let list = payees_list(&plan_id(), Some(ServerKnowledge(10)));
    assert_request(&list, Method::Get, &route_text, &[("last_knowledge_of_server", "10")]);

    let get = payees_get(&plan_id(), id(PAYEE));
    assert_request(&get, Method::Get, &format!("{route_text}/{PAYEE}"), &[]);

    let post = PostPayee { name: "Market".to_owned() };
    let create = payees_create(&plan_id(), &post);
    assert_request(&create, Method::Post, &route_text, &[]);
    assert!(matches!(create.body, Body::PostPayee(ref wrapper) if wrapper.payee.name == "Market"));

    let save = SavePayee { name: Some("Shop".to_owned()) };
    let update = payees_update(&plan_id(), id(PAYEE), &save);
    assert_request(&update, Method::Patch, &format!("{route_text}/{PAYEE}"), &[]);
    assert!(matches!(
        update.body,
        Body::PatchPayee(ref wrapper) if wrapper.payee.name.as_deref() == Some("Shop")
    ));

    let locations = format!("/v1/plans/{PLAN}/payee_locations");
    assert_request(&payee_locations_list(&plan_id()), Method::Get, &locations, &[]);
    assert_request(
        &payee_locations_get(&plan_id(), id(LOCATION)),
        Method::Get,
        &format!("{locations}/{LOCATION}"),
        &[],
    );
    assert_request(
        &payee_locations_list_for_payee(&plan_id(), id(PAYEE)),
        Method::Get,
        &format!("{route_text}/{PAYEE}/payee_locations"),
        &[],
    );
}

#[test]
fn month_and_money_movement_endpoints_match_contract() {
    let months = format!("/v1/plans/{PLAN}/months");
    assert_request(
        &months_list(&plan_id(), Some(ServerKnowledge(14))),
        Method::Get,
        &months,
        &[("last_knowledge_of_server", "14")],
    );
    assert_request(
        &months_get(&plan_id(), month()),
        Method::Get,
        &format!("{months}/2026-01-01"),
        &[],
    );
    assert_request(
        &money_movements_list(&plan_id()),
        Method::Get,
        &format!("/v1/plans/{PLAN}/money_movements"),
        &[],
    );
    assert_request(
        &money_movements_list_for_month(&plan_id(), month()),
        Method::Get,
        &format!("{months}/2026-01-01/money_movements"),
        &[],
    );
    assert_request(
        &money_movement_groups_list(&plan_id()),
        Method::Get,
        &format!("/v1/plans/{PLAN}/money_movement_groups"),
        &[],
    );
    assert_request(
        &money_movement_groups_list_for_month(&plan_id(), month()),
        Method::Get,
        &format!("{months}/2026-01-01/money_movement_groups"),
        &[],
    );
}

#[test]
fn transaction_endpoints_match_contract() {
    let filters = TransactionFilters {
        since_date: Some(date(2026, 1, 1)),
        until_date: Some(date(2026, 1, 31)),
        kind: Some(TransactionType::from_str(TransactionType::UNCATEGORIZED)),
        last_knowledge: Some(ServerKnowledge(19)),
    };
    let filter_query = [
        ("since_date", "2026-01-01"),
        ("until_date", "2026-01-31"),
        ("type", "uncategorized"),
        ("last_knowledge_of_server", "19"),
    ];
    let transactions = format!("/v1/plans/{PLAN}/transactions");
    assert_request(&transactions_list(&plan_id(), &filters), Method::Get, &transactions, &filter_query);
    assert_request(
        &transactions_list_for_account(&plan_id(), id(ACCOUNT), &filters),
        Method::Get,
        &format!("/v1/plans/{PLAN}/accounts/{ACCOUNT}/transactions"),
        &filter_query,
    );
    assert_request(
        &transactions_list_for_category(&plan_id(), id(CATEGORY), &filters),
        Method::Get,
        &format!("/v1/plans/{PLAN}/categories/{CATEGORY}/transactions"),
        &filter_query,
    );
    assert_request(
        &transactions_list_for_payee(&plan_id(), id(PAYEE), &filters),
        Method::Get,
        &format!("/v1/plans/{PLAN}/payees/{PAYEE}/transactions"),
        &filter_query,
    );
    assert_request(
        &transactions_list_for_month(&plan_id(), month(), &filters),
        Method::Get,
        &format!("/v1/plans/{PLAN}/months/2026-01-01/transactions"),
        &filter_query,
    );

    let one = ExistingTransaction {
        account_id: Some(id(ACCOUNT)),
        date: Some(date(2026, 1, 2)),
        amount: Some(Milliunits(-1250)),
        memo: Nullable::Null,
        ..ExistingTransaction::default()
    };
    let body = CreateTransactions::One(NewTransaction {
        transaction: one.clone(),
        import_id: Nullable::Omitted,
    });
    let create = transactions_create(&plan_id(), &body).unwrap();
    assert_request(&create, Method::Post, &transactions, &[]);
    match create.body {
        Body::PostTransactions(CreateTransactions::One(transaction)) => {
            assert_eq!(transaction.transaction.account_id, Some(id(ACCOUNT)));
            assert_eq!(transaction.transaction.amount, Some(Milliunits(-1250)));
            assert_eq!(transaction.transaction.memo, Nullable::Null);
            assert!(transaction.import_id.is_omitted());
        }
        other => panic!("unexpected body {other:?}"),
    }

    assert_request(
        &transactions_get(&plan_id(), TRANSACTION),
        Method::Get,
        &format!("{transactions}/{TRANSACTION}"),
        &[],
    );

    let update = ExistingTransaction {
        memo: Nullable::Value("updated".to_owned()),
        ..ExistingTransaction::default()
    };
    let put = transactions_update(&plan_id(), TRANSACTION, &update).unwrap();
    assert_request(&put, Method::Put, &format!("{transactions}/{TRANSACTION}"), &[]);
    assert!(matches!(
        put.body,
        Body::PutTransaction(ref wrapper)
            if wrapper.transaction.memo == Nullable::Value("updated".to_owned())
    ));

    let items = [SaveTransactionWithIdOrImportId {
        id: Some(id(TRANSACTION)),
        import_id: None,
        transaction: update,
    }];
    let patch = transactions_update_bulk(&plan_id(), &items).unwrap();
    assert_request(&patch, Method::Patch, &transactions, &[]);
    assert!(matches!(
        patch.body,
        Body::PatchTransactions(ref wrapper)
            if wrapper.transactions.len() == 1 && wrapper.transactions[0].id == Some(id(TRANSACTION))
    ));

    let import = transactions_import(&plan_id());
    assert_request(&import, Method::Post, &format!("{transactions}/import"), &[]);
    assert!(matches!(import.body, Body::Empty));

    let delete = transactions_delete(&plan_id(), TRANSACTION);
    assert_request(&delete, Method::Delete, &format!("{transactions}/{TRANSACTION}"), &[]);
    assert!(matches!(delete.body, Body::Empty));
}

#[test]
fn scheduled_transaction_endpoints_match_contract() {
    let route_text = format!("/v1/plans/{PLAN}/scheduled_transactions");
    assert_request(
        &scheduled_transactions_list(&plan_id(), Some(ServerKnowledge(28))),
        Method::Get,
        &route_text,
        &[("last_knowledge_of_server", "28")],
    );
    assert_request(
        &scheduled_transactions_get(&plan_id(), id(SCHEDULED)),
        Method::Get,
        &format!("{route_text}/{SCHEDULED}"),
        &[],
    );
    let request = SaveScheduledTransaction {
        account_id: id(ACCOUNT),
        date: date(2026, 1, 2),
        amount: Some(Milliunits(-1250)),
        payee_id: Nullable::Omitted,
        payee_name: Nullable::Omitted,
        category_id: Nullable::Omitted,
        memo: Nullable::Null,
        flag_color: Nullable::Omitted,
        frequency: Some(ScheduledTransactionFrequency::from_str(
            ScheduledTransactionFrequency::MONTHLY,
        )),
    };
    let create = scheduled_transactions_create(&plan_id(), &request);
    assert_request(&create, Method::Post, &route_text, &[]);
    assert!(matches!(
        create.body,
        Body::ScheduledTransaction(ref wrapper)
            if wrapper.scheduled_transaction.account_id == id(ACCOUNT)
                && wrapper.scheduled_transaction.date.to_string() == "2026-01-02"
    ));
    let update = scheduled_transactions_update(&plan_id(), id(SCHEDULED), &request);
    assert_request(&update, Method::Put, &format!("{route_text}/{SCHEDULED}"), &[]);
    assert!(matches!(update.body, Body::ScheduledTransaction(_)));
    let delete = scheduled_transactions_delete(&plan_id(), id(SCHEDULED));
    assert_request(&delete, Method::Delete, &format!("{route_text}/{SCHEDULED}"), &[]);
    assert!(matches!(delete.body, Body::Empty));
}

#[test]
fn read_commands_without_a_plan_use_last_used() {
    let commands = vec![
        ReadCommand::PlanShow { last_knowledge: Some(7) },
        ReadCommand::PlanSettings,
        ReadCommand::AccountShow { id: id(ACCOUNT) },
        ReadCommand::CategoryMonthShow { month: month(), id: id(CATEGORY) },
        ReadCommand::PayeeLocationList { payee: Some(id(PAYEE)) },
        ReadCommand::MoneyMovementGroupList { month: None },
        ReadCommand::TransactionList {
            scope: TransactionScope::Payee(id(PAYEE)),
            filters: TransactionFilters::default(),
        },
        ReadCommand::TransactionShow { id: TRANSACTION.to_owned() },
        ReadCommand::ScheduledTransactionList { last_knowledge: None },
    ];
    for command in &commands {
        let implicit = read_request(None, command);
        let explicit = read_request(Some(PlanId::LastUsed), command);
        assert_eq!(implicit.method, Method::Get);
        assert_eq!(implicit.segments, explicit.segments);
        assert_eq!(query(&implicit), query(&explicit));
        assert_eq!(&implicit.segments[..2], ["plans", "last-used"]);
        assert!(matches!(implicit.body, Body::Empty));
    }
    let named = read_request(Some(plan_id()), &ReadCommand::PlanShow { last_knowledge: Some(7) });
    assert_request(&named, Method::Get, &format!("/v1/plans/{PLAN}"), &[("last_knowledge_of_server", "7")]);
    let scoped = read_request(
        None,
        &ReadCommand::TransactionList {
            scope: TransactionScope::Month(month()),
            filters: TransactionFilters::default(),
        },
    );
    assert_request(&scoped, Method::Get, "/v1/plans/last-used/months/2026-01-01/transactions", &[]);
}
