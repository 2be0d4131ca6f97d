use ynab::output::{lookup_key, JsonValue};
use ynab::reports::{error_message, error_report};
use std::cell::Cell;

use ynab::cli::{
    category_create_request, category_update_request, cleared_status, confirm_token,
    create_fields, flag_color, goal_frequency, nullable, read_plan, require_yes,
    resolve_credentials, save_account_type, scheduled_frequency, scheduled_request,
    transaction_create_request, transaction_filters, transaction_scope, transaction_type,
    transaction_update_fields, CategoryCreate, CategoryUpdate, CliAmount, CliDate, ClearedArg,
    CredentialSource, CredentialStore, FlagArg, GoalFrequencyArg, SaveAccountTypeArg,
    ScheduledFrequencyArg, ScheduledWrite, TransactionCreateFields, TransactionList,
    TransactionTypeArg, TransactionUpdate,
};
use ynab::dates::{CalendarDate, PlanMonth};
use ynab::endpoints::TransactionScope;
use ynab::errors::{ApiError, CliError};
use ynab::ids::{PlanId, Uuid};
use ynab::models::{CreateTransactions, Nullable, ValidationError};
use ynab::money::Milliunits;

const ID: u128 = 2;

fn empty_list() -> TransactionList {
    TransactionList {
        plan: None,
        account: None,
        category: None,
        payee: None,
        month: None,
        since: None,
        until: None,
        kind: None,
        last_knowledge: None,
    }
}

#[test]
fn transaction_scopes_conflict_before_execution() {
    let mut args = empty_list();
    args.account = Some(Uuid(ID));
    args.category = Some(Uuid(ID));
    match transaction_scope(&args) {
        Err(CliError::Invocation(message)) => {
            assert_eq!(message, "only one transaction scope may be supplied")
        }
        other => panic!("unexpected scope: {other:?}"),
    }
}

#[test]
fn transaction_scope_selects_one_route() {
    let mut args = empty_list();
    assert_eq!(transaction_scope(&args).unwrap(), TransactionScope::Plan);
    args.category = Some(Uuid(ID));
    assert_eq!(transaction_scope(&args).unwrap(), TransactionScope::Category(Uuid(ID)));
    let mut args = empty_list();
    let month = PlanMonth::from_str("2026-01-01").unwrap();
    args.month = Some(month);
    assert_eq!(transaction_scope(&args).unwrap(), TransactionScope::Month(month));
}

#[test]
fn transaction_filters_carry_each_option() {
    let mut args = empty_list();
    args.since = Some(CliDate::parse("2026-01-01").unwrap());
    args.kind = Some(TransactionTypeArg::Uncategorized);
    args.last_knowledge = Some(7);
    let filters = transaction_filters(&args);
    assert_eq!(filters.since_date, Some(CalendarDate::new(2026, 1, 1).unwrap()));
    assert_eq!(filters.until_date, None);
    assert_eq!(filters.kind.unwrap().0, "uncategorized");
    assert_eq!(filters.last_knowledge.unwrap().0, 7);
}

#[test]
fn destructive_commands_require_yes() {
    match require_yes(false, "transaction delete") {
        Err(CliError::Invocation(message)) => {
            assert_eq!(message, "transaction delete requires --yes")
        }
        other => panic!("unexpected: {other:?}"),
    }
    assert!(require_yes(true, "transaction import").is_ok());
}

#[test]
fn reads_default_to_last_used_plan() {
    assert_eq!(read_plan(None), PlanId::LastUsed);
    assert_eq!(read_plan(Some(PlanId::Default)), PlanId::Default);
}

#[test]
fn argument_values_map_to_api_strings() {
    assert_eq!(save_account_type(SaveAccountTypeArg::CreditCard).0, "creditCard");
    assert_eq!(save_account_type(SaveAccountTypeArg::Checking).0, "checking");
    assert_eq!(goal_frequency(GoalFrequencyArg::Weekly).0, "weekly");
    assert_eq!(cleared_status(ClearedArg::Reconciled).0, "reconciled");
    assert_eq!(flag_color(FlagArg::Purple).0, "purple");
    assert_eq!(transaction_type(TransactionTypeArg::Unapproved).0, "unapproved");
    assert_eq!(scheduled_frequency(ScheduledFrequencyArg::Every4Weeks).0, "every4Weeks");
    assert_eq!(scheduled_frequency(ScheduledFrequencyArg::EveryOtherYear).0, "everyOtherYear");
}

#[test]
fn nullable_omits_missing_options() {
    assert!(nullable::<u8>(None).is_omitted());
    assert!(nullable(Some(3u8)).has_value());
    assert!(!Nullable::<u8>::Null.has_value());
    assert!(!Nullable::<u8>::Null.is_omitted());
}

#[test]
fn category_requests_send_only_given_options() {
    let create = category_create_request(CategoryCreate {
        plan: PlanId::Default,
        name: "Food".to_owned(),
        category_group: Uuid(ID),
        note: None,
        goal_target: Some(CliAmount::parse("1.5").unwrap()),
        goal_target_date: None,
        goal_needs_whole_amount: Some(true),
        goal_frequency: Some(GoalFrequencyArg::Monthly),
    });
    assert_eq!(create.name.as_deref(), Some("Food"));
    assert!(create.note.is_omitted());
    assert_eq!(create.goal_target, Nullable::Value(Milliunits(1_500)));
    assert_eq!(create.goal_needs_whole_amount, Nullable::Value(true));
    assert_eq!(create.goal_frequency.unwrap().0, "monthly");

    let update = category_update_request(CategoryUpdate {
        id: Uuid(ID),
        plan: PlanId::Default,
        name: Some("Groceries".to_owned()),
        note: None,
        category_group: None,
        goal_target: None,
        goal_target_date: None,
        goal_needs_whole_amount: None,
        goal_frequency: None,
    });
    assert_eq!(update.name, Nullable::Value("Groceries".to_owned()));
    assert!(update.note.is_omitted() && update.goal_target.is_omitted());
    assert!(update.category_group_id.is_none() && update.goal_frequency.is_none());
}

fn fields() -> TransactionCreateFields {
    TransactionCreateFields {
        account: Some(Uuid(1)),
        date: Some(CliDate::parse("2026-01-02").unwrap()),
        amount: Some(CliAmount::parse("-1.25").unwrap()),
        payee_id: None,
        payee_name: Some("Acme".to_owned()),
        category: None,
        memo: Some("Lunch".to_owned()),
        cleared: Some(ClearedArg::Cleared),
        approved: Some(true),
        flag: Some(FlagArg::Red),
    }
}

#[test]
fn transaction_fields_become_one_transaction() {
    let transaction = create_fields(fields());
    assert_eq!(transaction.amount, Some(Milliunits(-1_250)));
    assert!(transaction.payee_id.is_omitted());
    assert_eq!(transaction.payee_name, Nullable::Value("Acme".to_owned()));
    assert_eq!(transaction.cleared.unwrap().0, "cleared");
    assert!(matches!(transaction.flag_color, Nullable::Value(ref c) if c.0 == "red"));
    assert!(transaction.subtransactions.is_none());
    match transaction_create_request(fields()) {
        CreateTransactions::One(one) => {
            assert!(one.import_id.is_omitted());
            assert_eq!(one.transaction.memo, Nullable::Value("Lunch".to_owned()));
        }
        CreateTransactions::Many(_) => panic!("expected one transaction"),
    }
}

#[test]
fn transaction_update_sends_only_given_fields() {
    let update = transaction_update_fields(TransactionUpdate {
        id: "t".to_owned(),
        plan: PlanId::Default,
        input: None,
        account: None,
        date: None,
        amount: None,
        payee_id: Some(Uuid(3)),
        payee_name: None,
        category: None,
        memo: None,
        cleared: None,
        approved: Some(false),
        flag: None,
    });
    assert_eq!(update.payee_id, Nullable::Value(Uuid(3)));
    assert!(update.account_id.is_none() && update.amount.is_none() && update.cleared.is_none());
    assert!(update.memo.is_omitted() && update.flag_color.is_omitted());
    assert_eq!(update.approved, Some(false));
}

#[test]
fn scheduled_request_carries_fields() {
    let request = scheduled_request(ScheduledWrite {
        plan: PlanId::Default,
        account: Uuid(1),
        date: CliDate::parse("2026-01-02").unwrap(),
        amount: None,
        payee_id: None,
        payee_name: None,
        category: None,
        memo: None,
        flag: None,
        frequency: Some(ScheduledFrequencyArg::Monthly),
    });
    assert_eq!(request.account_id, Uuid(1));
    assert_eq!(request.date.to_string(), "2026-01-02");
    assert_eq!(request.frequency.unwrap().0, "monthly");
    assert!(request.amount.is_none() && request.memo.is_omitted());
}

#[test]
fn cli_date_reports_parser_message() {
    assert!(CliDate::parse("2026-13-01").is_err());
    assert_eq!(CliDate::parse("2026-09-13").unwrap().to_string(), "2026-09-13");
}

struct FakeStore {
    value: Result<Option<String>, &'static str>,
    reads: Cell<usize>,
}

impl CredentialStore for FakeStore {
    fn get(&self) -> Result<Option<String>, CliError> {
        self.reads.set(self.reads.get() + 1);
        self.value
            .clone()
            .map_err(|message| CliError::Local(message.into()))
    }

    fn set(&self, _token: &str) -> Result<(), CliError> {
        Ok(())
    }

    fn clear(&self) -> Result<(), CliError> {
        Ok(())
    }
}

#[test]
fn environment_credential_precedes_keyring() {
    let store = FakeStore {
        value: Ok(Some("keyring-secret".into())),
        reads: Cell::new(0),
    };
    let credentials = resolve_credentials(Some("environment-secret".into()), &store)
        .expect("environment credential");
    assert_eq!(credentials.source, CredentialSource::Environment);
    assert_eq!(store.reads.get(), 0);
}

#[test]
fn empty_environment_falls_back_to_keyring() {
    let store = FakeStore {
        value: Ok(Some("keyring-secret".into())),
        reads: Cell::new(0),
    };
    let credentials = resolve_credentials(Some(String::new()), &store).expect("keyring");
    assert_eq!(credentials.source, CredentialSource::Keyring);
    assert_eq!(credentials.token, "keyring-secret");
    assert_eq!(credentials.source.name(), "keyring");
    assert_eq!(store.reads.get(), 1);
}

#[test]
fn unavailable_keyring_is_local_failure() {
    let store = FakeStore {
        value: Err("keyring unavailable"),
        reads: Cell::new(0),
    };
    let error = resolve_credentials(None, &store)
        .err()
        .expect("keyring failure");
    assert!(matches!(error, CliError::Local(_)));
}

#[test]
fn missing_credential_is_exit_three() {
    let store = FakeStore {
        value: Ok(None),
        reads: Cell::new(0),
    };
    let error = resolve_credentials(None, &store)
        .err()
        .expect("missing credential");
    assert_eq!(error.exit_code(), 3);
}

#[test]
fn token_confirmation_needs_matching_entries() {
    assert!(confirm_token("abc", "abc").is_ok());
    assert!(matches!(confirm_token("abc", "abd"), Err(CliError::Credentials(_))));
    assert!(matches!(confirm_token("", ""), Err(CliError::Credentials(_))));
}

fn report_field<'a>(report: &'a JsonValue, key: &str) -> &'a JsonValue {
    let JsonValue::Object(top) = report else { panic!("report is an object") };
    let Some(JsonValue::Object(fields)) = lookup_key(top, "error") else {
        panic!("report has an error object")
    };
    lookup_key(fields, key).expect("field present")
}

fn text_of(value: &JsonValue) -> &str {
    match value {
        JsonValue::String(text) | JsonValue::Number(text) => text,
        other => panic!("not text: {other:?}"),
    }
}

#[test]
fn json_errors_are_structured() {
    let error = CliError::Credentials("missing".into());
    let report = error_report(&error);
    assert_eq!(text_of(report_field(&report, "kind")), "credentials");
    assert_eq!(text_of(report_field(&report, "message")), "missing");
}

#[test]
fn api_error_reports_carry_the_response() {
    let error = CliError::Api(ApiError::Response {
        status: 429,
        id: None,
        name: "too_many_requests".into(),
        detail: "slow down".into(),
        retry_after_secs: Some(30),
    });
    let report = error_report(&error);
    assert_eq!(text_of(report_field(&report, "kind")), "api");
    assert_eq!(text_of(report_field(&report, "status")), "429");
    assert!(matches!(report_field(&report, "id"), JsonValue::Null));
    assert_eq!(text_of(report_field(&report, "name")), "too_many_requests");
    assert_eq!(text_of(report_field(&report, "detail")), "slow down");
    assert_eq!(text_of(report_field(&report, "retry_after_seconds")), "30");
    assert_eq!(
        error_message(&error),
        "API response 429 Too Many Requests: too_many_requests: slow down"
    );
    let timeout = CliError::Api(ApiError::Timeout);
    assert_eq!(text_of(report_field(&error_report(&timeout), "kind")), "client");
    assert_eq!(error_message(&timeout), "request timed out");
    let invalid = CliError::Api(ApiError::Validation(ValidationError::BulkIdentity));
    assert_eq!(
        error_message(&invalid),
        "request validation failed: a bulk item needs exactly one of id or import_id"
    );
}

#[test]
fn exit_codes_follow_the_documented_table() {
    assert_eq!(CliError::Invocation("x".into()).exit_code(), 2);
    assert_eq!(CliError::Credentials("x".into()).exit_code(), 3);
    let response = ApiError::Response {
        status: 404,
        id: Some("404".into()),
        name: "not_found".into(),
        detail: "missing".into(),
        retry_after_secs: None,
    };
    assert!(response.exit_is_response());
    let api = CliError::Api(response);
    assert_eq!(api.exit_code(), 4);
    assert_eq!(api.kind(), "api");
    assert_eq!(CliError::Api(ApiError::Timeout).exit_code(), 1);
    assert_eq!(CliError::Api(ApiError::Timeout).kind(), "client");
    assert_eq!(CliError::Local("x".into()).exit_code(), 1);
    assert_eq!(CliError::Input("x".into()).kind(), "input");
    let io = CliError::from(std::io::Error::other("disk"));
    assert_eq!((io.exit_code(), io.kind()), (1, "io"));
    assert!(io.own_message().is_none());
}
