use ynab::settings::ClientSettings;
use ynab::endpoints::{
    accounts_create, accounts_list, categories_update_month, payees_create, plans_list,
    transactions_create, transactions_list_for_category, transactions_update_bulk, user_get,
    Body, QueryValue, TransactionScope,
};
use ynab::errors::{checked_requests_per_hour, ApiError, ClientBuildError};
use ynab::ids::{PlanId, Uuid};
use ynab::limiter::{RollingLimiter, WINDOW_NANOS};
use ynab::models::{
    CreateTransactions, ErrorDetail, ErrorResponse, ExistingTransaction, Nullable, NewTransaction,
    PostPayee, SaveAccount, SaveAccountType, SaveMonthCategory, SaveTransactionWithIdOrImportId,
    TransactionFilters, TransactionType, ValidationError,
};
use ynab::dates::{CalendarDate, PlanMonth};
use ynab::money::{Milliunits, ServerKnowledge};
use ynab::retry::{
    backoff_nanos, backoff_with_jitter, parse_retry_after, Action, Failure, Method, Outcome,
    RetryPolicy, RetryState,
};

const PLAN: u128 = 0xaaaaaaaa_aaaa_aaaa_aaaa_aaaaaaaaaaaa;
const CATEGORY: u128 = 0xcccccccc_cccc_cccc_cccc_cccccccccccc;

fn plan() -> PlanId {
    PlanId::Id(Uuid(PLAN))
}

#[test]
fn rate_limit_enforces_api_ceiling() {
    assert!(matches!(checked_requests_per_hour(0), Err(ClientBuildError::InvalidRateLimit)));
    assert_eq!(checked_requests_per_hour(200).ok(), Some(200));
    assert!(checked_requests_per_hour(201).is_err());
}

#[test]
fn rate_limiter_rejects_documented_ceiling_violation() {
    assert!(checked_requests_per_hour(201).is_err());
}

#[test]
fn limiter_admits_up_to_the_limit_then_waits() {
    let mut limiter = RollingLimiter::new(2);
    assert_eq!(limiter.try_acquire(0), None);
    assert_eq!(limiter.try_acquire(1_000), None);
    assert_eq!(limiter.try_acquire(2_000), Some(WINDOW_NANOS - 2_000));
    assert_eq!(limiter.try_acquire(WINDOW_NANOS - 1), Some(1));
    assert_eq!(limiter.try_acquire(WINDOW_NANOS), None);
    assert_eq!(limiter.try_acquire(WINDOW_NANOS + 500), Some(500));
    assert_eq!(limiter.try_acquire(WINDOW_NANOS + 1_000), None);
}

#[test]
fn refused_request_is_admitted_after_its_wait() {
    let mut limiter = RollingLimiter::new(1);
    assert_eq!(limiter.try_acquire(10), None);
    let wait = limiter.try_acquire(20).expect("full");
    assert_eq!(limiter.try_acquire(20 + wait), None);
}

#[test]
fn mutation_is_never_retried() {
    let policy = RetryPolicy { attempts: 5, max_backoff_nanos: 0 };
    let state = RetryState::start(&policy, Method::Post);
    assert_eq!(state.retries, 0);
    let action = state.next_action(Outcome::Responded { status: 429, retry_after_secs: Some(0) });
    assert_eq!(action, Action::DecodeError { status: 429, retry_after_secs: Some(0) });
}

#[test]
fn get_retries_429_after_numeric_retry_after() {
    let policy = RetryPolicy { attempts: 2, max_backoff_nanos: 0 };
    let state = RetryState::start(&policy, Method::Get);
    let action = state.next_action(Outcome::Responded { status: 429, retry_after_secs: Some(1) });
    let next = RetryState { attempt: 1, retries: 1 };
    assert_eq!(action, Action::Retry { next, retry_after_secs: Some(1) });
    assert_eq!(backoff_nanos(0, Some(1), 0), 1_000_000_000);
    assert_eq!(next.next_action(Outcome::Responded { status: 200, retry_after_secs: None }), Action::DecodeData);
}

#[test]
fn get_retries_503_with_bounded_backoff() {
    let policy = RetryPolicy { attempts: 2, max_backoff_nanos: 0 };
    let mut state = RetryState::start(&policy, Method::Get);
    let mut calls = 1;
    let unavailable = Outcome::Responded { status: 503, retry_after_secs: None };
    match state.next_action(unavailable) {
        Action::Retry { next, retry_after_secs: None } => {
            assert_eq!(backoff_nanos(state.attempt, None, policy.max_backoff_nanos), 0);
            state = next;
            calls += 1;
        }
        other => panic!("expected a retry, got {other:?}"),
    }
    let ok = Outcome::Responded { status: 200, retry_after_secs: None };
    assert_eq!(state.next_action(ok), Action::DecodeData);
    assert_eq!(calls, 2);
}

#[test]
fn default_policy_backoff_stays_below_its_maximum() {
    let state = RetryState::start(&RetryPolicy::default(), Method::Get);
    assert_eq!(state.retries, 2);
    assert!(matches!(
        state.next_action(Outcome::Responded { status: 503, retry_after_secs: None }),
        Action::Retry { retry_after_secs: None, .. }
    ));
    for attempt in 0..6 {
        let delay = backoff_nanos(attempt, None, 8_000_000_000);
        assert!(delay <= 8_000_000_000);
    }
    assert_eq!(backoff_nanos(3, None, 0), 0);
}

#[test]
fn backoff_grows_and_jitters_within_a_quarter() {
    let max = 8_000_000_000;
    assert_eq!(backoff_with_jitter(0, None, max, 0), 1_000_000_000);
    assert_eq!(backoff_with_jitter(1, None, max, 500), 2_500_000_000);
    assert_eq!(backoff_with_jitter(2, None, max, 1_000), 5_000_000_000);
    assert_eq!(backoff_with_jitter(7, None, max, 2_000), 8_000_000_000);
    assert_eq!(backoff_with_jitter(7, Some(30), max, 2_000), 30_000_000_000);
    assert_eq!(backoff_with_jitter(0, None, 1_500_500, 1), 1_500_500);
    let delay = backoff_nanos(1, None, max);
    assert!((2_000_000_000..=2_500_000_000).contains(&delay));
    assert_eq!(delay % 1_000_000, 0);
}

#[test]
fn get_timeout_is_retried_and_classified() {
    let state = RetryState::start(&RetryPolicy { attempts: 2, max_backoff_nanos: 0 }, Method::Get);
    let retry = state.next_action(Outcome::Failed { timed_out: true });
    let next = match retry {
        Action::Retry { next, retry_after_secs: None } => next,
        other => panic!("expected a retry, got {other:?}"),
    };
    assert_eq!(next.next_action(Outcome::Failed { timed_out: true }), Action::Fail(Failure::Timeout));
    assert_eq!(next.next_action(Outcome::Failed { timed_out: false }), Action::Fail(Failure::Transport));
}

#[test]
fn all_documented_error_statuses_are_structured() {
    let state = RetryState::start(&RetryPolicy { attempts: 1, max_backoff_nanos: 0 }, Method::Get);
    for status in [400u16, 401, 403, 404, 409, 429, 500, 503] {
        assert_eq!(
            state.next_action(Outcome::Responded { status, retry_after_secs: Some(2) }),
            Action::DecodeError { status, retry_after_secs: Some(2) }
        );
        let body = ErrorResponse {
            error: ErrorDetail {
                id: "error-id".into(),
                name: "fixture_error".into(),
                detail: "fixture detail".into(),
            },
        };
        match ApiError::from_response(status, body, Some(2)) {
            ApiError::Response { status: actual, id, name, detail, retry_after_secs } => {
                assert_eq!(actual, status);
                assert_eq!(id.as_deref(), Some("error-id"));
                assert_eq!(name, "fixture_error");
                assert_eq!(detail, "fixture detail");
                assert_eq!(retry_after_secs, Some(2));
            }
            other => panic!("unexpected error: {other:?}"),
        }
    }
}

#[test]
fn retry_after_reads_whole_seconds() {
    assert_eq!(parse_retry_after(Some(b"2")), Some(2));
    assert_eq!(parse_retry_after(Some(b"+15")), Some(15));
    assert_eq!(parse_retry_after(Some(b"18446744073709551615")), Some(u64::MAX));
    assert_eq!(parse_retry_after(Some(b"18446744073709551616")), None);
    assert_eq!(parse_retry_after(Some(b"")), None);
    assert_eq!(parse_retry_after(Some(b"+")), None);
    assert_eq!(parse_retry_after(Some(b"-1")), None);
    assert_eq!(parse_retry_after(Some(b"1.5")), None);
    assert_eq!(parse_retry_after(Some(b"Wed, 21 Oct 2015 07:28:00 GMT")), None);
    assert_eq!(parse_retry_after(Some(&[0xff])), None);
    assert_eq!(parse_retry_after(None), None);
}

fn segments(request: &ynab::endpoints::ApiRequest) -> Vec<String> {
    request.segments.clone()
}

#[test]
fn user_and_plan_routes() {
    let user = user_get();
    assert_eq!(user.method, Method::Get);
    assert_eq!(segments(&user), vec!["user"]);
    let plans = plans_list(true);
    assert_eq!(segments(&plans), vec!["plans"]);
    assert_eq!(plans.query[0].name, "include_accounts");
    assert_eq!(plans.query[0].value, QueryValue::Flag(true));
}

#[test]
fn account_routes_match_contract() {
    let list = accounts_list(&PlanId::LastUsed, Some(ServerKnowledge(4)));
    assert_eq!(segments(&list), vec!["plans", "last-used", "accounts"]);
    assert_eq!(list.query[0].name, "last_knowledge_of_server");
    assert_eq!(list.query[0].value, QueryValue::Number(4));
    assert!(accounts_list(&plan(), None).query.is_empty());
    let account = SaveAccount {
        name: "Checking".into(),
        account_type: SaveAccountType::from_str(SaveAccountType::CHECKING),
        balance: Milliunits(10_250),
    };
    let create = accounts_create(&plan(), &account);
    assert_eq!(create.method, Method::Post);
    assert_eq!(segments(&create), vec!["plans", "aaaaaaaa-aaaa-aaaa-aaaa-aaaaaaaaaaaa", "accounts"]);
    assert!(matches!(create.body, Body::PostAccount(ref wrapper) if wrapper.account.name == "Checking"));
}

#[test]
fn payee_create_wraps_request() {
    let payee = PostPayee { name: "Acme".into() };
    let request = payees_create(&PlanId::LastUsed, &payee);
    assert_eq!(request.method.as_str(), "POST");
    assert_eq!(segments(&request), vec!["plans", "last-used", "payees"]);
    assert!(matches!(request.body, Body::PostPayee(ref wrapper) if wrapper.payee.name == "Acme"));
}

#[test]
fn month_category_route_includes_the_month() {
    let month = PlanMonth::from_str("2026-01-01").unwrap();
    let value = SaveMonthCategory { budgeted: Milliunits(25_000) };
    let request = categories_update_month(&plan(), month, Uuid(CATEGORY), &value);
    assert_eq!(request.method, Method::Patch);
    assert_eq!(
        segments(&request),
        vec![
            "plans",
            "aaaaaaaa-aaaa-aaaa-aaaa-aaaaaaaaaaaa",
            "months",
            "2026-01-01",
            "categories",
            "cccccccc-cccc-cccc-cccc-cccccccccccc"
        ]
    );
}

#[test]
fn category_transaction_list_uses_only_category_route_and_filters() {
    let filters = TransactionFilters {
        since_date: CalendarDate::new(2026, 1, 1),
        until_date: CalendarDate::new(2026, 1, 31),
        kind: Some(TransactionType::from_str(TransactionType::UNCATEGORIZED)),
        last_knowledge: Some(ServerKnowledge(3)),
    };
    let request = transactions_list_for_category(&plan(), Uuid(CATEGORY), &filters);
    assert_eq!(
        segments(&request),
        vec![
            "plans",
            "aaaaaaaa-aaaa-aaaa-aaaa-aaaaaaaaaaaa",
            "categories",
            "cccccccc-cccc-cccc-cccc-cccccccccccc",
            "transactions"
        ]
    );
    let names: Vec<&str> = request.query.iter().map(|pair| pair.name.as_str()).collect();
    assert_eq!(names, vec!["since_date", "until_date", "type", "last_knowledge_of_server"]);
    assert_eq!(request.query[0].value, QueryValue::Text("2026-01-01".into()));
    assert_eq!(request.query[1].value, QueryValue::Text("2026-01-31".into()));
    assert_eq!(request.query[2].value, QueryValue::Text("uncategorized".into()));
    assert_eq!(request.query[3].value, QueryValue::Number(3));
    let _ = TransactionScope::Plan;
}

fn conflicting() -> ExistingTransaction {
    ExistingTransaction {
        payee_id: Nullable::Value(Uuid(1)),
        payee_name: Nullable::Value("Acme".into()),
        ..ExistingTransaction::default()
    }
}

#[test]
fn transaction_create_is_validated_before_a_request() {
    let empty = CreateTransactions::Many(Vec::new());
    assert!(matches!(
        transactions_create(&plan(), &empty),
        Err(ApiError::Validation(ValidationError::EmptyTransactions))
    ));
    let conflict = CreateTransactions::Many(vec![
        NewTransaction::default(),
        NewTransaction { transaction: conflicting(), import_id: Nullable::Omitted },
    ]);
    assert!(matches!(
        transactions_create(&plan(), &conflict),
        Err(ApiError::Validation(ValidationError::PayeeConflict))
    ));
    let one = CreateTransactions::One(NewTransaction::default());
    let request = transactions_create(&plan(), &one).expect("valid");
    assert_eq!(request.method, Method::Post);
    assert!(matches!(request.body, Body::PostTransactions(_)));
}

#[test]
fn bulk_update_reports_the_first_faulty_item() {
    assert!(matches!(
        transactions_update_bulk(&plan(), &[]),
        Err(ApiError::Validation(ValidationError::EmptyTransactions))
    ));
    let both = SaveTransactionWithIdOrImportId {
        id: Some(Uuid(1)),
        import_id: Some("import".into()),
        transaction: ExistingTransaction::default(),
    };
    let conflict = SaveTransactionWithIdOrImportId {
        id: Some(Uuid(1)),
        import_id: None,
        transaction: conflicting(),
    };
    assert!(matches!(
        transactions_update_bulk(&plan(), &[both.clone(), conflict.clone()]),
        Err(ApiError::Validation(ValidationError::BulkIdentity))
    ));
    assert!(matches!(
        transactions_update_bulk(&plan(), &[conflict, both]),
        Err(ApiError::Validation(ValidationError::PayeeConflict))
    ));
    let good = SaveTransactionWithIdOrImportId {
        id: None,
        import_id: Some("import".into()),
        transaction: ExistingTransaction::default(),
    };
    let items = [good];
    let request = transactions_update_bulk(&plan(), &items).expect("valid");
    assert_eq!(request.method, Method::Patch);
}

#[test]
fn create_wrapper_needs_exactly_one_variant() {
    assert!(matches!(
        CreateTransactions::from_wrapper(Some(NewTransaction::default()), None),
        Ok(CreateTransactions::One(_))
    ));
    assert!(matches!(
        CreateTransactions::from_wrapper(None, Some(vec![NewTransaction::default()])),
        Ok(CreateTransactions::Many(_))
    ));
    assert_eq!(
        CreateTransactions::from_wrapper(None, Some(Vec::new())).err(),
        Some(ValidationError::TransactionVariant)
    );
    assert_eq!(
        CreateTransactions::from_wrapper(None, None).err(),
        Some(ValidationError::TransactionVariant)
    );
    assert_eq!(
        CreateTransactions::from_wrapper(Some(NewTransaction::default()), Some(Vec::new())).err(),
        Some(ValidationError::TransactionVariant)
    );
    assert_eq!(
        ValidationError::TransactionVariant.message(),
        "a transaction wrapper needs exactly one nonempty transaction variant"
    );
}

fn attempts_until_settled(policy: &RetryPolicy, method: Method, outcome: Outcome) -> u32 {
    let mut state = RetryState::start(policy, method);
    let mut attempts = 1;
    while let Action::Retry { next, .. } = state.next_action(outcome) {
        state = next;
        attempts += 1;
    }
    attempts
}

#[test]
fn requests_are_sent_at_most_attempts_times() {
    let policy = RetryPolicy::default();
    let unavailable = Outcome::Responded { status: 503, retry_after_secs: None };
    let failed = Outcome::Failed { timed_out: false };
    assert_eq!(attempts_until_settled(&policy, Method::Get, unavailable), 3);
    assert_eq!(attempts_until_settled(&policy, Method::Get, failed), 3);
    assert_eq!(attempts_until_settled(&policy, Method::Delete, unavailable), 1);
    assert_eq!(attempts_until_settled(&policy, Method::Patch, failed), 1);
    let none = RetryPolicy { attempts: 0, max_backoff_nanos: 0 };
    assert_eq!(attempts_until_settled(&none, Method::Get, failed), 1);
    let not_found = Outcome::Responded { status: 404, retry_after_secs: None };
    assert_eq!(attempts_until_settled(&policy, Method::Get, not_found), 1);
}

#[test]
fn client_settings_default_and_change_one_at_a_time() {
    let settings = ClientSettings::new();
    assert_eq!(settings.timeout_nanos(), 30_000_000_000);
    assert_eq!(settings.user_agent_text(), "ynab-sdk/0.1.0");
    assert_eq!(settings.requests_per_hour_limit(), 180);
    assert_eq!(settings.retry(), RetryPolicy { attempts: 3, max_backoff_nanos: 8_000_000_000 });
    let settings = settings
        .timeout(5_000_000_000)
        .user_agent("agent/1".to_owned())
        .retry_policy(RetryPolicy { attempts: 1, max_backoff_nanos: 0 });
    assert_eq!(settings.timeout_nanos(), 5_000_000_000);
    assert_eq!(settings.user_agent_text(), "agent/1");
    assert_eq!(settings.requests_per_hour_limit(), 180);
    assert!(matches!(settings.requests_per_hour(0), Err(ClientBuildError::InvalidRateLimit)));
    let settings = ClientSettings::new().requests_per_hour(200).expect("ceiling");
    assert_eq!(settings.requests_per_hour_limit(), 200);
    assert!(matches!(
        ClientSettings::new().requests_per_hour(201),
        Err(ClientBuildError::InvalidRateLimit)
    ));
}

#[test]
fn limiter_clock_never_runs_back() {
    let mut limiter = RollingLimiter::new(1);
    assert_eq!(limiter.try_acquire(1_000), None);
    assert_eq!(limiter.try_acquire(500), Some(WINDOW_NANOS));
    assert_eq!(limiter.try_acquire(1_000 + WINDOW_NANOS), None);
    let mut pair = RollingLimiter::new(2);
    assert_eq!(pair.try_acquire(5_000), None);
    assert_eq!(pair.try_acquire(10), None);
    assert_eq!(pair.try_acquire(5_001), Some(WINDOW_NANOS - 1));
    assert_eq!(pair.try_acquire(5_000 + WINDOW_NANOS), None);
}
