//! The HTTP request behind each API operation: method, path, query and body.
use crate::dates::{date_text, CalendarDate, PlanMonth};
use crate::errors::ApiError;
use crate::ids::{plan_text, uuid_text, PlanId, Uuid};
use crate::models::{validate_bulk, first_bulk_error, payee_conflict, any_payee_conflict, ExistingTransaction, SaveTransactionWithIdOrImportId, TransactionFilters, ValidationError, CreateTransactions, NewCategory, PatchCategoryWrapper, PatchMonthCategoryWrapper, PatchPayeeWrapper, PatchTransactionsWrapper, PostAccountWrapper, PostCategoryGroupWrapper, PostCategoryWrapper, PostPayee, PostPayeeWrapper, PostScheduledTransactionWrapper, PutTransactionWrapper, SaveAccount, SaveCategory, SaveCategoryGroup, SaveMonthCategory, SavePayee, SaveScheduledTransaction};
use crate::money::ServerKnowledge;
use crate::retry::Method;
use crate::text::owned;
use vstd::prelude::*;

verus! {

/// A value in a request's query string.
#[derive(Clone, Debug, PartialEq, Eq)]
pub enum QueryValue {
    Text(String),
    Number(u64),
    Flag(bool),
}

/// A query value as text, number or flag.
pub ghost enum QueryValueView {
    Text(Seq<char>),
    Number(u64),
    Flag(bool),
}

/// One `name=value` pair of a query string.
#[derive(Clone, Debug, PartialEq, Eq)]
pub struct QueryPair {
    pub name: String,
    pub value: QueryValue,
}

pub open spec fn query_value_view(value: QueryValue) -> QueryValueView {
    match value {
        QueryValue::Text(t) => QueryValueView::Text(t@),
        QueryValue::Number(n) => QueryValueView::Number(n),
        QueryValue::Flag(b) => QueryValueView::Flag(b),
    }
}

pub open spec fn query_view(pairs: Seq<QueryPair>) -> Seq<(Seq<char>, QueryValueView)> {
    Seq::new(pairs.len(), |i: int| (pairs[i].name@, query_value_view(pairs[i].value)))
}

pub open spec fn texts(strings: Seq<String>) -> Seq<Seq<char>> {
    Seq::new(strings.len(), |i: int| strings[i]@)
}

/// The JSON body a request carries, before it is serialized.
#[derive(Clone, Debug)]
pub enum Body<'a> {
    Empty,
    PostAccount(PostAccountWrapper<'a>),
    CategoryGroup(PostCategoryGroupWrapper<'a>),
    PostCategory(PostCategoryWrapper<'a>),
    PatchCategory(PatchCategoryWrapper<'a>),
    PatchMonthCategory(PatchMonthCategoryWrapper<'a>),
    PostPayee(PostPayeeWrapper<'a>),
    PatchPayee(PatchPayeeWrapper<'a>),
    PostTransactions(&'a CreateTransactions),
    PutTransaction(PutTransactionWrapper<'a>),
    PatchTransactions(PatchTransactionsWrapper<'a>),
    ScheduledTransaction(PostScheduledTransactionWrapper<'a>),
}

/// One API request: the path segments are appended to the base URL.
#[derive(Clone, Debug)]
pub struct ApiRequest<'a> {
    pub method: Method,
    pub segments: Vec<String>,
    pub query: Vec<QueryPair>,
    pub body: Body<'a>,
}

/// The request has this method, path and query.
pub open spec fn request_is(
    request: ApiRequest,
    method: Method,
    path: Seq<Seq<char>>,
    query: Seq<(Seq<char>, QueryValueView)>,
) -> bool {
    &&& request.method == method
    &&& texts(request.segments@) == path
    &&& query_view(request.query@) == query
}

/// A path under a plan.
pub open spec fn plan_path(plan: PlanId, tail: Seq<Seq<char>>) -> Seq<Seq<char>> {
    seq!["plans"@, plan_text(plan)] + tail
}

pub open spec fn month_text(month: PlanMonth) -> Seq<char> {
    date_text(
        month.date_spec().year_spec(),
        month.date_spec().month_spec(),
        month.date_spec().day_spec(),
    )
}

pub open spec fn no_query() -> Seq<(Seq<char>, QueryValueView)> {
    Seq::empty()
}

/// The delta query of a list: `last_knowledge_of_server` when a knowledge is given.
pub open spec fn knowledge_query(last_knowledge: Option<ServerKnowledge>) -> Seq<
    (Seq<char>, QueryValueView),
> {
    match last_knowledge {
        Some(k) => seq![("last_knowledge_of_server"@, QueryValueView::Number(k.0))],
        None => Seq::empty(),
    }
}

fn push_text(path: &mut Vec<String>, text: &str)
    ensures
        texts(final(path)@) == texts(old(path)@).push(text@),
{
    path.push(owned(text));
    assert(texts(path@) =~= texts(old(path)@).push(text@));
}

fn push_string(path: &mut Vec<String>, text: String)
    ensures
        texts(final(path)@) == texts(old(path)@).push(text@),
{
    let ghost t = text@;
    path.push(text);
    assert(texts(path@) =~= texts(old(path)@).push(t));
}

fn start_path(plan: &PlanId) -> (result: Vec<String>)
    ensures
        texts(result@) == seq!["plans"@, plan_text(*plan)],
{
    let mut path: Vec<String> = Vec::new();
    assert(texts(path@) =~= Seq::<Seq<char>>::empty());
    push_text(&mut path, "plans");
    push_string(&mut path, plan.to_string());
    assert(texts(path@) =~= seq!["plans"@, plan_text(*plan)]);
    path
}

fn knowledge_pairs(last_knowledge: Option<ServerKnowledge>) -> (result: Vec<QueryPair>)
    ensures
        query_view(result@) == knowledge_query(last_knowledge),
{
    let mut pairs: Vec<QueryPair> = Vec::new();
    match last_knowledge {
        Some(k) => {
            pairs.push(QueryPair { name: owned("last_knowledge_of_server"), value: QueryValue::Number(k.0) });
            assert(query_view(pairs@) =~= knowledge_query(last_knowledge));
        },
        None => {
            assert(query_view(pairs@) =~= knowledge_query(last_knowledge));
        },
    }
    pairs
}

fn empty_query() -> (result: Vec<QueryPair>)
    ensures
        query_view(result@) == no_query(),
{
    let pairs: Vec<QueryPair> = Vec::new();
    assert(query_view(pairs@) =~= no_query());
    pairs
}

/// Gets the authenticated user.
pub fn user_get<'a>() -> (result: ApiRequest<'a>)
    ensures
        request_is(result, Method::Get, seq!["user"@], no_query()),
        result.body is Empty,
{
    let mut path: Vec<String> = Vec::new();
    assert(texts(path@) =~= Seq::<Seq<char>>::empty());
    push_text(&mut path, "user");
    proof {
        assert(texts(path@) =~= seq!["user"@]);
    }
    let query = empty_query();
    ApiRequest { method: Method::Get, segments: path, query, body: Body::Empty }
}

/// Lists the plans, optionally with their accounts.
pub fn plans_list<'a>(include_accounts: bool) -> (result: ApiRequest<'a>)
    ensures
        request_is(result, Method::Get, seq!["plans"@], seq![("include_accounts"@, QueryValueView::Flag(include_accounts))]),
        result.body is Empty,
{
    let mut path: Vec<String> = Vec::new();
    assert(texts(path@) =~= Seq::<Seq<char>>::empty());
    push_text(&mut path, "plans");
    proof {
        assert(texts(path@) =~= seq!["plans"@]);
    }
    let mut query: Vec<QueryPair> = Vec::new();
    query.push(QueryPair { name: owned("include_accounts"), value: QueryValue::Flag(include_accounts) });
    assert(query_view(query@) =~= seq![("include_accounts"@, QueryValueView::Flag(include_accounts))]);
    ApiRequest { method: Method::Get, segments: path, query, body: Body::Empty }
}

/// Gets a plan in full, or its changes since a knowledge.
pub fn plans_get<'a>(plan: &PlanId, last_knowledge: Option<ServerKnowledge>) -> (result: ApiRequest<'a>)
    ensures
        request_is(result, Method::Get, plan_path(*plan, Seq::<Seq<char>>::empty()), knowledge_query(last_knowledge)),
        result.body is Empty,
{
    let mut path = start_path(plan);

    proof {
        assert(texts(path@) =~= plan_path(*plan, Seq::<Seq<char>>::empty()));
    }
    let query = knowledge_pairs(last_knowledge);
    ApiRequest { method: Method::Get, segments: path, query, body: Body::Empty }
}

/// Gets a plan's settings.
pub fn plans_settings<'a>(plan: &PlanId) -> (result: ApiRequest<'a>)
    ensures
        request_is(result, Method::Get, plan_path(*plan, seq!["settings"@]), no_query()),
        result.body is Empty,
{
    let mut path = start_path(plan);
    push_text(&mut path, "settings");
    proof {
        assert(texts(path@) =~= plan_path(*plan, seq!["settings"@]));
    }
    let query = empty_query();
    ApiRequest { method: Method::Get, segments: path, query, body: Body::Empty }
}

/// Lists a plan's accounts.
pub fn accounts_list<'a>(plan: &PlanId, last_knowledge: Option<ServerKnowledge>) -> (result: ApiRequest<'a>)
    ensures
        request_is(result, Method::Get, plan_path(*plan, seq!["accounts"@]), knowledge_query(last_knowledge)),
        result.body is Empty,
{
    let mut path = start_path(plan);
    push_text(&mut path, "accounts");
    proof {
        assert(texts(path@) =~= plan_path(*plan, seq!["accounts"@]));
    }
    let query = knowledge_pairs(last_knowledge);
    ApiRequest { method: Method::Get, segments: path, query, body: Body::Empty }
}

/// Gets an account.
pub fn accounts_get<'a>(plan: &PlanId, account: Uuid) -> (result: ApiRequest<'a>)
    ensures
        request_is(result, Method::Get, plan_path(*plan, seq!["accounts"@, uuid_text(account.0)]), no_query()),
        result.body is Empty,
{
    let mut path = start_path(plan);
    push_text(&mut path, "accounts");
    push_string(&mut path, account.to_string());
    proof {
        assert(texts(path@) =~= plan_path(*plan, seq!["accounts"@, uuid_text(account.0)]));
    }
    let query = empty_query();
    ApiRequest { method: Method::Get, segments: path, query, body: Body::Empty }
}

/// Creates an account.
pub fn accounts_create<'a>(plan: &PlanId, account: &'a SaveAccount) -> (result: ApiRequest<'a>)
    ensures
        request_is(result, Method::Post, plan_path(*plan, seq!["accounts"@]), no_query()),
        result.body == (Body::PostAccount(PostAccountWrapper { account })),
{
    let mut path = start_path(plan);
    push_text(&mut path, "accounts");
    proof {
        assert(texts(path@) =~= plan_path(*plan, seq!["accounts"@]));
    }
    let query = empty_query();
    ApiRequest { method: Method::Post, segments: path, query, body: Body::PostAccount(PostAccountWrapper { account }) }
}

/// Lists a plan's categories by group.
pub fn categories_list<'a>(plan: &PlanId, last_knowledge: Option<ServerKnowledge>) -> (result: ApiRequest<'a>)
    ensures
        request_is(result, Method::Get, plan_path(*plan, seq!["categories"@]), knowledge_query(last_knowledge)),
        result.body is Empty,
{
    let mut path = start_path(plan);
    push_text(&mut path, "categories");
    proof {
        assert(texts(path@) =~= plan_path(*plan, seq!["categories"@]));
    }
    let query = knowledge_pairs(last_knowledge);
    ApiRequest { method: Method::Get, segments: path, query, body: Body::Empty }
}

/// Gets a category.
pub fn categories_get<'a>(plan: &PlanId, category: Uuid) -> (result: ApiRequest<'a>)
    ensures
        request_is(result, Method::Get, plan_path(*plan, seq!["categories"@, uuid_text(category.0)]), no_query()),
        result.body is Empty,
{
    let mut path = start_path(plan);
    push_text(&mut path, "categories");
    push_string(&mut path, category.to_string());
    proof {
        assert(texts(path@) =~= plan_path(*plan, seq!["categories"@, uuid_text(category.0)]));
    }
    let query = empty_query();
    ApiRequest { method: Method::Get, segments: path, query, body: Body::Empty }
}

/// Creates a category.
pub fn categories_create<'a>(plan: &PlanId, category: &'a NewCategory) -> (result: ApiRequest<'a>)
    ensures
        request_is(result, Method::Post, plan_path(*plan, seq!["categories"@]), no_query()),
        result.body == (Body::PostCategory(PostCategoryWrapper { category })),
{
    let mut path = start_path(plan);
    push_text(&mut path, "categories");
    proof {
        assert(texts(path@) =~= plan_path(*plan, seq!["categories"@]));
    }
    let query = empty_query();
    ApiRequest { method: Method::Post, segments: path, query, body: Body::PostCategory(PostCategoryWrapper { category }) }
}

/// Updates a category.
pub fn categories_update<'a>(plan: &PlanId, category: Uuid, value: &'a SaveCategory) -> (result: ApiRequest<'a>)
    ensures
        request_is(result, Method::Patch, plan_path(*plan, seq!["categories"@, uuid_text(category.0)]), no_query()),
        result.body == (Body::PatchCategory(PatchCategoryWrapper { category: value })),
{
    let mut path = start_path(plan);
    push_text(&mut path, "categories");
    push_string(&mut path, category.to_string());
    proof {
        assert(texts(path@) =~= plan_path(*plan, seq!["categories"@, uuid_text(category.0)]));
    }
    let query = empty_query();
    ApiRequest { method: Method::Patch, segments: path, query, body: Body::PatchCategory(PatchCategoryWrapper { category: value }) }
}

/// Gets a category in one month.
pub fn categories_get_month<'a>(plan: &PlanId, month: PlanMonth, category: Uuid) -> (result: ApiRequest<'a>)
    ensures
        request_is(result, Method::Get, plan_path(*plan, seq!["months"@, month_text(month), "categories"@, uuid_text(category.0)]), no_query()),
        result.body is Empty,
{
    let mut path = start_path(plan);
    push_text(&mut path, "months");
    push_string(&mut path, month.to_string());
    push_text(&mut path, "categories");
    push_string(&mut path, category.to_string());
    proof {
        assert(texts(path@) =~= plan_path(*plan, seq!["months"@, month_text(month), "categories"@, uuid_text(category.0)]));
    }
    let query = empty_query();
    ApiRequest { method: Method::Get, segments: path, query, body: Body::Empty }
}

/// Assigns money to a category in one month.
pub fn categories_update_month<'a>(plan: &PlanId, month: PlanMonth, category: Uuid, value: &'a SaveMonthCategory) -> (result: ApiRequest<'a>)
    ensures
        request_is(result, Method::Patch, plan_path(*plan, seq!["months"@, month_text(month), "categories"@, uuid_text(category.0)]), no_query()),
        result.body == (Body::PatchMonthCategory(PatchMonthCategoryWrapper { category: value })),
{
    let mut path = start_path(plan);
    push_text(&mut path, "months");
    push_string(&mut path, month.to_string());
    push_text(&mut path, "categories");
    push_string(&mut path, category.to_string());
    proof {
        assert(texts(path@) =~= plan_path(*plan, seq!["months"@, month_text(month), "categories"@, uuid_text(category.0)]));
    }
    let query = empty_query();
    ApiRequest { method: Method::Patch, segments: path, query, body: Body::PatchMonthCategory(PatchMonthCategoryWrapper { category: value }) }
}

/// Creates a category group.
pub fn category_groups_create<'a>(plan: &PlanId, group: &'a SaveCategoryGroup) -> (result: ApiRequest<'a>)
    ensures
        request_is(result, Method::Post, plan_path(*plan, seq!["category_groups"@]), no_query()),
        result.body == (Body::CategoryGroup(PostCategoryGroupWrapper { category_group: group })),
{
    let mut path = start_path(plan);
    push_text(&mut path, "category_groups");
    proof {
        assert(texts(path@) =~= plan_path(*plan, seq!["category_groups"@]));
    }
    let query = empty_query();
    ApiRequest { method: Method::Post, segments: path, query, body: Body::CategoryGroup(PostCategoryGroupWrapper { category_group: group }) }
}

/// Renames a category group.
pub fn category_groups_update<'a>(plan: &PlanId, group: Uuid, value: &'a SaveCategoryGroup) -> (result: ApiRequest<'a>)
    ensures
        request_is(result, Method::Patch, plan_path(*plan, seq!["category_groups"@, uuid_text(group.0)]), no_query()),
        result.body == (Body::CategoryGroup(PostCategoryGroupWrapper { category_group: value })),
{
    let mut path = start_path(plan);
    push_text(&mut path, "category_groups");
    push_string(&mut path, group.to_string());
    proof {
        assert(texts(path@) =~= plan_path(*plan, seq!["category_groups"@, uuid_text(group.0)]));
    }
    let query = empty_query();
    ApiRequest { method: Method::Patch, segments: path, query, body: Body::CategoryGroup(PostCategoryGroupWrapper { category_group: value }) }
}

/// Lists a plan's payees.
pub fn payees_list<'a>(plan: &PlanId, last_knowledge: Option<ServerKnowledge>) -> (result: ApiRequest<'a>)
    ensures
        request_is(result, Method::Get, plan_path(*plan, seq!["payees"@]), knowledge_query(last_knowledge)),
        result.body is Empty,
{
    let mut path = start_path(plan);
    push_text(&mut path, "payees");
    proof {
        assert(texts(path@) =~= plan_path(*plan, seq!["payees"@]));
    }
    let query = knowledge_pairs(last_knowledge);
    ApiRequest { method: Method::Get, segments: path, query, body: Body::Empty }
}

/// Gets a payee.
pub fn payees_get<'a>(plan: &PlanId, payee: Uuid) -> (result: ApiRequest<'a>)
    ensures
        request_is(result, Method::Get, plan_path(*plan, seq!["payees"@, uuid_text(payee.0)]), no_query()),
        result.body is Empty,
{
    let mut path = start_path(plan);
    push_text(&mut path, "payees");
    push_string(&mut path, payee.to_string());
    proof {
        assert(texts(path@) =~= plan_path(*plan, seq!["payees"@, uuid_text(payee.0)]));
    }
    let query = empty_query();
    ApiRequest { method: Method::Get, segments: path, query, body: Body::Empty }
}

/// Creates a payee.
pub fn payees_create<'a>(plan: &PlanId, payee: &'a PostPayee) -> (result: ApiRequest<'a>)
    ensures
        request_is(result, Method::Post, plan_path(*plan, seq!["payees"@]), no_query()),
        result.body == (Body::PostPayee(PostPayeeWrapper { payee })),
{
    let mut path = start_path(plan);
    push_text(&mut path, "payees");
    proof {
        assert(texts(path@) =~= plan_path(*plan, seq!["payees"@]));
    }
    let query = empty_query();
    ApiRequest { method: Method::Post, segments: path, query, body: Body::PostPayee(PostPayeeWrapper { payee }) }
}

/// Renames a payee.
pub fn payees_update<'a>(plan: &PlanId, payee: Uuid, value: &'a SavePayee) -> (result: ApiRequest<'a>)
    ensures
        request_is(result, Method::Patch, plan_path(*plan, seq!["payees"@, uuid_text(payee.0)]), no_query()),
        result.body == (Body::PatchPayee(PatchPayeeWrapper { payee: value })),
{
    let mut path = start_path(plan);
    push_text(&mut path, "payees");
    push_string(&mut path, payee.to_string());
    proof {
        assert(texts(path@) =~= plan_path(*plan, seq!["payees"@, uuid_text(payee.0)]));
    }
    let query = empty_query();
    ApiRequest { method: Method::Patch, segments: path, query, body: Body::PatchPayee(PatchPayeeWrapper { payee: value }) }
}

/// Lists a plan's payee locations.
pub fn payee_locations_list<'a>(plan: &PlanId) -> (result: ApiRequest<'a>)
    ensures
        request_is(result, Method::Get, plan_path(*plan, seq!["payee_locations"@]), no_query()),
        result.body is Empty,
{
    let mut path = start_path(plan);
    push_text(&mut path, "payee_locations");
    proof {
        assert(texts(path@) =~= plan_path(*plan, seq!["payee_locations"@]));
    }
    let query = empty_query();
    ApiRequest { method: Method::Get, segments: path, query, body: Body::Empty }
}

/// Gets a payee location.
pub fn payee_locations_get<'a>(plan: &PlanId, location: Uuid) -> (result: ApiRequest<'a>)
    ensures
        request_is(result, Method::Get, plan_path(*plan, seq!["payee_locations"@, uuid_text(location.0)]), no_query()),
        result.body is Empty,
{
    let mut path = start_path(plan);
    push_text(&mut path, "payee_locations");
    push_string(&mut path, location.to_string());
    proof {
        assert(texts(path@) =~= plan_path(*plan, seq!["payee_locations"@, uuid_text(location.0)]));
    }
    let query = empty_query();
    ApiRequest { method: Method::Get, segments: path, query, body: Body::Empty }
}

/// Lists one payee's locations.
pub fn payee_locations_list_for_payee<'a>(plan: &PlanId, payee: Uuid) -> (result: ApiRequest<'a>)
    ensures
        request_is(result, Method::Get, plan_path(*plan, seq!["payees"@, uuid_text(payee.0), "payee_locations"@]), no_query()),
        result.body is Empty,
{
    let mut path = start_path(plan);
    push_text(&mut path, "payees");
    push_string(&mut path, payee.to_string());
    push_text(&mut path, "payee_locations");
    proof {
        assert(texts(path@) =~= plan_path(*plan, seq!["payees"@, uuid_text(payee.0), "payee_locations"@]));
    }
    let query = empty_query();
    ApiRequest { method: Method::Get, segments: path, query, body: Body::Empty }
}

/// Lists a plan's months.
pub fn months_list<'a>(plan: &PlanId, last_knowledge: Option<ServerKnowledge>) -> (result: ApiRequest<'a>)
    ensures
        request_is(result, Method::Get, plan_path(*plan, seq!["months"@]), knowledge_query(last_knowledge)),
        result.body is Empty,
{
    let mut path = start_path(plan);
    push_text(&mut path, "months");
    proof {
        assert(texts(path@) =~= plan_path(*plan, seq!["months"@]));
    }
    let query = knowledge_pairs(last_knowledge);
    ApiRequest { method: Method::Get, segments: path, query, body: Body::Empty }
}

/// Gets one month with its categories.
pub fn months_get<'a>(plan: &PlanId, month: PlanMonth) -> (result: ApiRequest<'a>)
    ensures
        request_is(result, Method::Get, plan_path(*plan, seq!["months"@, month_text(month)]), no_query()),
        result.body is Empty,
{
    let mut path = start_path(plan);
    push_text(&mut path, "months");
    push_string(&mut path, month.to_string());
    proof {
        assert(texts(path@) =~= plan_path(*plan, seq!["months"@, month_text(month)]));
    }
    let query = empty_query();
    ApiRequest { method: Method::Get, segments: path, query, body: Body::Empty }
}

/// Lists a plan's money movements.
pub fn money_movements_list<'a>(plan: &PlanId) -> (result: ApiRequest<'a>)
    ensures
        request_is(result, Method::Get, plan_path(*plan, seq!["money_movements"@]), no_query()),
        result.body is Empty,
{
    let mut path = start_path(plan);
    push_text(&mut path, "money_movements");
    proof {
        assert(texts(path@) =~= plan_path(*plan, seq!["money_movements"@]));
    }
    let query = empty_query();
    ApiRequest { method: Method::Get, segments: path, query, body: Body::Empty }
}

/// Lists one month's money movements.
pub fn money_movements_list_for_month<'a>(plan: &PlanId, month: PlanMonth) -> (result: ApiRequest<'a>)
    ensures
        request_is(result, Method::Get, plan_path(*plan, seq!["months"@, month_text(month), "money_movements"@]), no_query()),
        result.body is Empty,
{
    let mut path = start_path(plan);
    push_text(&mut path, "months");
    push_string(&mut path, month.to_string());
    push_text(&mut path, "money_movements");
    proof {
        assert(texts(path@) =~= plan_path(*plan, seq!["months"@, month_text(month), "money_movements"@]));
    }
    let query = empty_query();
    ApiRequest { method: Method::Get, segments: path, query, body: Body::Empty }
}

/// Lists a plan's money movement groups.
pub fn money_movement_groups_list<'a>(plan: &PlanId) -> (result: ApiRequest<'a>)
    ensures
        request_is(result, Method::Get, plan_path(*plan, seq!["money_movement_groups"@]), no_query()),
        result.body is Empty,
{
    let mut path = start_path(plan);
    push_text(&mut path, "money_movement_groups");
    proof {
        assert(texts(path@) =~= plan_path(*plan, seq!["money_movement_groups"@]));
    }
    let query = empty_query();
    ApiRequest { method: Method::Get, segments: path, query, body: Body::Empty }
}

/// Lists one month's money movement groups.
pub fn money_movement_groups_list_for_month<'a>(plan: &PlanId, month: PlanMonth) -> (result: ApiRequest<'a>)
    ensures
        request_is(result, Method::Get, plan_path(*plan, seq!["months"@, month_text(month), "money_movement_groups"@]), no_query()),
        result.body is Empty,
{
    let mut path = start_path(plan);
    push_text(&mut path, "months");
    push_string(&mut path, month.to_string());
    push_text(&mut path, "money_movement_groups");
    proof {
        assert(texts(path@) =~= plan_path(*plan, seq!["months"@, month_text(month), "money_movement_groups"@]));
    }
    let query = empty_query();
    ApiRequest { method: Method::Get, segments: path, query, body: Body::Empty }
}

/// Gets a transaction.
pub fn transactions_get<'a>(plan: &PlanId, transaction: &str) -> (result: ApiRequest<'a>)
    ensures
        request_is(result, Method::Get, plan_path(*plan, seq!["transactions"@, transaction@]), no_query()),
        result.body is Empty,
{
    let mut path = start_path(plan);
    push_text(&mut path, "transactions");
    push_text(&mut path, transaction);
    proof {
        assert(texts(path@) =~= plan_path(*plan, seq!["transactions"@, transaction@]));
    }
    let query = empty_query();
    ApiRequest { method: Method::Get, segments: path, query, body: Body::Empty }
}

/// Imports transactions from linked accounts.
pub fn transactions_import<'a>(plan: &PlanId) -> (result: ApiRequest<'a>)
    ensures
        request_is(result, Method::Post, plan_path(*plan, seq!["transactions"@, "import"@]), no_query()),
        result.body is Empty,
{
    let mut path = start_path(plan);
    push_text(&mut path, "transactions");
    push_text(&mut path, "import");
    proof {
        assert(texts(path@) =~= plan_path(*plan, seq!["transactions"@, "import"@]));
    }
    let query = empty_query();
    ApiRequest { method: Method::Post, segments: path, query, body: Body::Empty }
}

/// Deletes a transaction.
pub fn transactions_delete<'a>(plan: &PlanId, transaction: &str) -> (result: ApiRequest<'a>)
    ensures
        request_is(result, Method::Delete, plan_path(*plan, seq!["transactions"@, transaction@]), no_query()),
        result.body is Empty,
{
    let mut path = start_path(plan);
    push_text(&mut path, "transactions");
    push_text(&mut path, transaction);
    proof {
        assert(texts(path@) =~= plan_path(*plan, seq!["transactions"@, transaction@]));
    }
    let query = empty_query();
    ApiRequest { method: Method::Delete, segments: path, query, body: Body::Empty }
}

/// Lists a plan's scheduled transactions.
pub fn scheduled_transactions_list<'a>(plan: &PlanId, last_knowledge: Option<ServerKnowledge>) -> (result: ApiRequest<'a>)
    ensures
        request_is(result, Method::Get, plan_path(*plan, seq!["scheduled_transactions"@]), knowledge_query(last_knowledge)),
        result.body is Empty,
{
    let mut path = start_path(plan);
    push_text(&mut path, "scheduled_transactions");
    proof {
        assert(texts(path@) =~= plan_path(*plan, seq!["scheduled_transactions"@]));
    }
    let query = knowledge_pairs(last_knowledge);
    ApiRequest { method: Method::Get, segments: path, query, body: Body::Empty }
}

/// Gets a scheduled transaction.
pub fn scheduled_transactions_get<'a>(plan: &PlanId, id: Uuid) -> (result: ApiRequest<'a>)
    ensures
        request_is(result, Method::Get, plan_path(*plan, seq!["scheduled_transactions"@, uuid_text(id.0)]), no_query()),
        result.body is Empty,
{
    let mut path = start_path(plan);
    push_text(&mut path, "scheduled_transactions");
    push_string(&mut path, id.to_string());
    proof {
        assert(texts(path@) =~= plan_path(*plan, seq!["scheduled_transactions"@, uuid_text(id.0)]));
    }
    let query = empty_query();
    ApiRequest { method: Method::Get, segments: path, query, body: Body::Empty }
}

/// Creates a scheduled transaction.
pub fn scheduled_transactions_create<'a>(plan: &PlanId, value: &'a SaveScheduledTransaction) -> (result: ApiRequest<'a>)
    ensures
        request_is(result, Method::Post, plan_path(*plan, seq!["scheduled_transactions"@]), no_query()),
        result.body == (Body::ScheduledTransaction(PostScheduledTransactionWrapper { scheduled_transaction: value })),
{
    let mut path = start_path(plan);
    push_text(&mut path, "scheduled_transactions");
    proof {
        assert(texts(path@) =~= plan_path(*plan, seq!["scheduled_transactions"@]));
    }
    let query = empty_query();
    ApiRequest { method: Method::Post, segments: path, query, body: Body::ScheduledTransaction(PostScheduledTransactionWrapper { scheduled_transaction: value }) }
}

/// Replaces a scheduled transaction.
pub fn scheduled_transactions_update<'a>(plan: &PlanId, id: Uuid, value: &'a SaveScheduledTransaction) -> (result: ApiRequest<'a>)
    ensures
        request_is(result, Method::Put, plan_path(*plan, seq!["scheduled_transactions"@, uuid_text(id.0)]), no_query()),
        result.body == (Body::ScheduledTransaction(PostScheduledTransactionWrapper { scheduled_transaction: value })),
{
    let mut path = start_path(plan);
    push_text(&mut path, "scheduled_transactions");
    push_string(&mut path, id.to_string());
    proof {
        assert(texts(path@) =~= plan_path(*plan, seq!["scheduled_transactions"@, uuid_text(id.0)]));
    }
    let query = empty_query();
    ApiRequest { method: Method::Put, segments: path, query, body: Body::ScheduledTransaction(PostScheduledTransactionWrapper { scheduled_transaction: value }) }
}

/// Deletes a scheduled transaction.
pub fn scheduled_transactions_delete<'a>(plan: &PlanId, id: Uuid) -> (result: ApiRequest<'a>)
    ensures
        request_is(result, Method::Delete, plan_path(*plan, seq!["scheduled_transactions"@, uuid_text(id.0)]), no_query()),
        result.body is Empty,
{
    let mut path = start_path(plan);
    push_text(&mut path, "scheduled_transactions");
    push_string(&mut path, id.to_string());
    proof {
        assert(texts(path@) =~= plan_path(*plan, seq!["scheduled_transactions"@, uuid_text(id.0)]));
    }
    let query = empty_query();
    ApiRequest { method: Method::Delete, segments: path, query, body: Body::Empty }
}


/// One query pair for an optional value.
pub open spec fn optional_pair(name: Seq<char>, value: Option<QueryValueView>) -> Seq<(Seq<char>, QueryValueView)> {
    match value {
        Some(v) => seq![(name, v)],
        None => Seq::empty(),
    }
}

pub open spec fn date_value(date: Option<CalendarDate>) -> Option<QueryValueView> {
    match date {
        Some(d) => Some(QueryValueView::Text(date_text(d.year_spec(), d.month_spec(), d.day_spec()))),
        None => None,
    }
}

/// The query of a transaction list: each filter that is set, as `since_date`,
/// `until_date`, `type` and `last_knowledge_of_server`.
pub open spec fn filter_query(filters: TransactionFilters) -> Seq<(Seq<char>, QueryValueView)> {
    optional_pair("since_date"@, date_value(filters.since_date)) + optional_pair(
        "until_date"@,
        date_value(filters.until_date),
    ) + optional_pair(
        "type"@,
        match filters.kind {
            Some(k) => Some(QueryValueView::Text(k.0@)),
            None => None,
        },
    ) + optional_pair(
        "last_knowledge_of_server"@,
        match filters.last_knowledge {
            Some(k) => Some(QueryValueView::Number(k.0)),
            None => None,
        },
    )
}

fn push_pair(pairs: &mut Vec<QueryPair>, name: &str, value: QueryValue)
    ensures
        query_view(final(pairs)@) == query_view(old(pairs)@) + seq![(name@, query_value_view(value))],
{
    let ghost v = query_value_view(value);
    pairs.push(QueryPair { name: owned(name), value });
    assert(query_view(pairs@) =~= query_view(old(pairs)@) + seq![(name@, v)]);
}

fn filter_pairs(filters: &TransactionFilters) -> (result: Vec<QueryPair>)
    ensures
        query_view(result@) == filter_query(*filters),
{
    let mut pairs: Vec<QueryPair> = Vec::new();
    assert(query_view(pairs@) =~= Seq::<(Seq<char>, QueryValueView)>::empty());
    let ghost q0 = query_view(pairs@);
    match &filters.since_date {
        Some(d) => push_pair(&mut pairs, "since_date", QueryValue::Text(d.to_string())),
        None => {},
    }
    assert(query_view(pairs@) =~= optional_pair("since_date"@, date_value(filters.since_date)));
    let ghost q1 = query_view(pairs@);
    match &filters.until_date {
        Some(d) => push_pair(&mut pairs, "until_date", QueryValue::Text(d.to_string())),
        None => {},
    }
    assert(query_view(pairs@) =~= q1 + optional_pair("until_date"@, date_value(filters.until_date)));
    let ghost q2 = query_view(pairs@);
    match &filters.kind {
        Some(k) => push_pair(&mut pairs, "type", QueryValue::Text(k.0.clone())),
        None => {},
    }
    let ghost q3 = query_view(pairs@);
    match filters.last_knowledge {
        Some(k) => push_pair(&mut pairs, "last_knowledge_of_server", QueryValue::Number(k.0)),
        None => {},
    }
    assert(query_view(pairs@) =~= filter_query(*filters));
    pairs
}

/// Which transactions a list covers: the whole plan, or one account, category, payee
/// or month.
#[derive(Clone, Copy, Debug, PartialEq, Eq)]
pub enum TransactionScope {
    Plan,
    Account(Uuid),
    Category(Uuid),
    Payee(Uuid),
    Month(PlanMonth),
}

/// The path of a transaction list in a scope.
pub open spec fn scope_path(plan: PlanId, scope: TransactionScope) -> Seq<Seq<char>> {
    match scope {
        TransactionScope::Plan => plan_path(plan, seq!["transactions"@]),
        TransactionScope::Account(id) => plan_path(plan, seq!["accounts"@, uuid_text(id.0), "transactions"@]),
        TransactionScope::Category(id) => plan_path(plan, seq!["categories"@, uuid_text(id.0), "transactions"@]),
        TransactionScope::Payee(id) => plan_path(plan, seq!["payees"@, uuid_text(id.0), "transactions"@]),
        TransactionScope::Month(m) => plan_path(plan, seq!["months"@, month_text(m), "transactions"@]),
    }
}

/// Lists the transactions of a scope, with the filters as query.
pub fn transactions_list_at<'a>(plan: &PlanId, scope: TransactionScope, filters: &TransactionFilters) -> (result: ApiRequest<'a>)
    ensures
        request_is(result, Method::Get, scope_path(*plan, scope), filter_query(*filters)),
        result.body is Empty,
{
    let mut path = start_path(plan);
    match scope {
        TransactionScope::Plan => {},
        TransactionScope::Account(id) => {
            push_text(&mut path, "accounts");
            push_string(&mut path, id.to_string());
        },
        TransactionScope::Category(id) => {
            push_text(&mut path, "categories");
            push_string(&mut path, id.to_string());
        },
        TransactionScope::Payee(id) => {
            push_text(&mut path, "payees");
            push_string(&mut path, id.to_string());
        },
        TransactionScope::Month(m) => {
            push_text(&mut path, "months");
            push_string(&mut path, m.to_string());
        },
    }
    push_text(&mut path, "transactions");
    proof {
        assert(texts(path@) =~= scope_path(*plan, scope));
    }
    let query = filter_pairs(filters);
    ApiRequest { method: Method::Get, segments: path, query, body: Body::Empty }
}

/// Lists a plan's transactions.
pub fn transactions_list<'a>(plan: &PlanId, filters: &TransactionFilters) -> (result: ApiRequest<'a>)
    ensures
        request_is(result, Method::Get, scope_path(*plan, TransactionScope::Plan), filter_query(*filters)),
        result.body is Empty,
{
    transactions_list_at(plan, TransactionScope::Plan, filters)
}

/// Lists one account's transactions.
pub fn transactions_list_for_account<'a>(plan: &PlanId, account: Uuid, filters: &TransactionFilters) -> (result: ApiRequest<'a>)
    ensures
        request_is(result, Method::Get, scope_path(*plan, TransactionScope::Account(account)), filter_query(*filters)),
        result.body is Empty,
{
    transactions_list_at(plan, TransactionScope::Account(account), filters)
}

/// Lists one category's transactions and subtransactions.
pub fn transactions_list_for_category<'a>(plan: &PlanId, category: Uuid, filters: &TransactionFilters) -> (result: ApiRequest<'a>)
    ensures
        request_is(result, Method::Get, scope_path(*plan, TransactionScope::Category(category)), filter_query(*filters)),
        result.body is Empty,
{
    transactions_list_at(plan, TransactionScope::Category(category), filters)
}

/// Lists one payee's transactions and subtransactions.
pub fn transactions_list_for_payee<'a>(plan: &PlanId, payee: Uuid, filters: &TransactionFilters) -> (result: ApiRequest<'a>)
    ensures
        request_is(result, Method::Get, scope_path(*plan, TransactionScope::Payee(payee)), filter_query(*filters)),
        result.body is Empty,
{
    transactions_list_at(plan, TransactionScope::Payee(payee), filters)
}

/// Lists one month's transactions.
pub fn transactions_list_for_month<'a>(plan: &PlanId, month: PlanMonth, filters: &TransactionFilters) -> (result: ApiRequest<'a>)
    ensures
        request_is(result, Method::Get, scope_path(*plan, TransactionScope::Month(month)), filter_query(*filters)),
        result.body is Empty,
{
    transactions_list_at(plan, TransactionScope::Month(month), filters)
}

/// Creates one transaction or a batch; a batch that is empty, or any transaction that
/// names its payee twice, is refused before a request is made.
pub fn transactions_create<'a>(plan: &PlanId, value: &'a CreateTransactions) -> (result: Result<ApiRequest<'a>, ApiError>)
    ensures
        match *value {
            CreateTransactions::One(t) => payee_conflict(t.transaction) ==> result matches Err(ApiError::Validation(ValidationError::PayeeConflict)),
            CreateTransactions::Many(ts) => (ts@.len() == 0 ==> (result matches Err(ApiError::Validation(ValidationError::EmptyTransactions))))
                && (ts@.len() > 0 && any_payee_conflict(ts@) ==> (result matches Err(ApiError::Validation(ValidationError::PayeeConflict)))),
        },
        result matches Ok(request) ==> (request_is(request, Method::Post, plan_path(*plan, seq!["transactions"@]), no_query())
            && request.body == Body::PostTransactions(value)),
        result is Ok <==> match *value {
            CreateTransactions::One(t) => !payee_conflict(t.transaction),
            CreateTransactions::Many(ts) => ts@.len() > 0 && !any_payee_conflict(ts@),
        },
{
    match value.validate() {
        Ok(()) => {},
        Err(error) => return Err(ApiError::Validation(error)),
    }
    let mut path = start_path(plan);
    push_text(&mut path, "transactions");
    proof {
        assert(texts(path@) =~= plan_path(*plan, seq!["transactions"@]));
    }
    let query = empty_query();
    Ok(ApiRequest { method: Method::Post, segments: path, query, body: Body::PostTransactions(value) })
}

/// Replaces a transaction's fields; a transaction that names its payee twice is refused
/// before a request is made.
pub fn transactions_update<'a>(plan: &PlanId, transaction: &str, value: &'a ExistingTransaction) -> (result: Result<ApiRequest<'a>, ApiError>)
    ensures
        payee_conflict(*value) ==> result matches Err(ApiError::Validation(ValidationError::PayeeConflict)),
        !payee_conflict(*value) ==> (result matches Ok(request)
            && request_is(request, Method::Put, plan_path(*plan, seq!["transactions"@, transaction@]), no_query())
            && request.body == Body::PutTransaction(PutTransactionWrapper { transaction: value })),
{
    match value.validate() {
        Ok(()) => {},
        Err(error) => return Err(ApiError::Validation(error)),
    }
    let mut path = start_path(plan);
    push_text(&mut path, "transactions");
    push_text(&mut path, transaction);
    proof {
        assert(texts(path@) =~= plan_path(*plan, seq!["transactions"@, transaction@]));
    }
    let query = empty_query();
    Ok(ApiRequest { method: Method::Put, segments: path, query, body: Body::PutTransaction(PutTransactionWrapper { transaction: value }) })
}

/// Updates several transactions at once; an empty update, or the first faulty item,
/// is refused before a request is made.
pub fn transactions_update_bulk<'a>(plan: &PlanId, values: &'a [SaveTransactionWithIdOrImportId]) -> (result: Result<ApiRequest<'a>, ApiError>)
    ensures
        values@.len() == 0 ==> result matches Err(ApiError::Validation(ValidationError::EmptyTransactions)),
        values@.len() > 0 ==> match first_bulk_error(values@) {
            Some(error) => (result matches Err(ApiError::Validation(e)) && e == error),
            None => (result matches Ok(request)
                && request_is(request, Method::Patch, plan_path(*plan, seq!["transactions"@]), no_query())
                && request.body == Body::PatchTransactions(PatchTransactionsWrapper { transactions: values })),
        },
{
    match validate_bulk(values) {
        Ok(()) => {},
        Err(error) => return Err(ApiError::Validation(error)),
    }
    let mut path = start_path(plan);
    push_text(&mut path, "transactions");
    proof {
        assert(texts(path@) =~= plan_path(*plan, seq!["transactions"@]));
    }
    let query = empty_query();
    Ok(ApiRequest { method: Method::Patch, segments: path, query, body: Body::PatchTransactions(PatchTransactionsWrapper { transactions: values }) })
}

} // verus!
