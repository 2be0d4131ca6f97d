//! The read commands of the command line and the request each one sends: every read
//! asks about the plan it names, or about the last-used plan when it names none.
use crate::cli::read_plan;
use crate::dates::PlanMonth;
use crate::endpoints::{
    accounts_get, accounts_list, categories_get, categories_get_month, categories_list,
    knowledge_query, money_movement_groups_list, money_movement_groups_list_for_month,
    money_movements_list, money_movements_list_for_month, month_text, months_get, months_list,
    no_query, payee_locations_get, payee_locations_list, payee_locations_list_for_payee,
    payees_get, payees_list, plan_path, plans_get, plans_settings, request_is,
    scheduled_transactions_get, scheduled_transactions_list, filter_query, scope_path,
    transactions_get, transactions_list_at, ApiRequest, QueryValueView, TransactionScope,
};
use crate::ids::{uuid_text, PlanId, Uuid};
use crate::models::TransactionFilters;
use crate::money::ServerKnowledge;
use crate::retry::Method;
use vstd::prelude::*;

verus! {

/// A command that reads from a plan, without the plan it names.
#[derive(Clone, Debug)]
pub enum ReadCommand {
    PlanShow { last_knowledge: Option<u64> },
    PlanSettings,
    AccountList { last_knowledge: Option<u64> },
    AccountShow { id: Uuid },
    CategoryList { last_knowledge: Option<u64> },
    CategoryShow { id: Uuid },
    CategoryMonthShow { month: PlanMonth, id: Uuid },
    PayeeList { last_knowledge: Option<u64> },
    PayeeShow { id: Uuid },
    PayeeLocationList { payee: Option<Uuid> },
    PayeeLocationShow { id: Uuid },
    MonthList { last_knowledge: Option<u64> },
    MonthShow { month: PlanMonth },
    MoneyMovementList { month: Option<PlanMonth> },
    MoneyMovementGroupList { month: Option<PlanMonth> },
    TransactionList { scope: TransactionScope, filters: TransactionFilters },
    TransactionShow { id: String },
    ScheduledTransactionList { last_knowledge: Option<u64> },
    ScheduledTransactionShow { id: Uuid },
}

/// The plan a read is about: the one it names, else the last-used plan.
pub open spec fn read_plan_of(plan: Option<PlanId>) -> PlanId {
    match plan {
        Some(p) => p,
        None => PlanId::LastUsed,
    }
}

pub open spec fn knowledge_of(last_knowledge: Option<u64>) -> Option<ServerKnowledge> {
    match last_knowledge {
        Some(k) => Some(ServerKnowledge(k)),
        None => None,
    }
}

/// The path below `plans/{plan}` that a transaction list in this scope reads.
pub open spec fn scope_tail(scope: TransactionScope) -> Seq<Seq<char>> {
    match scope {
        TransactionScope::Plan => seq!["transactions"@],
        TransactionScope::Account(id) => seq!["accounts"@, uuid_text(id.0), "transactions"@],
        TransactionScope::Category(id) => seq!["categories"@, uuid_text(id.0), "transactions"@],
        TransactionScope::Payee(id) => seq!["payees"@, uuid_text(id.0), "transactions"@],
        TransactionScope::Month(m) => seq!["months"@, month_text(m), "transactions"@],
    }
}

/// Each scope lists the transactions of its own resource: the plan's, or those under
/// `accounts/{id}`, `categories/{id}`, `payees/{id}` or `months/{month}`.
pub proof fn law_scopes_route_to_their_resource(id: Uuid, month: PlanMonth)
    ensures
        scope_tail(TransactionScope::Plan) == seq!["transactions"@],
        scope_tail(TransactionScope::Account(id)) == seq!["accounts"@, uuid_text(id.0), "transactions"@],
        scope_tail(TransactionScope::Category(id)) == seq![
            "categories"@,
            uuid_text(id.0),
            "transactions"@,
        ],
        scope_tail(TransactionScope::Payee(id)) == seq!["payees"@, uuid_text(id.0), "transactions"@],
        scope_tail(TransactionScope::Month(month)) == seq![
            "months"@,
            month_text(month),
            "transactions"@,
        ],
{
}

/// The path below `plans/{plan}` that a read command asks for.
pub open spec fn read_tail(command: ReadCommand) -> Seq<Seq<char>> {
    match command {
        ReadCommand::PlanShow { .. } => Seq::empty(),
        ReadCommand::PlanSettings => seq!["settings"@],
        ReadCommand::AccountList { .. } => seq!["accounts"@],
        ReadCommand::AccountShow { id } => seq!["accounts"@, uuid_text(id.0)],
        ReadCommand::CategoryList { .. } => seq!["categories"@],
        ReadCommand::CategoryShow { id } => seq!["categories"@, uuid_text(id.0)],
        ReadCommand::CategoryMonthShow { month, id } => seq![
            "months"@,
            month_text(month),
            "categories"@,
            uuid_text(id.0),
        ],
        ReadCommand::PayeeList { .. } => seq!["payees"@],
        ReadCommand::PayeeShow { id } => seq!["payees"@, uuid_text(id.0)],
        ReadCommand::PayeeLocationList { payee } => match payee {
            Some(p) => seq!["payees"@, uuid_text(p.0), "payee_locations"@],
            None => seq!["payee_locations"@],
        },
        ReadCommand::PayeeLocationShow { id } => seq!["payee_locations"@, uuid_text(id.0)],
        ReadCommand::MonthList { .. } => seq!["months"@],
        ReadCommand::MonthShow { month } => seq!["months"@, month_text(month)],
        ReadCommand::MoneyMovementList { month } => match month {
            Some(m) => seq!["months"@, month_text(m), "money_movements"@],
            None => seq!["money_movements"@],
        },
        ReadCommand::MoneyMovementGroupList { month } => match month {
            Some(m) => seq!["months"@, month_text(m), "money_movement_groups"@],
            None => seq!["money_movement_groups"@],
        },
        ReadCommand::TransactionList { scope, .. } => scope_tail(scope),
        ReadCommand::TransactionShow { id } => seq!["transactions"@, id@],
        ReadCommand::ScheduledTransactionList { .. } => seq!["scheduled_transactions"@],
        ReadCommand::ScheduledTransactionShow { id } => seq![
            "scheduled_transactions"@,
            uuid_text(id.0),
        ],
    }
}

/// The query a read command sends: the delta knowledge of a list, the filters of a
/// transaction list, nothing otherwise.
pub open spec fn read_query(command: ReadCommand) -> Seq<(Seq<char>, QueryValueView)> {
    match command {
        ReadCommand::PlanShow { last_knowledge } => knowledge_query(knowledge_of(last_knowledge)),
        ReadCommand::AccountList { last_knowledge } => knowledge_query(knowledge_of(last_knowledge)),
        ReadCommand::CategoryList { last_knowledge } => knowledge_query(
            knowledge_of(last_knowledge),
        ),
        ReadCommand::PayeeList { last_knowledge } => knowledge_query(knowledge_of(last_knowledge)),
        ReadCommand::MonthList { last_knowledge } => knowledge_query(knowledge_of(last_knowledge)),
        ReadCommand::ScheduledTransactionList { last_knowledge } => knowledge_query(
            knowledge_of(last_knowledge),
        ),
        ReadCommand::TransactionList { filters, .. } => filter_query(filters),
        _ => no_query(),
    }
}

fn knowledge(last_knowledge: Option<u64>) -> (result: Option<ServerKnowledge>)
    ensures
        result == knowledge_of(last_knowledge),
{
    match last_knowledge {
        Some(k) => Some(ServerKnowledge(k)),
        None => None,
    }
}

/// The request a read command sends: a GET of its path under the plan it names, or
/// under the last-used plan when it names none, with its query and no body.
pub fn read_request<'a>(plan: Option<PlanId>, command: &ReadCommand) -> (result: ApiRequest<'a>)
    ensures
        request_is(result, Method::Get, plan_path(read_plan_of(plan), read_tail(*command)), read_query(*command)),
        result.body is Empty,
{
    let plan = read_plan(plan);
    match command {
        ReadCommand::PlanShow { last_knowledge } => plans_get(&plan, knowledge(*last_knowledge)),
        ReadCommand::PlanSettings => plans_settings(&plan),
        ReadCommand::AccountList { last_knowledge } => accounts_list(&plan, knowledge(*last_knowledge)),
        ReadCommand::AccountShow { id } => accounts_get(&plan, *id),
        ReadCommand::CategoryList { last_knowledge } => categories_list(
            &plan,
            knowledge(*last_knowledge),
        ),
        ReadCommand::CategoryShow { id } => categories_get(&plan, *id),
        ReadCommand::CategoryMonthShow { month, id } => categories_get_month(&plan, *month, *id),
        ReadCommand::PayeeList { last_knowledge } => payees_list(&plan, knowledge(*last_knowledge)),
        ReadCommand::PayeeShow { id } => payees_get(&plan, *id),
        ReadCommand::PayeeLocationList { payee } => match payee {
            Some(p) => payee_locations_list_for_payee(&plan, *p),
            None => payee_locations_list(&plan),
        },
        ReadCommand::PayeeLocationShow { id } => payee_locations_get(&plan, *id),
        ReadCommand::MonthList { last_knowledge } => months_list(&plan, knowledge(*last_knowledge)),
        ReadCommand::MonthShow { month } => months_get(&plan, *month),
        ReadCommand::MoneyMovementList { month } => match month {
            Some(m) => money_movements_list_for_month(&plan, *m),
            None => money_movements_list(&plan),
        },
        ReadCommand::MoneyMovementGroupList { month } => match month {
            Some(m) => money_movement_groups_list_for_month(&plan, *m),
            None => money_movement_groups_list(&plan),
        },
        ReadCommand::TransactionList { scope, filters } => {
            let request = transactions_list_at(&plan, *scope, filters);
            proof {
                assert(scope_path(plan, *scope) == plan_path(plan, scope_tail(*scope)));
            }
            request
        },
        ReadCommand::TransactionShow { id } => transactions_get(&plan, id.as_str()),
        ReadCommand::ScheduledTransactionList { last_knowledge } => scheduled_transactions_list(
            &plan,
            knowledge(*last_knowledge),
        ),
        ReadCommand::ScheduledTransactionShow { id } => scheduled_transactions_get(&plan, *id),
    }
}

/// Reads default to the last-used plan: a read command that names no plan sends the
/// very request it sends with `--plan last-used`, a GET under `plans/last-used`.
pub proof fn law_reads_default_to_last_used(command: ReadCommand)
    ensures
        plan_path(read_plan_of(None), read_tail(command)) == plan_path(
            read_plan_of(Some(PlanId::LastUsed)),
            read_tail(command),
        ),
        plan_path(read_plan_of(None), read_tail(command)).subrange(0, 2) == seq![
            "plans"@,
            "last-used"@,
        ],
{
    assert(plan_path(read_plan_of(None), read_tail(command)).subrange(0, 2) =~= seq![
        "plans"@,
        "last-used"@,
    ]);
}

} // verus!
