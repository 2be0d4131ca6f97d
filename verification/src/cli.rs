//! What the command line decides: how its arguments become API requests, which
//! writes it refuses, and where its credentials come from.
use crate::dates::{iso_date_parsed, CalendarDate, PlanMonth};
use crate::endpoints::TransactionScope;
use crate::errors::CliError;
use crate::ids::{PlanId, Uuid};
use crate::models::{
    ExistingTransaction, GoalFrequency, NewCategory, Nullable, SaveAccountType, SaveCategory,
    SaveScheduledTransaction, ScheduledTransactionFrequency, TransactionClearedStatus,
    TransactionFilters, TransactionFlagColor, TransactionType,
};
use crate::money::{exact_milliunits, parse_decimal, parsed_decimal, Milliunits, ServerKnowledge};
use crate::text::owned;
use vstd::prelude::*;
use vstd::string::*;

verus! {

/// How a command's result is written.
#[derive(Clone, Copy, Debug, PartialEq, Eq, Structural)]
pub enum Output {
    Json,
    Table,
}

#[derive(Clone, Copy, Debug, PartialEq, Eq, Structural)]
pub enum UserCommand {
    Show,
}

#[derive(Clone, Copy, Debug, PartialEq, Eq, Structural)]
pub struct UserArgs {
    pub command: UserCommand,
}

#[derive(Clone, Copy, Debug, PartialEq, Eq, Structural)]
pub enum AuthCommand {
    Store,
    Clear,
    Status,
}

#[derive(Clone, Copy, Debug, PartialEq, Eq, Structural)]
pub struct AuthArgs {
    pub command: AuthCommand,
}

#[derive(Clone, Copy, Debug, PartialEq, Eq, Structural)]
pub enum SaveAccountTypeArg {
    Checking,
    Savings,
    Cash,
    CreditCard,
    OtherAsset,
    OtherLiability,
}

#[derive(Clone, Copy, Debug, PartialEq, Eq, Structural)]
pub enum GoalFrequencyArg {
    Monthly,
    Weekly,
    Yearly,
}

#[derive(Clone, Copy, Debug, PartialEq, Eq, Structural)]
pub enum ClearedArg {
    Cleared,
    Uncleared,
    Reconciled,
}

#[derive(Clone, Copy, Debug, PartialEq, Eq, Structural)]
pub enum FlagArg {
    Red,
    Orange,
    Yellow,
    Green,
    Blue,
    Purple,
}

#[derive(Clone, Copy, Debug, PartialEq, Eq, Structural)]
pub enum TransactionTypeArg {
    Uncategorized,
    Unapproved,
}

#[derive(Clone, Copy, Debug, PartialEq, Eq, Structural)]
pub enum ScheduledFrequencyArg {
    Never,
    Daily,
    Weekly,
    EveryOtherWeek,
    TwiceAMonth,
    Every4Weeks,
    Monthly,
    EveryOtherMonth,
    Every3Months,
    Every4Months,
    TwiceAYear,
    Yearly,
    EveryOtherYear,
}

/// A money argument: a decimal currency amount, converted exactly to milliunits.
#[derive(Clone, Copy, Debug, PartialEq, Eq, Structural)]
pub struct CliAmount(pub Milliunits);

impl CliAmount {
    /// Reads a decimal amount written with at most three fractional digits (trailing
    /// zeros count) that fits in an `i64` count of milliunits.
    pub fn parse(value: &str) -> (result: Result<CliAmount, String>)
        ensures
            match parsed_decimal(value@) {
                None => result matches Err(m) && m@ == "amount must be a decimal value"@,
                Some((mantissa, scale)) => if scale > 3 {
                    result matches Err(m)
                        && m@ == "amount must have at most three fractional digits and fit in i64 milliunits"@
                } else {
                    match exact_milliunits(mantissa, scale as nat) {
                        Some(v) => result == Ok::<CliAmount, String>(CliAmount(Milliunits(v as i64))),
                        None => result matches Err(m)
                            && m@ == "amount must have at most three fractional digits and fit in i64 milliunits"@,
                    }
                },
            },
    {
        match parse_decimal(value) {
            None => Err(owned("amount must be a decimal value")),
            Some(decimal) => if decimal.scale() > 3 {
                Err(
                    owned(
                        "amount must have at most three fractional digits and fit in i64 milliunits",
                    ),
                )
            } else {
                match Milliunits::from_decimal(decimal) {
                    Some(amount) => Ok(CliAmount(amount)),
                    None => Err(
                        owned(
                            "amount must have at most three fractional digits and fit in i64 milliunits",
                        ),
                    ),
                }
            },
        }
    }
}

impl std::str::FromStr for CliAmount {
    type Err = String;

    /// Reads the amount as `parse` does.
    fn from_str(value: &str) -> (result: Result<CliAmount, String>)
        ensures
            match parsed_decimal(value@) {
                None => result matches Err(m) && m@ == "amount must be a decimal value"@,
                Some((mantissa, scale)) => if scale > 3 {
                    result matches Err(m)
                        && m@ == "amount must have at most three fractional digits and fit in i64 milliunits"@
                } else {
                    match exact_milliunits(mantissa, scale as nat) {
                        Some(v) => result == Ok::<CliAmount, String>(CliAmount(Milliunits(v as i64))),
                        None => result matches Err(m)
                            && m@ == "amount must have at most three fractional digits and fit in i64 milliunits"@,
                    }
                },
            },
    {
        CliAmount::parse(value)
    }
}

/// A date argument in ISO 8601 form.
#[derive(Clone, Copy, Debug, PartialEq, Eq)]
pub struct CliDate(pub CalendarDate);

impl CliDate {
    /// Reads an ISO 8601 date; the error is the date parser's message.
    pub fn parse(value: &str) -> (result: Result<CliDate, String>)
        ensures
            match iso_date_parsed(value@) {
                Ok((year, month, day)) => result matches Ok(d) && d.0.year_spec() == year
                    && d.0.month_spec() == month && d.0.day_spec() == day,
                Err(message) => result matches Err(m) && m@ == message,
            },
    {
        match CalendarDate::parse_iso(value) {
            Ok(date) => Ok(CliDate(date)),
            Err(message) => Err(message),
        }
    }

    /// The date as it is written; for the years 0 to 9999, `parse` reads it back.
    pub fn to_string(&self) -> (result: String)
        ensures
            result@ == crate::dates::date_text(
                self.0.year_spec(),
                self.0.month_spec(),
                self.0.day_spec(),
            ),
            0 <= self.0.year_spec() ==> iso_date_parsed(result@) == crate::dates::date_read(
                self.0.year_spec(),
                self.0.month_spec(),
                self.0.day_spec(),
            ),
    {
        self.0.to_string()
    }
}

impl std::str::FromStr for CliDate {
    type Err = String;

    /// Reads the date as `parse` does.
    fn from_str(value: &str) -> (result: Result<CliDate, String>)
        ensures
            match iso_date_parsed(value@) {
                Ok((year, month, day)) => result matches Ok(d) && d.0.year_spec() == year
                    && d.0.month_spec() == month && d.0.day_spec() == day,
                Err(message) => result matches Err(m) && m@ == message,
            },
    {
        CliDate::parse(value)
    }
}

/// A field given on the command line is sent; one not given is left out.
pub fn nullable<T>(value: Option<T>) -> (result: Nullable<T>)
    ensures
        match value {
            Some(v) => result == Nullable::Value(v),
            None => result == Nullable::<T>::Omitted,
        },
{
    match value {
        Some(v) => Nullable::Value(v),
        None => Nullable::Omitted,
    }
}

/// Destructive, bulk-update and import commands run only with `--yes`.
pub fn require_yes(value: bool, operation: &str) -> (result: Result<(), CliError>)
    ensures
        value ==> result is Ok,
        !value ==> (result matches Err(CliError::Invocation(m)) && m@ == operation@ + " requires --yes"@),
{
    if value {
        Ok(())
    } else {
        Err(CliError::Invocation(owned(operation).concat(" requires --yes")))
    }
}

/// Reads default to the plan the user used last.
pub fn read_plan(plan: Option<PlanId>) -> (result: PlanId)
    ensures
        match plan {
            Some(p) => result == p,
            None => result == PlanId::LastUsed,
        },
{
    match plan {
        Some(p) => p,
        None => PlanId::LastUsed,
    }
}

pub open spec fn save_account_type_text(value: SaveAccountTypeArg) -> Seq<char> {
    match value {
        SaveAccountTypeArg::Checking => "checking"@,
        SaveAccountTypeArg::Savings => "savings"@,
        SaveAccountTypeArg::Cash => "cash"@,
        SaveAccountTypeArg::CreditCard => "creditCard"@,
        SaveAccountTypeArg::OtherAsset => "otherAsset"@,
        SaveAccountTypeArg::OtherLiability => "otherLiability"@,
    }
}

/// The account type an `--type` argument names: always one the API documents.
pub fn save_account_type(value: SaveAccountTypeArg) -> (result: SaveAccountType)
    ensures
        result.0@ == save_account_type_text(value),
        crate::models::known_save_account_type(result.0@),
{
    let text = match value {
        SaveAccountTypeArg::Checking => SaveAccountType::CHECKING,
        SaveAccountTypeArg::Savings => SaveAccountType::SAVINGS,
        SaveAccountTypeArg::Cash => SaveAccountType::CASH,
        SaveAccountTypeArg::CreditCard => SaveAccountType::CREDIT_CARD,
        SaveAccountTypeArg::OtherAsset => SaveAccountType::OTHER_ASSET,
        SaveAccountTypeArg::OtherLiability => SaveAccountType::OTHER_LIABILITY,
    };
    SaveAccountType(owned(text))
}

pub open spec fn goal_frequency_text(value: GoalFrequencyArg) -> Seq<char> {
    match value {
        GoalFrequencyArg::Monthly => "monthly"@,
        GoalFrequencyArg::Weekly => "weekly"@,
        GoalFrequencyArg::Yearly => "yearly"@,
    }
}

/// The goal frequency a `--goal-frequency` argument names: always a documented one.
pub fn goal_frequency(value: GoalFrequencyArg) -> (result: GoalFrequency)
    ensures
        result.0@ == goal_frequency_text(value),
        crate::models::known_goal_frequency(result.0@),
{
    let text = match value {
        GoalFrequencyArg::Monthly => GoalFrequency::MONTHLY,
        GoalFrequencyArg::Weekly => GoalFrequency::WEEKLY,
        GoalFrequencyArg::Yearly => GoalFrequency::YEARLY,
    };
    GoalFrequency(owned(text))
}

pub open spec fn cleared_status_text(value: ClearedArg) -> Seq<char> {
    match value {
        ClearedArg::Cleared => "cleared"@,
        ClearedArg::Uncleared => "uncleared"@,
        ClearedArg::Reconciled => "reconciled"@,
    }
}

/// The cleared status a `--cleared` argument names: always a documented one.
pub fn cleared_status(value: ClearedArg) -> (result: TransactionClearedStatus)
    ensures
        result.0@ == cleared_status_text(value),
        crate::models::known_transaction_cleared_status(result.0@),
{
    let text = match value {
        ClearedArg::Cleared => TransactionClearedStatus::CLEARED,
        ClearedArg::Uncleared => TransactionClearedStatus::UNCLEARED,
        ClearedArg::Reconciled => TransactionClearedStatus::RECONCILED,
    };
    TransactionClearedStatus(owned(text))
}

pub open spec fn flag_color_text(value: FlagArg) -> Seq<char> {
    match value {
        FlagArg::Red => "red"@,
        FlagArg::Orange => "orange"@,
        FlagArg::Yellow => "yellow"@,
        FlagArg::Green => "green"@,
        FlagArg::Blue => "blue"@,
        FlagArg::Purple => "purple"@,
    }
}

/// The flag color a `--flag` argument names: always a documented one.
pub fn flag_color(value: FlagArg) -> (result: TransactionFlagColor)
    ensures
        result.0@ == flag_color_text(value),
        crate::models::known_transaction_flag_color(result.0@),
{
    let text = match value {
        FlagArg::Red => TransactionFlagColor::RED,
        FlagArg::Orange => TransactionFlagColor::ORANGE,
        FlagArg::Yellow => TransactionFlagColor::YELLOW,
        FlagArg::Green => TransactionFlagColor::GREEN,
        FlagArg::Blue => TransactionFlagColor::BLUE,
        FlagArg::Purple => TransactionFlagColor::PURPLE,
    };
    TransactionFlagColor(owned(text))
}

pub open spec fn transaction_type_text(value: TransactionTypeArg) -> Seq<char> {
    match value {
        TransactionTypeArg::Uncategorized => "uncategorized"@,
        TransactionTypeArg::Unapproved => "unapproved"@,
    }
}

/// The transaction type a `--type` filter names: always a documented one.
pub fn transaction_type(value: TransactionTypeArg) -> (result: TransactionType)
    ensures
        result.0@ == transaction_type_text(value),
        crate::models::known_transaction_type(result.0@),
{
    let text = match value {
        TransactionTypeArg::Uncategorized => TransactionType::UNCATEGORIZED,
        TransactionTypeArg::Unapproved => TransactionType::UNAPPROVED,
    };
    TransactionType(owned(text))
}

pub open spec fn scheduled_frequency_text(value: ScheduledFrequencyArg) -> Seq<char> {
    match value {
        ScheduledFrequencyArg::Never => "never"@,
        ScheduledFrequencyArg::Daily => "daily"@,
        ScheduledFrequencyArg::Weekly => "weekly"@,
        ScheduledFrequencyArg::EveryOtherWeek => "everyOtherWeek"@,
        ScheduledFrequencyArg::TwiceAMonth => "twiceAMonth"@,
        ScheduledFrequencyArg::Every4Weeks => "every4Weeks"@,
        ScheduledFrequencyArg::Monthly => "monthly"@,
        ScheduledFrequencyArg::EveryOtherMonth => "everyOtherMonth"@,
        ScheduledFrequencyArg::Every3Months => "every3Months"@,
        ScheduledFrequencyArg::Every4Months => "every4Months"@,
        ScheduledFrequencyArg::TwiceAYear => "twiceAYear"@,
        ScheduledFrequencyArg::Yearly => "yearly"@,
        ScheduledFrequencyArg::EveryOtherYear => "everyOtherYear"@,
    }
}

/// The frequency a `--frequency` argument names: always a documented one.
pub fn scheduled_frequency(value: ScheduledFrequencyArg) -> (result: ScheduledTransactionFrequency)
    ensures
        result.0@ == scheduled_frequency_text(value),
        crate::models::known_scheduled_transaction_frequency(result.0@),
{
    let text = match value {
        ScheduledFrequencyArg::Never => ScheduledTransactionFrequency::NEVER,
        ScheduledFrequencyArg::Daily => ScheduledTransactionFrequency::DAILY,
        ScheduledFrequencyArg::Weekly => ScheduledTransactionFrequency::WEEKLY,
        ScheduledFrequencyArg::EveryOtherWeek => ScheduledTransactionFrequency::EVERY_OTHER_WEEK,
        ScheduledFrequencyArg::TwiceAMonth => ScheduledTransactionFrequency::TWICE_A_MONTH,
        ScheduledFrequencyArg::Every4Weeks => ScheduledTransactionFrequency::EVERY_FOUR_WEEKS,
        ScheduledFrequencyArg::Monthly => ScheduledTransactionFrequency::MONTHLY,
        ScheduledFrequencyArg::EveryOtherMonth => ScheduledTransactionFrequency::EVERY_OTHER_MONTH,
        ScheduledFrequencyArg::Every3Months => ScheduledTransactionFrequency::EVERY_THREE_MONTHS,
        ScheduledFrequencyArg::Every4Months => ScheduledTransactionFrequency::EVERY_FOUR_MONTHS,
        ScheduledFrequencyArg::TwiceAYear => ScheduledTransactionFrequency::TWICE_A_YEAR,
        ScheduledFrequencyArg::Yearly => ScheduledTransactionFrequency::YEARLY,
        ScheduledFrequencyArg::EveryOtherYear => ScheduledTransactionFrequency::EVERY_OTHER_YEAR,
    };
    ScheduledTransactionFrequency(owned(text))
}


/// The request field a command-line option stands for: sent when given, left out
/// otherwise.
pub open spec fn nullable_of<T>(value: Option<T>) -> Nullable<T> {
    match value {
        Some(v) => Nullable::Value(v),
        None => Nullable::Omitted,
    }
}

pub open spec fn amount_of(value: Option<CliAmount>) -> Option<Milliunits> {
    match value {
        Some(a) => Some(a.0),
        None => None,
    }
}

pub open spec fn date_of(value: Option<CliDate>) -> Option<CalendarDate> {
    match value {
        Some(d) => Some(d.0),
        None => None,
    }
}

/// The goal frequency argument turned into the request value, if given.
pub open spec fn goal_frequency_matches(arg: Option<GoalFrequencyArg>, value: Option<GoalFrequency>) -> bool {
    match arg {
        Some(a) => value matches Some(v) && v.0@ == goal_frequency_text(a),
        None => value is None,
    }
}

pub open spec fn cleared_matches(arg: Option<ClearedArg>, value: Option<TransactionClearedStatus>) -> bool {
    match arg {
        Some(a) => value matches Some(v) && v.0@ == cleared_status_text(a),
        None => value is None,
    }
}

pub open spec fn flag_matches(arg: Option<FlagArg>, value: Nullable<TransactionFlagColor>) -> bool {
    match arg {
        Some(a) => value matches Nullable::Value(v) && v.0@ == flag_color_text(a),
        None => value is Omitted,
    }
}

pub open spec fn frequency_matches(
    arg: Option<ScheduledFrequencyArg>,
    value: Option<ScheduledTransactionFrequency>,
) -> bool {
    match arg {
        Some(a) => value matches Some(v) && v.0@ == scheduled_frequency_text(a),
        None => value is None,
    }
}

fn goal_frequency_option(value: Option<GoalFrequencyArg>) -> (result: Option<GoalFrequency>)
    ensures
        goal_frequency_matches(value, result),
{
    match value {
        Some(v) => Some(goal_frequency(v)),
        None => None,
    }
}

fn cleared_option(value: Option<ClearedArg>) -> (result: Option<TransactionClearedStatus>)
    ensures
        cleared_matches(value, result),
{
    match value {
        Some(v) => Some(cleared_status(v)),
        None => None,
    }
}

fn flag_option(value: Option<FlagArg>) -> (result: Nullable<TransactionFlagColor>)
    ensures
        flag_matches(value, result),
{
    match value {
        Some(v) => Nullable::Value(flag_color(v)),
        None => Nullable::Omitted,
    }
}

fn frequency_option(value: Option<ScheduledFrequencyArg>) -> (result: Option<
    ScheduledTransactionFrequency,
>)
    ensures
        frequency_matches(value, result),
{
    match value {
        Some(v) => Some(scheduled_frequency(v)),
        None => None,
    }
}

fn amount_option(value: Option<CliAmount>) -> (result: Option<Milliunits>)
    ensures
        result == amount_of(value),
{
    match value {
        Some(a) => Some(a.0),
        None => None,
    }
}

fn date_option(value: Option<CliDate>) -> (result: Option<CalendarDate>)
    ensures
        result == date_of(value),
{
    match value {
        Some(d) => Some(d.0),
        None => None,
    }
}

/// The arguments of `category create`.
#[derive(Clone, Debug)]
pub struct CategoryCreate {
    pub plan: PlanId,
    pub name: String,
    pub category_group: Uuid,
    pub note: Option<String>,
    pub goal_target: Option<CliAmount>,
    pub goal_target_date: Option<CliDate>,
    pub goal_needs_whole_amount: Option<bool>,
    pub goal_frequency: Option<GoalFrequencyArg>,
}

/// The arguments of `category update`.
#[derive(Clone, Debug)]
pub struct CategoryUpdate {
    pub id: Uuid,
    pub plan: PlanId,
    pub name: Option<String>,
    pub note: Option<String>,
    pub category_group: Option<Uuid>,
    pub goal_target: Option<CliAmount>,
    pub goal_target_date: Option<CliDate>,
    pub goal_needs_whole_amount: Option<bool>,
    pub goal_frequency: Option<GoalFrequencyArg>,
}

/// The new category that `category create` asks for.
pub fn category_create_request(args: CategoryCreate) -> (result: NewCategory)
    ensures
        result.name == Some(args.name),
        result.note == nullable_of(args.note),
        result.category_group_id == args.category_group,
        result.goal_target == nullable_of(amount_of(args.goal_target)),
        result.goal_target_date == nullable_of(date_of(args.goal_target_date)),
        result.goal_needs_whole_amount == nullable_of(args.goal_needs_whole_amount),
        goal_frequency_matches(args.goal_frequency, result.goal_frequency),
{
    NewCategory {
        name: Some(args.name),
        note: nullable(args.note),
        category_group_id: args.category_group,
        goal_target: nullable(amount_option(args.goal_target)),
        goal_target_date: nullable(date_option(args.goal_target_date)),
        goal_needs_whole_amount: nullable(args.goal_needs_whole_amount),
        goal_frequency: goal_frequency_option(args.goal_frequency),
    }
}

/// The changes that `category update` asks for: the options given, and no others.
pub fn category_update_request(args: CategoryUpdate) -> (result: SaveCategory)
    ensures
        result.name == nullable_of(args.name),
        result.note == nullable_of(args.note),
        result.category_group_id == args.category_group,
        result.goal_target == nullable_of(amount_of(args.goal_target)),
        result.goal_target_date == nullable_of(date_of(args.goal_target_date)),
        result.goal_needs_whole_amount == nullable_of(args.goal_needs_whole_amount),
        goal_frequency_matches(args.goal_frequency, result.goal_frequency),
{
    SaveCategory {
        name: nullable(args.name),
        note: nullable(args.note),
        category_group_id: args.category_group,
        goal_target: nullable(amount_option(args.goal_target)),
        goal_target_date: nullable(date_option(args.goal_target_date)),
        goal_needs_whole_amount: nullable(args.goal_needs_whole_amount),
        goal_frequency: goal_frequency_option(args.goal_frequency),
    }
}

/// The transaction fields of `transaction create`.
#[derive(Clone, Debug)]
pub struct TransactionCreateFields {
    pub account: Option<Uuid>,
    pub date: Option<CliDate>,
    pub amount: Option<CliAmount>,
    pub payee_id: Option<Uuid>,
    pub payee_name: Option<String>,
    pub category: Option<Uuid>,
    pub memo: Option<String>,
    pub cleared: Option<ClearedArg>,
    pub approved: Option<bool>,
    pub flag: Option<FlagArg>,
}

/// The arguments of `transaction create`: an input file, or fields.
#[derive(Clone, Debug)]
pub struct TransactionCreate {
    pub plan: PlanId,
    pub input: Option<String>,
    pub fields: TransactionCreateFields,
}

/// The arguments of `transaction update`: an input file, or the fields to change.
#[derive(Clone, Debug)]
pub struct TransactionUpdate {
    pub id: String,
    pub plan: PlanId,
    pub input: Option<String>,
    pub account: Option<Uuid>,
    pub date: Option<CliDate>,
    pub amount: Option<CliAmount>,
    pub payee_id: Option<Uuid>,
    pub payee_name: Option<String>,
    pub category: Option<Uuid>,
    pub memo: Option<String>,
    pub cleared: Option<ClearedArg>,
    pub approved: Option<bool>,
    pub flag: Option<FlagArg>,
}

/// The transaction the fields describe: each option given is sent, the others left
/// out, and no subtransactions.
pub fn create_fields(fields: TransactionCreateFields) -> (result: ExistingTransaction)
    ensures
        result.account_id == fields.account,
        result.date == date_of(fields.date),
        result.amount == amount_of(fields.amount),
        result.payee_id == nullable_of(fields.payee_id),
        result.payee_name == nullable_of(fields.payee_name),
        result.category_id == nullable_of(fields.category),
        result.memo == nullable_of(fields.memo),
        cleared_matches(fields.cleared, result.cleared),
        result.approved == fields.approved,
        flag_matches(fields.flag, result.flag_color),
        result.subtransactions is None,
{
    ExistingTransaction {
        account_id: fields.account,
        date: date_option(fields.date),
        amount: amount_option(fields.amount),
        payee_id: nullable(fields.payee_id),
        payee_name: nullable(fields.payee_name),
        category_id: nullable(fields.category),
        memo: nullable(fields.memo),
        cleared: cleared_option(fields.cleared),
        approved: fields.approved,
        flag_color: flag_option(fields.flag),
        subtransactions: None,
    }
}

/// The body of `transaction create` without an input file: one transaction made of the
/// fields, with no import id.
pub fn transaction_create_request(fields: TransactionCreateFields) -> (result: crate::models::CreateTransactions)
    ensures
        result matches crate::models::CreateTransactions::One(t) && t.import_id is Omitted
            && t.transaction.account_id == fields.account
            && t.transaction.date == date_of(fields.date)
            && t.transaction.amount == amount_of(fields.amount)
            && t.transaction.payee_id == nullable_of(fields.payee_id)
            && t.transaction.payee_name == nullable_of(fields.payee_name)
            && t.transaction.category_id == nullable_of(fields.category)
            && t.transaction.memo == nullable_of(fields.memo)
            && cleared_matches(fields.cleared, t.transaction.cleared)
            && t.transaction.approved == fields.approved
            && flag_matches(fields.flag, t.transaction.flag_color)
            && t.transaction.subtransactions is None,
{
    crate::models::CreateTransactions::One(
        crate::models::NewTransaction { transaction: create_fields(fields), import_id: Nullable::Omitted },
    )
}

/// The changes `transaction update` asks for without an input file: each option given
/// is sent, the others left out.
pub fn transaction_update_fields(args: TransactionUpdate) -> (result: ExistingTransaction)
    ensures
        result.account_id == args.account,
        result.date == date_of(args.date),
        result.amount == amount_of(args.amount),
        result.payee_id == nullable_of(args.payee_id),
        result.payee_name == nullable_of(args.payee_name),
        result.category_id == nullable_of(args.category),
        result.memo == nullable_of(args.memo),
        cleared_matches(args.cleared, result.cleared),
        result.approved == args.approved,
        flag_matches(args.flag, result.flag_color),
        result.subtransactions is None,
{
    ExistingTransaction {
        account_id: args.account,
        date: date_option(args.date),
        amount: amount_option(args.amount),
        payee_id: nullable(args.payee_id),
        payee_name: nullable(args.payee_name),
        category_id: nullable(args.category),
        memo: nullable(args.memo),
        cleared: cleared_option(args.cleared),
        approved: args.approved,
        flag_color: flag_option(args.flag),
        subtransactions: None,
    }
}

/// The arguments of `scheduled-transaction create` (and of `update`).
#[derive(Clone, Debug)]
pub struct ScheduledWrite {
    pub plan: PlanId,
    pub account: Uuid,
    pub date: CliDate,
    pub amount: Option<CliAmount>,
    pub payee_id: Option<Uuid>,
    pub payee_name: Option<String>,
    pub category: Option<Uuid>,
    pub memo: Option<String>,
    pub flag: Option<FlagArg>,
    pub frequency: Option<ScheduledFrequencyArg>,
}

/// The arguments of `scheduled-transaction update`.
#[derive(Clone, Debug)]
pub struct ScheduledUpdate {
    pub id: Uuid,
    pub fields: ScheduledWrite,
}

/// The scheduled transaction the arguments describe.
pub fn scheduled_request(fields: ScheduledWrite) -> (result: SaveScheduledTransaction)
    ensures
        result.account_id == fields.account,
        result.date == fields.date.0,
        result.amount == amount_of(fields.amount),
        result.payee_id == nullable_of(fields.payee_id),
        result.payee_name == nullable_of(fields.payee_name),
        result.category_id == nullable_of(fields.category),
        result.memo == nullable_of(fields.memo),
        flag_matches(fields.flag, result.flag_color),
        frequency_matches(fields.frequency, result.frequency),
{
    SaveScheduledTransaction {
        account_id: fields.account,
        date: fields.date.0,
        amount: amount_option(fields.amount),
        payee_id: nullable(fields.payee_id),
        payee_name: nullable(fields.payee_name),
        category_id: nullable(fields.category),
        memo: nullable(fields.memo),
        flag_color: flag_option(fields.flag),
        frequency: frequency_option(fields.frequency),
    }
}

/// The arguments of `transaction list`.
#[derive(Clone, Debug)]
pub struct TransactionList {
    pub plan: Option<PlanId>,
    pub account: Option<Uuid>,
    pub category: Option<Uuid>,
    pub payee: Option<Uuid>,
    pub month: Option<PlanMonth>,
    pub since: Option<CliDate>,
    pub until: Option<CliDate>,
    pub kind: Option<TransactionTypeArg>,
    pub last_knowledge: Option<u64>,
}

/// The filters `transaction list` applies.
pub fn transaction_filters(args: &TransactionList) -> (result: TransactionFilters)
    ensures
        result.since_date == date_of(args.since),
        result.until_date == date_of(args.until),
        match args.kind {
            Some(k) => result.kind matches Some(t) && t.0@ == transaction_type_text(k),
            None => result.kind is None,
        },
        result.last_knowledge == match args.last_knowledge {
            Some(k) => Some(ServerKnowledge(k)),
            None => None,
        },
{
    TransactionFilters {
        since_date: date_option(args.since),
        until_date: date_option(args.until),
        kind: match args.kind {
            Some(k) => Some(transaction_type(k)),
            None => None,
        },
        last_knowledge: match args.last_knowledge {
            Some(k) => Some(ServerKnowledge(k)),
            None => None,
        },
    }
}

/// The one scope a transaction list may name: at most one of account, category, payee
/// and month; none means the whole plan.
pub open spec fn scope_of(args: TransactionList) -> Option<TransactionScope> {
    match (args.account, args.category, args.payee, args.month) {
        (Some(id), None, None, None) => Some(TransactionScope::Account(id)),
        (None, Some(id), None, None) => Some(TransactionScope::Category(id)),
        (None, None, Some(id), None) => Some(TransactionScope::Payee(id)),
        (None, None, None, Some(month)) => Some(TransactionScope::Month(month)),
        (None, None, None, None) => Some(TransactionScope::Plan),
        _ => None,
    }
}

/// Selects the route of a transaction list; more than one scope is an invalid
/// invocation.
pub fn transaction_scope(args: &TransactionList) -> (result: Result<TransactionScope, CliError>)
    ensures
        match scope_of(*args) {
            Some(scope) => result matches Ok(s) && s == scope,
            None => result matches Err(CliError::Invocation(m))
                && m@ == "only one transaction scope may be supplied"@,
        },
{
    match (args.account, args.category, args.payee, args.month) {
        (Some(id), None, None, None) => Ok(TransactionScope::Account(id)),
        (None, Some(id), None, None) => Ok(TransactionScope::Category(id)),
        (None, None, Some(id), None) => Ok(TransactionScope::Payee(id)),
        (None, None, None, Some(month)) => Ok(TransactionScope::Month(month)),
        (None, None, None, None) => Ok(TransactionScope::Plan),
        _ => Err(CliError::Invocation(owned("only one transaction scope may be supplied"))),
    }
}

/// Each scope option, given alone, selects its own scope of that identifier or month;
/// none selects the whole plan; two or more select none (the list is refused).
pub proof fn law_each_option_selects_its_scope(args: TransactionList, id: Uuid, m: PlanMonth)
    ensures
        args.account == Some(id) && args.category is None && args.payee is None
            && args.month is None ==> scope_of(args) == Some(TransactionScope::Account(id)),
        args.category == Some(id) && args.account is None && args.payee is None
            && args.month is None ==> scope_of(args) == Some(TransactionScope::Category(id)),
        args.payee == Some(id) && args.account is None && args.category is None
            && args.month is None ==> scope_of(args) == Some(TransactionScope::Payee(id)),
        args.month == Some(m) && args.account is None && args.category is None
            && args.payee is None ==> scope_of(args) == Some(TransactionScope::Month(m)),
        args.account is None && args.category is None && args.payee is None && args.month is None
            ==> scope_of(args) == Some(TransactionScope::Plan),
        (if args.account is Some { 1int } else { 0 }) + (if args.category is Some { 1int } else { 0 })
            + (if args.payee is Some { 1int } else { 0 }) + (if args.month is Some { 1int } else { 0 })
            >= 2 ==> scope_of(args) is None,
{
}

/// Where a credential came from.
#[derive(Clone, Copy, Debug, PartialEq, Eq, Structural)]
pub enum CredentialSource {
    Environment,
    Keyring,
}

impl CredentialSource {
    /// The source's name as the command line reports it.
    pub fn name(&self) -> (result: &'static str)
        ensures
            result@ == (match *self {
                CredentialSource::Environment => "environment"@,
                CredentialSource::Keyring => "keyring"@,
            }),
    {
        match self {
            CredentialSource::Environment => "environment",
            CredentialSource::Keyring => "keyring",
        }
    }
}

/// An access token and where it came from. It has no `Debug`, so that the token is
/// never printed.
pub struct Credentials {
    pub token: String,
    pub source: CredentialSource,
}

/// Where an access token is kept between runs (the OS keyring, for the command line).
pub trait CredentialStore {
    fn get(&self) -> Result<Option<String>, CliError>;

    fn set(&self, token: &str) -> Result<(), CliError>;

    fn clear(&self) -> Result<(), CliError>;
}

/// The credentials a stored token gives: the token from the store, a missing token as
/// a credentials error, a store failure as it came.
pub fn credentials_from_store(stored: Result<Option<String>, CliError>) -> (result: Result<
    Credentials,
    CliError,
>)
    ensures
        match stored {
            Ok(Some(token)) => result matches Ok(c) && c.token == token && c.source
                == CredentialSource::Keyring,
            Ok(None) => result matches Err(CliError::Credentials(m))
                && m@ == "missing credentials: set YNAB_ACCESS_TOKEN or use auth store"@,
            Err(e) => result matches Err(r) && r == e,
        },
{
    match stored {
        Ok(Some(token)) => Ok(Credentials { token, source: CredentialSource::Keyring }),
        Ok(None) => Err(
            CliError::Credentials(owned("missing credentials: set YNAB_ACCESS_TOKEN or use auth store")),
        ),
        Err(error) => Err(error),
    }
}

/// The credentials `result` are what the store's answer `stored` gives: a stored token,
/// from the keyring; no token, the missing-credentials error; a failure, that failure.
pub open spec fn store_decides(stored: Result<Option<String>, CliError>, result: Result<Credentials, CliError>) -> bool {
    match stored {
        Ok(Some(token)) => result matches Ok(c) && c.token == token && c.source
            == CredentialSource::Keyring,
        Ok(None) => result matches Err(CliError::Credentials(m))
            && m@ == "missing credentials: set YNAB_ACCESS_TOKEN or use auth store"@,
        Err(e) => result matches Err(r) && r == e,
    }
}

/// A token the keyring holds is the one used, from the keyring; when it holds none the
/// answer is the missing-credentials error; a keyring failure is passed on unchanged.
/// Any two resolutions from the same answer agree.
pub proof fn law_keyring_answer_decides(
    stored: Result<Option<String>, CliError>,
    result: Result<Credentials, CliError>,
)
    requires
        store_decides(stored, result),
    ensures
        stored matches Ok(Some(t)) ==> (result matches Ok(c) && c.token == t && c.source
            == CredentialSource::Keyring),
        stored matches Ok(None) ==> (result matches Err(CliError::Credentials(m)) && m@
            == "missing credentials: set YNAB_ACCESS_TOKEN or use auth store"@),
        stored matches Err(e) ==> (result matches Err(r) && r == e),
        result is Ok <==> stored matches Ok(Some(_)),
{
}

/// A token is given and is not empty.
pub open spec fn nonempty_token(token: Option<String>) -> bool {
    match token {
        Some(t) => t@.len() > 0,
        None => false,
    }
}

/// A nonempty environment token wins and the store is not consulted; otherwise the
/// store decides.
pub fn resolve_credentials<S: CredentialStore + ?Sized>(
    environment_token: Option<String>,
    store: &S,
) -> (result: Result<Credentials, CliError>)
    ensures
        nonempty_token(environment_token) ==> (result matches Ok(c) && Some(c.token)
            == environment_token && c.source == CredentialSource::Environment),
        !nonempty_token(environment_token) ==> match result {
            Ok(c) => c.source == CredentialSource::Keyring,
            Err(_) => true,
        },
        !nonempty_token(environment_token) ==> exists|stored: Result<Option<String>, CliError>|
            #[trigger] call_ensures(S::get, (store,), stored) && store_decides(stored, result),
{
    match environment_token {
        Some(token) => {
            if !token.as_str().is_empty() {
                return Ok(Credentials { token, source: CredentialSource::Environment });
            }
        },
        None => {},
    }
    let stored = store.get();
    let ghost answer = stored;
    let result = credentials_from_store(stored);
    assert(store_decides(answer, result));
    result
}

/// The token `auth store` keeps: both entries must match and be nonempty.
pub fn confirm_token(first: &str, second: &str) -> (result: Result<(), CliError>)
    ensures
        first@.len() > 0 && first@ == second@ ==> result is Ok,
        !(first@.len() > 0 && first@ == second@) ==> (result matches Err(CliError::Credentials(m))
            && m@ == "tokens were empty or did not match"@),
{
    if first.is_empty() || !crate::text::str_eq(first, second) {
        Err(CliError::Credentials(owned("tokens were empty or did not match")))
    } else {
        Ok(())
    }
}

} // verus!
