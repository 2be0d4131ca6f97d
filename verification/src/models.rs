//! Request and response models of the YNAB v1 API.
use crate::dates::CalendarDate;
use crate::ids::Uuid;
use crate::money::{Milliunits, ServerKnowledge};
use crate::text::{owned, str_eq};
use vstd::prelude::*;

verus! {

/// An account type. Values are kept as the API writes them, including ones it adds later.
#[derive(Clone, Debug, PartialEq, Eq, Hash)]
pub struct AccountType(pub String);

/// The values this version of the API documents.
pub open spec fn known_account_type(value: Seq<char>) -> bool {
        ||| value == "checking"@
        ||| value == "savings"@
        ||| value == "cash"@
        ||| value == "creditCard"@
        ||| value == "lineOfCredit"@
        ||| value == "otherAsset"@
        ||| value == "otherLiability"@
        ||| value == "mortgage"@
        ||| value == "autoLoan"@
        ||| value == "studentLoan"@
        ||| value == "personalLoan"@
        ||| value == "medicalDebt"@
        ||| value == "otherDebt"@
}

impl AccountType {
    pub const CHECKING: &'static str = "checking";
    pub const SAVINGS: &'static str = "savings";
    pub const CASH: &'static str = "cash";
    pub const CREDIT_CARD: &'static str = "creditCard";
    pub const LINE_OF_CREDIT: &'static str = "lineOfCredit";
    pub const OTHER_ASSET: &'static str = "otherAsset";
    pub const OTHER_LIABILITY: &'static str = "otherLiability";
    pub const MORTGAGE: &'static str = "mortgage";
    pub const AUTO_LOAN: &'static str = "autoLoan";
    pub const STUDENT_LOAN: &'static str = "studentLoan";
    pub const PERSONAL_LOAN: &'static str = "personalLoan";
    pub const MEDICAL_DEBT: &'static str = "medicalDebt";
    pub const OTHER_DEBT: &'static str = "otherDebt";

    /// Whether the value is one this version of the API documents.
    pub fn is_known(&self) -> (result: bool)
        ensures
            result == known_account_type(self.0@),
    {
        let value = self.0.as_str();
        str_eq(value, Self::CHECKING) || str_eq(value, Self::SAVINGS) || str_eq(value, Self::CASH) || str_eq(value, Self::CREDIT_CARD) || str_eq(value, Self::LINE_OF_CREDIT) || str_eq(value, Self::OTHER_ASSET) || str_eq(value, Self::OTHER_LIABILITY) || str_eq(value, Self::MORTGAGE) || str_eq(value, Self::AUTO_LOAN) || str_eq(value, Self::STUDENT_LOAN) || str_eq(value, Self::PERSONAL_LOAN) || str_eq(value, Self::MEDICAL_DEBT) || str_eq(value, Self::OTHER_DEBT)
    }

    /// The value as written.
    pub fn to_string(&self) -> (result: String)
        ensures
            result@ == self.0@,
    {
        self.0.clone()
    }

    /// Takes any text as a value.
    pub fn from_str(value: &str) -> (result: AccountType)
        ensures
            result.0@ == value@,
    {
        AccountType(owned(value))
    }
}

impl From<String> for AccountType {
    fn from(value: String) -> (result: AccountType)
        ensures
            result.0 == value,
    {
        AccountType(value)
    }
}

impl vstd::std_specs::convert::FromSpecImpl<String> for AccountType {
    open spec fn obeys_from_spec() -> bool {
        true
    }

    open spec fn from_spec(value: String) -> AccountType {
        AccountType(value)
    }
}

/// The type of an account being created. Values are kept as the API writes them, including ones it adds later.
#[derive(Clone, Debug, PartialEq, Eq, Hash)]
pub struct SaveAccountType(pub String);

/// The values this version of the API documents.
pub open spec fn known_save_account_type(value: Seq<char>) -> bool {
        ||| value == "checking"@
        ||| value == "savings"@
        ||| value == "cash"@
        ||| value == "creditCard"@
        ||| value == "otherAsset"@
        ||| value == "otherLiability"@
}

impl SaveAccountType {
    pub const CHECKING: &'static str = "checking";
    pub const SAVINGS: &'static str = "savings";
    pub const CASH: &'static str = "cash";
    pub const CREDIT_CARD: &'static str = "creditCard";
    pub const OTHER_ASSET: &'static str = "otherAsset";
    pub const OTHER_LIABILITY: &'static str = "otherLiability";

    /// Whether the value is one this version of the API documents.
    pub fn is_known(&self) -> (result: bool)
        ensures
            result == known_save_account_type(self.0@),
    {
        let value = self.0.as_str();
        str_eq(value, Self::CHECKING) || str_eq(value, Self::SAVINGS) || str_eq(value, Self::CASH) || str_eq(value, Self::CREDIT_CARD) || str_eq(value, Self::OTHER_ASSET) || str_eq(value, Self::OTHER_LIABILITY)
    }

    /// The value as written.
    pub fn to_string(&self) -> (result: String)
        ensures
            result@ == self.0@,
    {
        self.0.clone()
    }

    /// Takes any text as a value.
    pub fn from_str(value: &str) -> (result: SaveAccountType)
        ensures
            result.0@ == value@,
    {
        SaveAccountType(owned(value))
    }
}

impl From<String> for SaveAccountType {
    fn from(value: String) -> (result: SaveAccountType)
        ensures
            result.0 == value,
    {
        SaveAccountType(value)
    }
}

impl vstd::std_specs::convert::FromSpecImpl<String> for SaveAccountType {
    open spec fn obeys_from_spec() -> bool {
        true
    }

    open spec fn from_spec(value: String) -> SaveAccountType {
        SaveAccountType(value)
    }
}

/// Whether a transaction has cleared. Values are kept as the API writes them, including ones it adds later.
#[derive(Clone, Debug, PartialEq, Eq, Hash)]
pub struct TransactionClearedStatus(pub String);

/// The values this version of the API documents.
pub open spec fn known_transaction_cleared_status(value: Seq<char>) -> bool {
        ||| value == "cleared"@
        ||| value == "uncleared"@
        ||| value == "reconciled"@
}

impl TransactionClearedStatus {
    pub const CLEARED: &'static str = "cleared";
    pub const UNCLEARED: &'static str = "uncleared";
    pub const RECONCILED: &'static str = "reconciled";

    /// Whether the value is one this version of the API documents.
    pub fn is_known(&self) -> (result: bool)
        ensures
            result == known_transaction_cleared_status(self.0@),
    {
        let value = self.0.as_str();
        str_eq(value, Self::CLEARED) || str_eq(value, Self::UNCLEARED) || str_eq(value, Self::RECONCILED)
    }

    /// The value as written.
    pub fn to_string(&self) -> (result: String)
        ensures
            result@ == self.0@,
    {
        self.0.clone()
    }

    /// Takes any text as a value.
    pub fn from_str(value: &str) -> (result: TransactionClearedStatus)
        ensures
            result.0@ == value@,
    {
        TransactionClearedStatus(owned(value))
    }
}

impl From<String> for TransactionClearedStatus {
    fn from(value: String) -> (result: TransactionClearedStatus)
        ensures
            result.0 == value,
    {
        TransactionClearedStatus(value)
    }
}

impl vstd::std_specs::convert::FromSpecImpl<String> for TransactionClearedStatus {
    open spec fn obeys_from_spec() -> bool {
        true
    }

    open spec fn from_spec(value: String) -> TransactionClearedStatus {
        TransactionClearedStatus(value)
    }
}

/// The color of a transaction's flag. Values are kept as the API writes them, including ones it adds later.
#[derive(Clone, Debug, PartialEq, Eq, Hash)]
pub struct TransactionFlagColor(pub String);

/// The values this version of the API documents.
pub open spec fn known_transaction_flag_color(value: Seq<char>) -> bool {
        ||| value == "red"@
        ||| value == "orange"@
        ||| value == "yellow"@
        ||| value == "green"@
        ||| value == "blue"@
        ||| value == "purple"@
}

impl TransactionFlagColor {
    pub const RED: &'static str = "red";
    pub const ORANGE: &'static str = "orange";
    pub const YELLOW: &'static str = "yellow";
    pub const GREEN: &'static str = "green";
    pub const BLUE: &'static str = "blue";
    pub const PURPLE: &'static str = "purple";

    /// Whether the value is one this version of the API documents.
    pub fn is_known(&self) -> (result: bool)
        ensures
            result == known_transaction_flag_color(self.0@),
    {
        let value = self.0.as_str();
        str_eq(value, Self::RED) || str_eq(value, Self::ORANGE) || str_eq(value, Self::YELLOW) || str_eq(value, Self::GREEN) || str_eq(value, Self::BLUE) || str_eq(value, Self::PURPLE)
    }

    /// The value as written.
    pub fn to_string(&self) -> (result: String)
        ensures
            result@ == self.0@,
    {
        self.0.clone()
    }

    /// Takes any text as a value.
    pub fn from_str(value: &str) -> (result: TransactionFlagColor)
        ensures
            result.0@ == value@,
    {
        TransactionFlagColor(owned(value))
    }
}

impl From<String> for TransactionFlagColor {
    fn from(value: String) -> (result: TransactionFlagColor)
        ensures
            result.0 == value,
    {
        TransactionFlagColor(value)
    }
}

impl vstd::std_specs::convert::FromSpecImpl<String> for TransactionFlagColor {
    open spec fn obeys_from_spec() -> bool {
        true
    }

    open spec fn from_spec(value: String) -> TransactionFlagColor {
        TransactionFlagColor(value)
    }
}

/// How often a scheduled transaction recurs. Values are kept as the API writes them, including ones it adds later.
#[derive(Clone, Debug, PartialEq, Eq, Hash)]
pub struct ScheduledTransactionFrequency(pub String);

/// The values this version of the API documents.
pub open spec fn known_scheduled_transaction_frequency(value: Seq<char>) -> bool {
        ||| value == "never"@
        ||| value == "daily"@
        ||| value == "weekly"@
        ||| value == "everyOtherWeek"@
        ||| value == "twiceAMonth"@
        ||| value == "every4Weeks"@
        ||| value == "monthly"@
        ||| value == "everyOtherMonth"@
        ||| value == "every3Months"@
        ||| value == "every4Months"@
        ||| value == "twiceAYear"@
        ||| value == "yearly"@
        ||| value == "everyOtherYear"@
}

impl ScheduledTransactionFrequency {
    pub const NEVER: &'static str = "never";
    pub const DAILY: &'static str = "daily";
    pub const WEEKLY: &'static str = "weekly";
    pub const EVERY_OTHER_WEEK: &'static str = "everyOtherWeek";
    pub const TWICE_A_MONTH: &'static str = "twiceAMonth";
    pub const EVERY_FOUR_WEEKS: &'static str = "every4Weeks";
    pub const MONTHLY: &'static str = "monthly";
    pub const EVERY_OTHER_MONTH: &'static str = "everyOtherMonth";
    pub const EVERY_THREE_MONTHS: &'static str = "every3Months";
    pub const EVERY_FOUR_MONTHS: &'static str = "every4Months";
    pub const TWICE_A_YEAR: &'static str = "twiceAYear";
    pub const YEARLY: &'static str = "yearly";
    pub const EVERY_OTHER_YEAR: &'static str = "everyOtherYear";

    /// Whether the value is one this version of the API documents.
    pub fn is_known(&self) -> (result: bool)
        ensures
            result == known_scheduled_transaction_frequency(self.0@),
    {
        let value = self.0.as_str();
        str_eq(value, Self::NEVER) || str_eq(value, Self::DAILY) || str_eq(value, Self::WEEKLY) || str_eq(value, Self::EVERY_OTHER_WEEK) || str_eq(value, Self::TWICE_A_MONTH) || str_eq(value, Self::EVERY_FOUR_WEEKS) || str_eq(value, Self::MONTHLY) || str_eq(value, Self::EVERY_OTHER_MONTH) || str_eq(value, Self::EVERY_THREE_MONTHS) || str_eq(value, Self::EVERY_FOUR_MONTHS) || str_eq(value, Self::TWICE_A_YEAR) || str_eq(value, Self::YEARLY) || str_eq(value, Self::EVERY_OTHER_YEAR)
    }

    /// The value as written.
    pub fn to_string(&self) -> (result: String)
        ensures
            result@ == self.0@,
    {
        self.0.clone()
    }

    /// Takes any text as a value.
    pub fn from_str(value: &str) -> (result: ScheduledTransactionFrequency)
        ensures
            result.0@ == value@,
    {
        ScheduledTransactionFrequency(owned(value))
    }
}

impl From<String> for ScheduledTransactionFrequency {
    fn from(value: String) -> (result: ScheduledTransactionFrequency)
        ensures
            result.0 == value,
    {
        ScheduledTransactionFrequency(value)
    }
}

impl vstd::std_specs::convert::FromSpecImpl<String> for ScheduledTransactionFrequency {
    open spec fn obeys_from_spec() -> bool {
        true
    }

    open spec fn from_spec(value: String) -> ScheduledTransactionFrequency {
        ScheduledTransactionFrequency(value)
    }
}

/// The type of a category goal. Values are kept as the API writes them, including ones it adds later.
#[derive(Clone, Debug, PartialEq, Eq, Hash)]
pub struct GoalType(pub String);

/// The values this version of the API documents.
pub open spec fn known_goal_type(value: Seq<char>) -> bool {
        ||| value == "TB"@
        ||| value == "TBD"@
        ||| value == "MF"@
        ||| value == "NEED"@
        ||| value == "DEBT"@
}

impl GoalType {
    pub const TARGET_BALANCE: &'static str = "TB";
    pub const TARGET_BY_DATE: &'static str = "TBD";
    pub const MONTHLY_FUNDING: &'static str = "MF";
    pub const NEED: &'static str = "NEED";
    pub const DEBT: &'static str = "DEBT";

    /// Whether the value is one this version of the API documents.
    pub fn is_known(&self) -> (result: bool)
        ensures
            result == known_goal_type(self.0@),
    {
        let value = self.0.as_str();
        str_eq(value, Self::TARGET_BALANCE) || str_eq(value, Self::TARGET_BY_DATE) || str_eq(value, Self::MONTHLY_FUNDING) || str_eq(value, Self::NEED) || str_eq(value, Self::DEBT)
    }

    /// The value as written.
    pub fn to_string(&self) -> (result: String)
        ensures
            result@ == self.0@,
    {
        self.0.clone()
    }

    /// Takes any text as a value.
    pub fn from_str(value: &str) -> (result: GoalType)
        ensures
            result.0@ == value@,
    {
        GoalType(owned(value))
    }
}

impl From<String> for GoalType {
    fn from(value: String) -> (result: GoalType)
        ensures
            result.0 == value,
    {
        GoalType(value)
    }
}

impl vstd::std_specs::convert::FromSpecImpl<String> for GoalType {
    open spec fn obeys_from_spec() -> bool {
        true
    }

    open spec fn from_spec(value: String) -> GoalType {
        GoalType(value)
    }
}

/// How often a category goal recurs. Values are kept as the API writes them, including ones it adds later.
#[derive(Clone, Debug, PartialEq, Eq, Hash)]
pub struct GoalFrequency(pub String);

/// The values this version of the API documents.
pub open spec fn known_goal_frequency(value: Seq<char>) -> bool {
        ||| value == "monthly"@
        ||| value == "weekly"@
        ||| value == "yearly"@
}

impl GoalFrequency {
    pub const MONTHLY: &'static str = "monthly";
    pub const WEEKLY: &'static str = "weekly";
    pub const YEARLY: &'static str = "yearly";

    /// Whether the value is one this version of the API documents.
    pub fn is_known(&self) -> (result: bool)
        ensures
            result == known_goal_frequency(self.0@),
    {
        let value = self.0.as_str();
        str_eq(value, Self::MONTHLY) || str_eq(value, Self::WEEKLY) || str_eq(value, Self::YEARLY)
    }

    /// The value as written.
    pub fn to_string(&self) -> (result: String)
        ensures
            result@ == self.0@,
    {
        self.0.clone()
    }

    /// Takes any text as a value.
    pub fn from_str(value: &str) -> (result: GoalFrequency)
        ensures
            result.0@ == value@,
    {
        GoalFrequency(owned(value))
    }
}

impl From<String> for GoalFrequency {
    fn from(value: String) -> (result: GoalFrequency)
        ensures
            result.0 == value,
    {
        GoalFrequency(value)
    }
}

impl vstd::std_specs::convert::FromSpecImpl<String> for GoalFrequency {
    open spec fn obeys_from_spec() -> bool {
        true
    }

    open spec fn from_spec(value: String) -> GoalFrequency {
        GoalFrequency(value)
    }
}

/// The kind of a debt account transaction. Values are kept as the API writes them, including ones it adds later.
#[derive(Clone, Debug, PartialEq, Eq, Hash)]
pub struct DebtTransactionType(pub String);

/// The values this version of the API documents.
pub open spec fn known_debt_transaction_type(value: Seq<char>) -> bool {
        ||| value == "payment"@
        ||| value == "refund"@
        ||| value == "fee"@
        ||| value == "interest"@
        ||| value == "escrow"@
        ||| value == "balanceAdjustment"@
        ||| value == "credit"@
        ||| value == "charge"@
}

impl DebtTransactionType {
    pub const PAYMENT: &'static str = "payment";
    pub const REFUND: &'static str = "refund";
    pub const FEE: &'static str = "fee";
    pub const INTEREST: &'static str = "interest";
    pub const ESCROW: &'static str = "escrow";
    pub const BALANCE_ADJUSTMENT: &'static str = "balanceAdjustment";
    pub const CREDIT: &'static str = "credit";
    pub const CHARGE: &'static str = "charge";

    /// Whether the value is one this version of the API documents.
    pub fn is_known(&self) -> (result: bool)
        ensures
            result == known_debt_transaction_type(self.0@),
    {
        let value = self.0.as_str();
        str_eq(value, Self::PAYMENT) || str_eq(value, Self::REFUND) || str_eq(value, Self::FEE) || str_eq(value, Self::INTEREST) || str_eq(value, Self::ESCROW) || str_eq(value, Self::BALANCE_ADJUSTMENT) || str_eq(value, Self::CREDIT) || str_eq(value, Self::CHARGE)
    }

    /// The value as written.
    pub fn to_string(&self) -> (result: String)
        ensures
            result@ == self.0@,
    {
        self.0.clone()
    }

    /// Takes any text as a value.
    pub fn from_str(value: &str) -> (result: DebtTransactionType)
        ensures
            result.0@ == value@,
    {
        DebtTransactionType(owned(value))
    }
}

impl From<String> for DebtTransactionType {
    fn from(value: String) -> (result: DebtTransactionType)
        ensures
            result.0 == value,
    {
        DebtTransactionType(value)
    }
}

impl vstd::std_specs::convert::FromSpecImpl<String> for DebtTransactionType {
    open spec fn obeys_from_spec() -> bool {
        true
    }

    open spec fn from_spec(value: String) -> DebtTransactionType {
        DebtTransactionType(value)
    }
}

/// Whether a listed item is a transaction or a subtransaction. Values are kept as the API writes them, including ones it adds later.
#[derive(Clone, Debug, PartialEq, Eq, Hash)]
pub struct HybridTransactionType(pub String);

/// The values this version of the API documents.
pub open spec fn known_hybrid_transaction_type(value: Seq<char>) -> bool {
        ||| value == "transaction"@
        ||| value == "subtransaction"@
}

impl HybridTransactionType {
    pub const TRANSACTION: &'static str = "transaction";
    pub const SUBTRANSACTION: &'static str = "subtransaction";

    /// Whether the value is one this version of the API documents.
    pub fn is_known(&self) -> (result: bool)
        ensures
            result == known_hybrid_transaction_type(self.0@),
    {
        let value = self.0.as_str();
        str_eq(value, Self::TRANSACTION) || str_eq(value, Self::SUBTRANSACTION)
    }

    /// The value as written.
    pub fn to_string(&self) -> (result: String)
        ensures
            result@ == self.0@,
    {
        self.0.clone()
    }

    /// Takes any text as a value.
    pub fn from_str(value: &str) -> (result: HybridTransactionType)
        ensures
            result.0@ == value@,
    {
        HybridTransactionType(owned(value))
    }
}

impl From<String> for HybridTransactionType {
    fn from(value: String) -> (result: HybridTransactionType)
        ensures
            result.0 == value,
    {
        HybridTransactionType(value)
    }
}

impl vstd::std_specs::convert::FromSpecImpl<String> for HybridTransactionType {
    open spec fn obeys_from_spec() -> bool {
        true
    }

    open spec fn from_spec(value: String) -> HybridTransactionType {
        HybridTransactionType(value)
    }
}

/// The kind of transactions a list is filtered to. Values are kept as the API writes them, including ones it adds later.
#[derive(Clone, Debug, PartialEq, Eq, Hash)]
pub struct TransactionType(pub String);

/// The values this version of the API documents.
pub open spec fn known_transaction_type(value: Seq<char>) -> bool {
        ||| value == "uncategorized"@
        ||| value == "unapproved"@
}

impl TransactionType {
    pub const UNCATEGORIZED: &'static str = "uncategorized";
    pub const UNAPPROVED: &'static str = "unapproved";

    /// Whether the value is one this version of the API documents.
    pub fn is_known(&self) -> (result: bool)
        ensures
            result == known_transaction_type(self.0@),
    {
        let value = self.0.as_str();
        str_eq(value, Self::UNCATEGORIZED) || str_eq(value, Self::UNAPPROVED)
    }

    /// The value as written.
    pub fn to_string(&self) -> (result: String)
        ensures
            result@ == self.0@,
    {
        self.0.clone()
    }

    /// Takes any text as a value.
    pub fn from_str(value: &str) -> (result: TransactionType)
        ensures
            result.0@ == value@,
    {
        TransactionType(owned(value))
    }
}

impl From<String> for TransactionType {
    fn from(value: String) -> (result: TransactionType)
        ensures
            result.0 == value,
    {
        TransactionType(value)
    }
}

impl vstd::std_specs::convert::FromSpecImpl<String> for TransactionType {
    open spec fn obeys_from_spec() -> bool {
        true
    }

    open spec fn from_spec(value: String) -> TransactionType {
        TransactionType(value)
    }
}

/// The name of a transaction's flag.
#[derive(Clone, Debug, PartialEq, Eq, Hash)]
pub struct TransactionFlagName(pub String);

/// A field of a partial update: left out of the request, sent as `null` to clear it,
/// or sent with a value.
#[derive(Clone, Debug, Default, PartialEq, Eq)]
pub enum Nullable<T> {
    #[default]
    Omitted,
    Null,
    Value(T),
}

impl<T> Nullable<T> {
    /// Whether the field is left out of the request.
    pub fn is_omitted(&self) -> (result: bool)
        ensures
            result == (*self is Omitted),
    {
        match self {
            Nullable::Omitted => true,
            _ => false,
        }
    }

    /// Whether the field carries a value.
    pub fn has_value(&self) -> (result: bool)
        ensures
            result == (*self is Value),
    {
        match self {
            Nullable::Value(_) => true,
            _ => false,
        }
    }
}

/// The envelope of every successful response.
#[derive(Clone, Debug)]
pub struct SuccessResponse<T> {
    pub data: T,
}

/// An API error as the server describes it.
#[derive(Clone, Debug)]
pub struct ErrorDetail {
    pub id: String,
    pub name: String,
    pub detail: String,
}

/// The envelope of every error response.
#[derive(Clone, Debug)]
pub struct ErrorResponse {
    pub error: ErrorDetail,
}

#[derive(Clone, Debug)]
pub struct DateFormat {
    pub format: String,
}

#[derive(Clone, Debug)]
pub struct CurrencyFormat {
    pub iso_code: String,
    pub example_format: String,
    pub decimal_digits: u8,
    pub decimal_separator: String,
    pub symbol_first: bool,
    pub group_separator: String,
    pub currency_symbol: String,
    pub display_symbol: bool,
}

#[derive(Clone, Debug)]
pub struct PlanSettings {
    pub date_format: DateFormat,
    pub currency_format: CurrencyFormat,
}

#[derive(Clone, Debug)]
pub struct PlanSettingsPayload {
    pub settings: PlanSettings,
}

#[derive(Clone, Debug)]
pub struct SaveAccount {
    pub name: String,
    pub account_type: SaveAccountType,
    pub balance: Milliunits,
}

#[derive(Clone, Debug)]
pub struct SaveCategoryGroup {
    pub name: String,
}

#[derive(Clone, Debug, Default)]
pub struct SaveCategory {
    pub name: Nullable<String>,
    pub note: Nullable<String>,
    pub category_group_id: Option<Uuid>,
    pub goal_target: Nullable<Milliunits>,
    pub goal_target_date: Nullable<CalendarDate>,
    pub goal_needs_whole_amount: Nullable<bool>,
    pub goal_frequency: Option<GoalFrequency>,
}

pub type ExistingCategory = SaveCategory;

#[derive(Clone, Debug)]
pub struct NewCategory {
    pub name: Option<String>,
    pub note: Nullable<String>,
    pub category_group_id: Uuid,
    pub goal_target: Nullable<Milliunits>,
    pub goal_target_date: Nullable<CalendarDate>,
    pub goal_needs_whole_amount: Nullable<bool>,
    pub goal_frequency: Option<GoalFrequency>,
}

#[derive(Clone, Debug)]
pub struct SaveMonthCategory {
    pub budgeted: Milliunits,
}

#[derive(Clone, Debug)]
pub struct PostPayee {
    pub name: String,
}

#[derive(Clone, Debug, Default)]
pub struct SavePayee {
    pub name: Option<String>,
}

#[derive(Clone, Debug)]
pub struct SaveSubTransaction {
    pub amount: Milliunits,
    pub payee_id: Nullable<Uuid>,
    pub payee_name: Nullable<String>,
    pub category_id: Nullable<Uuid>,
    pub memo: Nullable<String>,
}

#[derive(Clone, Debug, Default)]
pub struct ExistingTransaction {
    pub account_id: Option<Uuid>,
    pub date: Option<CalendarDate>,
    pub amount: Option<Milliunits>,
    pub payee_id: Nullable<Uuid>,
    pub payee_name: Nullable<String>,
    pub category_id: Nullable<Uuid>,
    pub memo: Nullable<String>,
    pub cleared: Option<TransactionClearedStatus>,
    pub approved: Option<bool>,
    pub flag_color: Nullable<TransactionFlagColor>,
    pub subtransactions: Option<Vec<SaveSubTransaction>>,
}

pub type SaveTransactionWithOptionalFields = ExistingTransaction;

#[derive(Clone, Debug, Default)]
pub struct NewTransaction {
    pub transaction: ExistingTransaction,
    pub import_id: Nullable<String>,
}

#[derive(Clone, Debug, Default)]
pub struct SaveTransactionWithIdOrImportId {
    pub id: Option<Uuid>,
    pub import_id: Option<String>,
    pub transaction: ExistingTransaction,
}

/// The body of a transaction create: one transaction or a nonempty batch.
#[derive(Clone, Debug)]
pub enum CreateTransactions {
    One(NewTransaction),
    Many(Vec<NewTransaction>),
}

pub type PostTransactionsWrapper = CreateTransactions;

/// Why a request was refused before it was sent.
#[derive(Clone, Copy, Debug, PartialEq, Eq, Structural)]
pub enum ValidationError {
    PayeeConflict,
    EmptyTransactions,
    TransactionVariant,
    BulkIdentity,
}

impl ValidationError {
    /// The error's message.
    pub fn message(&self) -> (result: String)
        ensures
            result@ == validation_message(*self),
    {
        match self {
            ValidationError::PayeeConflict => owned("payee_id and payee_name cannot both be supplied"),
            ValidationError::EmptyTransactions => owned("transaction collection cannot be empty"),
            ValidationError::TransactionVariant => owned(
                "a transaction wrapper needs exactly one nonempty transaction variant",
            ),
            ValidationError::BulkIdentity => owned("a bulk item needs exactly one of id or import_id"),
        }
    }
}

pub open spec fn validation_message(error: ValidationError) -> Seq<char> {
    match error {
        ValidationError::PayeeConflict => "payee_id and payee_name cannot both be supplied"@,
        ValidationError::EmptyTransactions => "transaction collection cannot be empty"@,
        ValidationError::TransactionVariant => "a transaction wrapper needs exactly one nonempty transaction variant"@,
        ValidationError::BulkIdentity => "a bulk item needs exactly one of id or import_id"@,
    }
}

/// A transaction names its payee both by identifier and by name.
pub open spec fn payee_conflict(transaction: ExistingTransaction) -> bool {
    transaction.payee_id is Value && transaction.payee_name is Value
}

/// What is wrong with one item of a bulk update, if anything: a payee conflict first,
/// else not exactly one of `id` and `import_id`.
pub open spec fn bulk_item_error(item: SaveTransactionWithIdOrImportId) -> Option<ValidationError> {
    if payee_conflict(item.transaction) {
        Some(ValidationError::PayeeConflict)
    } else if item.id.is_some() == item.import_id.is_some() {
        Some(ValidationError::BulkIdentity)
    } else {
        None
    }
}

/// The error of the first faulty item, if any.
pub open spec fn first_bulk_error(items: Seq<SaveTransactionWithIdOrImportId>) -> Option<ValidationError>
    decreases items.len(),
{
    if items.len() == 0 {
        None
    } else {
        match bulk_item_error(items[0]) {
            Some(error) => Some(error),
            None => first_bulk_error(items.drop_first()),
        }
    }
}

/// A bulk item that does not name its payee both ways is accepted exactly when it
/// names one of `id` and `import_id`: one with neither, or with both, is refused with
/// `BulkIdentity`. An item naming its payee both ways is refused with `PayeeConflict`.
/// A batch is refused with the error of its first faulty item, and accepted when no item
/// is faulty.
pub proof fn law_bulk_items_need_exactly_one_identity(
    item: SaveTransactionWithIdOrImportId,
    rest: Seq<SaveTransactionWithIdOrImportId>,
)
    ensures
        !(item.transaction.payee_id is Value && item.transaction.payee_name is Value) ==> (
        bulk_item_error(item) is None <==> (item.id is Some) != (item.import_id is Some)),
        !(item.transaction.payee_id is Value && item.transaction.payee_name is Value)
            && item.id is None && item.import_id is None ==> bulk_item_error(item) == Some(
            ValidationError::BulkIdentity,
        ),
        !(item.transaction.payee_id is Value && item.transaction.payee_name is Value)
            && item.id is Some && item.import_id is Some ==> bulk_item_error(item) == Some(
            ValidationError::BulkIdentity,
        ),
        item.transaction.payee_id is Value && item.transaction.payee_name is Value
            ==> bulk_item_error(item) == Some(ValidationError::PayeeConflict),
        bulk_item_error(item) is Some ==> first_bulk_error(seq![item] + rest) == bulk_item_error(
            item,
        ),
        bulk_item_error(item) is None ==> first_bulk_error(seq![item] + rest) == first_bulk_error(
            rest,
        ),
        first_bulk_error(Seq::<SaveTransactionWithIdOrImportId>::empty()) is None,
{
    assert((seq![item] + rest).drop_first() =~= rest);
    assert((seq![item] + rest)[0] == item);
}

/// Some transaction of the batch has a payee conflict.
pub open spec fn any_payee_conflict(transactions: Seq<NewTransaction>) -> bool {
    exists|i: int| 0 <= i < transactions.len() && payee_conflict(#[trigger] transactions[i].transaction)
}

impl ExistingTransaction {
    /// Refuses a transaction that names its payee both by identifier and by name.
    pub fn validate(&self) -> (result: Result<(), ValidationError>)
        ensures
            payee_conflict(*self) ==> result == Err::<(), ValidationError>(ValidationError::PayeeConflict),
            !payee_conflict(*self) ==> result == Ok::<(), ValidationError>(()),
    {
        if self.payee_id.has_value() && self.payee_name.has_value() {
            Err(ValidationError::PayeeConflict)
        } else {
            Ok(())
        }
    }
}

impl SaveTransactionWithIdOrImportId {
    /// Refuses a payee conflict, then an item without exactly one of `id` and `import_id`.
    pub fn validate(&self) -> (result: Result<(), ValidationError>)
        ensures
            match bulk_item_error(*self) {
                Some(error) => result == Err::<(), ValidationError>(error),
                None => result == Ok::<(), ValidationError>(()),
            },
    {
        self.transaction.validate()?;
        if self.id.is_some() == self.import_id.is_some() {
            Err(ValidationError::BulkIdentity)
        } else {
            Ok(())
        }
    }
}

impl CreateTransactions {
    /// Refuses an empty batch and any transaction with a payee conflict.
    pub fn validate(&self) -> (result: Result<(), ValidationError>)
        ensures
            match *self {
                CreateTransactions::One(t) => if payee_conflict(t.transaction) {
                    result == Err::<(), ValidationError>(ValidationError::PayeeConflict)
                } else {
                    result == Ok::<(), ValidationError>(())
                },
                CreateTransactions::Many(ts) => if ts@.len() == 0 {
                    result == Err::<(), ValidationError>(ValidationError::EmptyTransactions)
                } else if any_payee_conflict(ts@) {
                    result == Err::<(), ValidationError>(ValidationError::PayeeConflict)
                } else {
                    result == Ok::<(), ValidationError>(())
                },
            },
    {
        match self {
            CreateTransactions::One(transaction) => transaction.transaction.validate(),
            CreateTransactions::Many(transactions) => {
                if transactions.len() == 0 {
                    return Err(ValidationError::EmptyTransactions);
                }
                let mut i: usize = 0;
                while i < transactions.len()
                    invariant
                        i <= transactions@.len(),
                        transactions@.len() > 0,
                        *self == CreateTransactions::Many(*transactions),
                        forall|k: int| 0 <= k < i ==> !payee_conflict(#[trigger] transactions@[k].transaction),
                    decreases transactions@.len() - i,
                {
                    if transactions[i].transaction.validate().is_err() {
                        assert(payee_conflict(transactions@[i as int].transaction));
                        return Err(ValidationError::PayeeConflict);
                    }
                    i = i + 1;
                }
                Ok(())
            },
        }
    }

    /// Builds the body from the two fields of its wire wrapper: exactly one of
    /// `transaction` and a nonempty `transactions` must be present.
    pub fn from_wrapper(
        transaction: Option<NewTransaction>,
        transactions: Option<Vec<NewTransaction>>,
    ) -> (result: Result<CreateTransactions, ValidationError>)
        ensures
            result == create_from_wrapper(transaction, transactions),
    {
        match (transaction, transactions) {
            (Some(transaction), None) => Ok(CreateTransactions::One(transaction)),
            (None, Some(transactions)) => {
                if transactions.len() > 0 {
                    Ok(CreateTransactions::Many(transactions))
                } else {
                    Err(ValidationError::TransactionVariant)
                }
            },
            _ => Err(ValidationError::TransactionVariant),
        }
    }
}

/// The body that the two wrapper fields stand for, or the error that they are not
/// exactly one transaction or one nonempty batch.
pub open spec fn create_from_wrapper(
    transaction: Option<NewTransaction>,
    transactions: Option<Vec<NewTransaction>>,
) -> Result<CreateTransactions, ValidationError> {
    match (transaction, transactions) {
        (Some(t), None) => Ok(CreateTransactions::One(t)),
        (None, Some(ts)) => if ts@.len() > 0 {
            Ok(CreateTransactions::Many(ts))
        } else {
            Err(ValidationError::TransactionVariant)
        },
        _ => Err(ValidationError::TransactionVariant),
    }
}

/// The wrapper fields a body is written with: `transaction` for one, `transactions`
/// for a batch.
pub open spec fn wrapper_fields(body: CreateTransactions) -> (
    Option<NewTransaction>,
    Option<Vec<NewTransaction>>,
) {
    match body {
        CreateTransactions::One(t) => (Some(t), None),
        CreateTransactions::Many(ts) => (None, Some(ts)),
    }
}

/// A body that is one transaction or a nonempty batch is read back from its wrapper
/// fields unchanged; an empty batch is refused when read back.
pub proof fn law_create_wrapper_round_trip(body: CreateTransactions)
    ensures
        !(body matches CreateTransactions::Many(ts) && ts@.len() == 0) ==> create_from_wrapper(
            wrapper_fields(body).0,
            wrapper_fields(body).1,
        ) == Ok::<CreateTransactions, ValidationError>(body),
        body matches CreateTransactions::Many(ts) && ts@.len() == 0 ==> create_from_wrapper(
            wrapper_fields(body).0,
            wrapper_fields(body).1,
        ) == Err::<CreateTransactions, ValidationError>(ValidationError::TransactionVariant),
{
}

/// Refuses an empty bulk update, then answers with the first faulty item's error.
pub fn validate_bulk(values: &[SaveTransactionWithIdOrImportId]) -> (result: Result<(), ValidationError>)
    ensures
        values@.len() == 0 ==> result == Err::<(), ValidationError>(ValidationError::EmptyTransactions),
        values@.len() > 0 ==> match first_bulk_error(values@) {
            Some(error) => result == Err::<(), ValidationError>(error),
            None => result == Ok::<(), ValidationError>(()),
        },
{
    if values.len() == 0 {
        return Err(ValidationError::EmptyTransactions);
    }
    let mut i: usize = 0;
    assert(values@.skip(0) == values@);
    while i < values.len()
        invariant
            i <= values@.len(),
            first_bulk_error(values@) == first_bulk_error(values@.skip(i as int)),
        decreases values@.len() - i,
    {
        assert(values@.skip(i as int).drop_first() == values@.skip(i + 1));
        values[i].validate()?;
        i = i + 1;
    }
    assert(values@.skip(i as int).len() == 0);
    Ok(())
}

/// The filters of a transaction list.
#[derive(Clone, Debug, Default)]
pub struct TransactionFilters {
    pub since_date: Option<CalendarDate>,
    pub until_date: Option<CalendarDate>,
    pub kind: Option<TransactionType>,
    pub last_knowledge: Option<ServerKnowledge>,
}

#[derive(Clone, Debug)]
pub struct SaveScheduledTransaction {
    pub account_id: Uuid,
    pub date: CalendarDate,
    pub amount: Option<Milliunits>,
    pub payee_id: Nullable<Uuid>,
    pub payee_name: Nullable<String>,
    pub category_id: Nullable<Uuid>,
    pub memo: Nullable<String>,
    pub flag_color: Nullable<TransactionFlagColor>,
    pub frequency: Option<ScheduledTransactionFrequency>,
}

#[derive(Clone, Debug)]
pub struct PostAccountWrapper<'a> {
    pub account: &'a SaveAccount,
}

#[derive(Clone, Debug)]
pub struct PostCategoryGroupWrapper<'a> {
    pub category_group: &'a SaveCategoryGroup,
}

pub type PatchCategoryGroupWrapper<'a> = PostCategoryGroupWrapper<'a>;

#[derive(Clone, Debug)]
pub struct PostCategoryWrapper<'a> {
    pub category: &'a NewCategory,
}

#[derive(Clone, Debug)]
pub struct PatchCategoryWrapper<'a> {
    pub category: &'a ExistingCategory,
}

#[derive(Clone, Debug)]
pub struct PatchMonthCategoryWrapper<'a> {
    pub category: &'a SaveMonthCategory,
}

#[derive(Clone, Debug)]
pub struct PostPayeeWrapper<'a> {
    pub payee: &'a PostPayee,
}

#[derive(Clone, Debug)]
pub struct PatchPayeeWrapper<'a> {
    pub payee: &'a SavePayee,
}

#[derive(Clone, Debug)]
pub struct PatchTransactionsWrapper<'a> {
    pub transactions: &'a [SaveTransactionWithIdOrImportId],
}

#[derive(Clone, Debug)]
pub struct PutTransactionWrapper<'a> {
    pub transaction: &'a ExistingTransaction,
}

#[derive(Clone, Debug)]
pub struct PostScheduledTransactionWrapper<'a> {
    pub scheduled_transaction: &'a SaveScheduledTransaction,
}

pub type PutScheduledTransactionWrapper<'a> = PostScheduledTransactionWrapper<'a>;

} // verus!
