//! The XRP ledger response models: the shapes one chain adapter decodes
//! node replies into, and the small readings the core takes from them.

use vstd::prelude::*;

verus! {

/// A node reply wrapping its payload in a `result` member.
#[derive(Debug)]
pub struct LedgerResult<T> {
    pub result: T,
}

/// The current ledger index.
#[derive(Debug)]
pub struct LedgerCurrent {
    pub ledger_current_index: i64,
}

/// A reply carrying one ledger.
#[derive(Debug)]
pub struct LedgerData {
    pub ledger: Ledger,
}

/// The objects held by one account.
#[derive(Debug)]
pub struct AccountObjects {
    pub account_objects: Vec<AccountObject>,
}

/// One account object; only its low limit is read.
#[derive(Debug)]
pub struct AccountObject {
    pub low_limit: AccountObjectLowLimit,
}

/// The currency side of an account object's low limit.
#[derive(Debug)]
pub struct AccountObjectLowLimit {
    pub currency: String,
}

/// One closed ledger: its close time and its transactions.
#[derive(Debug)]
pub struct Ledger {
    pub close_time: i64,
    pub transactions: Vec<Transaction>,
}

/// One ledger transaction, with the optional members the wire may omit.
#[derive(Debug)]
pub struct Transaction {
    pub hash: String,
    pub fee: Option<String>,
    pub account: Option<String>,
    pub amount: Option<Amount>,
    pub destination: Option<String>,
    pub transaction_type: String,
    pub sequence: i64,
    pub date: Option<i64>,
    pub destination_tag: Option<i64>,
    pub memos: Option<Vec<TransactionMemo>>,
    pub meta: TransactionMeta,
}

/// The metadata of one transaction.
#[derive(Debug)]
pub struct TransactionMeta {
    pub result: String,
    pub delivered_amount: Option<Amount>,
}

/// An amount on the wire: either a plain drops string, or a currency
/// record for issued tokens.
#[derive(Debug)]
pub enum Amount {
    Str(String),
    Amount(AmountCurrency),
}

impl Amount {
    /// The issuer of an issued-token amount; a plain drops amount has
    /// none.
    pub fn token_id(&self) -> (r: Option<String>)
        ensures
            self matches Amount::Str(_) ==> r is None,
            self matches Amount::Amount(a) ==> (r matches Some(s) && s@ == a.issuer@),
    {
        match self {
            Amount::Str(_) => None,
            Amount::Amount(amount) => Some(amount.issuer.clone()),
        }
    }
}

/// An issued-token amount: value, issuer, and currency code.
#[derive(Debug)]
pub struct AmountCurrency {
    pub value: String,
    pub issuer: String,
    pub currency: String,
}

/// One memo attached to a transaction.
#[derive(Debug)]
pub struct TransactionMemo {
    pub memo: TransactionMemoData,
}

/// The data member of a memo.
#[derive(Debug)]
pub struct TransactionMemoData {
    pub data: Option<String>,
}

} // verus!
