//! Requests about transactions: who may make them, and which transactions the kind of
//! their account allows.
pub mod delete;
pub mod fetch;
pub mod insert;
pub mod update;

use vstd::prelude::*;
use crate::database::account::Account;
use crate::database::account::AccountView;
use crate::database::account::kind::AccountKind;
use crate::database::asset::id::AssetId;
use crate::database::asset::id::AssetIdView;
use crate::database::store::Ledger;
use crate::database::transaction::Transaction;
use crate::database::transaction::TransactionView;
use crate::database::transaction::action::TxnAction;
use crate::database::transaction::action::TxnActionView;
use crate::error::LedgerError;
use crate::error::Rejection;
use crate::error::RejectionView;
use crate::error::rejected;

verus! {

/// The currency in which a registered account moves cash: the Canadian dollar.
pub open spec fn home_currency() -> AssetIdView {
    AssetIdView::Currency("CAD"@)
}

/// Whether an action moves cash into or out of the account in anything but the home
/// currency. Only a deposit and a withdrawal move cash in this sense.
pub open spec fn moves_foreign_cash(action: TxnActionView) -> bool {
    match action.cash_movement() {
        Some(asset) => asset != home_currency(),
        None => false,
    }
}

/// Whether `principal` may change a transaction of `account`: it may if the account exists
/// and `principal` is a user and owns it.
pub open spec fn may_change(principal: Option<u128>, account: Option<AccountView>) -> bool {
    match account {
        Some(account) => principal == Some(account.owner),
        None => false,
    }
}

/// What speaks against a transaction in `account`, if anything: that no such account
/// exists, or that the account is a registered one and the transaction moves cash in
/// another currency than the home currency.
pub open spec fn verdict(transaction: TransactionView, account: Option<AccountView>) -> Option<
    RejectionView,
> {
    match account {
        None => Some(rejected(LedgerError::ReferentialError, "no account exists")),
        Some(account) => if account.kind != AccountKind::NRA && moves_foreign_cash(
            transaction.action,
        ) {
            Some(
                rejected(
                    LedgerError::PolicyViolation,
                    "Canadian registered account can only deposit or withdrawal Canadian dollar",
                ),
            )
        } else {
            None
        },
    }
}

/// Whether `principal`, the user that the caller was found to be, owns `account`, the
/// account of a transaction. Without an account, or without a user, the answer is no.
pub fn authorize(principal: Option<u128>, account: Option<&Account>) -> (r: bool)
    ensures
        r == may_change(
            principal,
            match account {
                Some(account) => Some(account@),
                None => None,
            },
        ),
{
    match account {
        Some(account) => match principal {
            Some(user) => account.owner == user,
            None => false,
        },
        None => false,
    }
}

/// Whether `principal` may change `transaction`: the account of the transaction is looked
/// up in the store, and `principal` must own it. A transaction whose account does not exist
/// may be changed by nobody.
pub fn has_permission(transaction: &Transaction, principal: Option<u128>, store: &Ledger) -> (r:
    bool)
    ensures
        r == may_change(principal, store@.account(transaction.account)),
{
    let account = transaction.account(store);
    authorize(principal, account.as_ref())
}

/// Whether the transaction is a deposit or a withdrawal of anything but Canadian dollars.
pub fn rule_dep_wdl_cad(transaction: &Transaction) -> (r: bool)
    ensures
        r == moves_foreign_cash(transaction@.action),
{
    let home = AssetId::currency("CAD");
    match &transaction.action {
        TxnAction::Deposit { value, fee } => !(value.1 == home),
        TxnAction::Withdrawal { value, fee } => !(value.1 == home),
        _ => false,
    }
}

/// Checks a transaction against its account, where `account` is what the lookup of the
/// account of the transaction gave.
///
/// Without an account the transaction is rejected with `ReferentialError`; in a registered
/// account a deposit or withdrawal of anything but Canadian dollars is rejected with
/// `PolicyViolation`; every other transaction is accepted.
pub fn check(transaction: &Transaction, account: Option<&Account>) -> (r: Option<Rejection>)
    ensures
        match r {
            Some(rejection) => verdict(
                transaction@,
                match account {
                    Some(account) => Some(account@),
                    None => None,
                },
            ) == Some(rejection@),
            None => verdict(
                transaction@,
                match account {
                    Some(account) => Some(account@),
                    None => None,
                },
            ).is_none(),
        },
{
    match account {
        None => Some(Rejection::new(LedgerError::ReferentialError, "no account exists")),
        Some(account) => {
            if account.kind.is_registered() && rule_dep_wdl_cad(transaction) {
                Some(
                    Rejection::new(
                        LedgerError::PolicyViolation,
                        "Canadian registered account can only deposit or withdrawal Canadian dollar",
                    ),
                )
            } else {
                None
            }
        },
    }
}

/// Checks a transaction against its account as the store has it. See [`check`].
pub fn validate_input(transaction: &Transaction, store: &Ledger) -> (r: Option<Rejection>)
    ensures
        match r {
            Some(rejection) => verdict(transaction@, store@.account(transaction.account))
                == Some(rejection@),
            None => verdict(transaction@, store@.account(transaction.account)).is_none(),
        },
{
    let account = transaction.account(store);
    check(transaction, account.as_ref())
}

} // verus!
