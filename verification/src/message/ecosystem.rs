//! Payloads of the four ledger requests and of their replies.

use crate::model::ecosystem::{history_view, AlterRecordView, EcosystemUserCreditAlterRecord};
use vstd::prelude::*;

verus! {

/// Mathematical value of a request that sets or alters one account's credit.
pub struct CreditChangeView {
    pub user_id: Seq<char>,
    pub credit: i32,
    pub reason: Seq<char>,
}

/// Mathematical value of a reply that reports one account's credit.
pub struct UserCreditView {
    pub user_id: Seq<char>,
    pub credit: i32,
}

/// Mathematical value of a reply that reports one account in full.
pub struct UserAccountView {
    pub user_id: Seq<char>,
    pub credit: i32,
    pub alter_records: Seq<AlterRecordView>,
}

/// Mathematical value of a transfer request.
pub struct TransferView {
    pub from_user_id: Seq<char>,
    pub to_user_id: Seq<char>,
    pub credit: i32,
}

/// Mathematical value of a transfer reply: both balances after the transfer.
pub struct TransferOutcomeView {
    pub from_user_id: Seq<char>,
    pub from_user_credit: i32,
    pub to_user_id: Seq<char>,
    pub to_user_credit: i32,
}

/// Request to overwrite an account's credit, creating the account if needed.
#[derive(Debug, PartialEq, Eq)]
pub struct SetUserCreditRequestData {
    pub user_id: String,
    pub credit: i32,
    pub reason: String,
}

/// Reply to a set request: the credit now stored.
#[derive(Debug, PartialEq, Eq)]
pub struct SetUserCreditResponseData {
    pub user_id: String,
    pub credit: i32,
}

/// The reason of a request that names none: the empty text.
pub fn default_resource() -> (res: String)
    ensures
        res@ == Seq::<char>::empty(),
{
    String::new()
}

/// Request to read an account.
#[derive(Debug, PartialEq, Eq)]
pub struct GetUserCreditRequestData {
    pub user_id: String,
}

/// Reply to a get request: the credit and the whole audit history.
#[derive(Debug, PartialEq, Eq)]
pub struct GetUserCreditResponseData {
    pub user_id: String,
    pub credit: i32,
    pub alter_records: Vec<EcosystemUserCreditAlterRecord>,
}

/// Request to add a (possibly negative) delta to an account's credit.
#[derive(Debug, PartialEq, Eq)]
pub struct AlterUserCreditRequestData {
    pub user_id: String,
    pub credit: i32,
    pub reason: String,
}

/// Reply to an alter request: the credit after the delta was applied.
#[derive(Debug, PartialEq, Eq)]
pub struct AlterUserCreditResponseData {
    pub user_id: String,
    pub credit: i32,
}

/// Request to move credit from one account to another.
#[derive(Debug, PartialEq, Eq)]
pub struct TransferCreditRequestData {
    pub from_user_id: String,
    pub to_user_id: String,
    pub credit: i32,
}

/// Reply to a transfer request: both balances after the transfer.
#[derive(Debug, PartialEq, Eq)]
pub struct TransferCreditResponseData {
    pub from_user_id: String,
    pub from_user_credit: i32,
    pub to_user_id: String,
    pub to_user_credit: i32,
}

impl View for SetUserCreditRequestData {
    type V = CreditChangeView;

    open spec fn view(&self) -> CreditChangeView {
        CreditChangeView { user_id: self.user_id@, credit: self.credit, reason: self.reason@ }
    }
}

impl View for SetUserCreditResponseData {
    type V = UserCreditView;

    open spec fn view(&self) -> UserCreditView {
        UserCreditView { user_id: self.user_id@, credit: self.credit }
    }
}

impl View for GetUserCreditRequestData {
    type V = Seq<char>;

    open spec fn view(&self) -> Seq<char> {
        self.user_id@
    }
}

impl View for GetUserCreditResponseData {
    type V = UserAccountView;

    open spec fn view(&self) -> UserAccountView {
        UserAccountView {
            user_id: self.user_id@,
            credit: self.credit,
            alter_records: history_view(self.alter_records@),
        }
    }
}

impl View for AlterUserCreditRequestData {
    type V = CreditChangeView;

    open spec fn view(&self) -> CreditChangeView {
        CreditChangeView { user_id: self.user_id@, credit: self.credit, reason: self.reason@ }
    }
}

impl View for AlterUserCreditResponseData {
    type V = UserCreditView;

    open spec fn view(&self) -> UserCreditView {
        UserCreditView { user_id: self.user_id@, credit: self.credit }
    }
}

impl View for TransferCreditRequestData {
    type V = TransferView;

    open spec fn view(&self) -> TransferView {
        TransferView {
            from_user_id: self.from_user_id@,
            to_user_id: self.to_user_id@,
            credit: self.credit,
        }
    }
}

impl View for TransferCreditResponseData {
    type V = TransferOutcomeView;

    open spec fn view(&self) -> TransferOutcomeView {
        TransferOutcomeView {
            from_user_id: self.from_user_id@,
            from_user_credit: self.from_user_credit,
            to_user_id: self.to_user_id@,
            to_user_credit: self.to_user_credit,
        }
    }
}

impl Clone for SetUserCreditRequestData {
    fn clone(&self) -> (res: Self)
        ensures
            res@ == self@,
    {
        SetUserCreditRequestData {
            user_id: self.user_id.clone(),
            credit: self.credit,
            reason: self.reason.clone(),
        }
    }
}

impl Clone for GetUserCreditRequestData {
    fn clone(&self) -> (res: Self)
        ensures
            res@ == self@,
    {
        GetUserCreditRequestData { user_id: self.user_id.clone() }
    }
}

impl Clone for AlterUserCreditRequestData {
    fn clone(&self) -> (res: Self)
        ensures
            res@ == self@,
    {
        AlterUserCreditRequestData {
            user_id: self.user_id.clone(),
            credit: self.credit,
            reason: self.reason.clone(),
        }
    }
}

impl Clone for TransferCreditRequestData {
    fn clone(&self) -> (res: Self)
        ensures
            res@ == self@,
    {
        TransferCreditRequestData {
            from_user_id: self.from_user_id.clone(),
            to_user_id: self.to_user_id.clone(),
            credit: self.credit,
        }
    }
}

} // verus!
