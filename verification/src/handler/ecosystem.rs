//! The four ledger operations, each as a step from the records that were loaded
//! to the records to store and the reply to send.
//!
//! What the operations accept and refuse: a set writes any credit, negative
//! ones too, and leaves the history alone; an alter takes a negative delta as a
//! debit; a transfer of a negative amount, or from an account to itself, is
//! refused as a bad request, and so is any change that would carry a balance
//! past the largest credit that a record can hold.
//!
//! A transfer tests in a fixed order, and the first test that fails names the
//! error: the debited account is missing, the credited account is missing, the
//! debited account holds less than the amount, the request is malformed, the
//! credited balance would not fit.

use crate::clock::unix_now;
use crate::error::{LedgerError, LedgerErrorView, Party};
use crate::message::ecosystem::{
    AlterUserCreditRequestData, AlterUserCreditResponseData, CreditChangeView,
    GetUserCreditRequestData, GetUserCreditResponseData, SetUserCreditRequestData,
    SetUserCreditResponseData, TransferCreditRequestData, TransferCreditResponseData,
    TransferOutcomeView, TransferView, UserAccountView, UserCreditView,
};
use crate::model::ecosystem::{
    AccountView, AlterRecordView, EcosystemUserAccountRecord, EcosystemUserCreditAlterRecord,
};
use vstd::prelude::*;

verus! {

/// Mathematical value of a record that may be absent.
pub open spec fn stored_view(stored: Option<EcosystemUserAccountRecord>) -> Option<AccountView> {
    match stored {
        Some(record) => Some(record@),
        None => None,
    }
}

/// The key under which the store holds the account of `user_id`.
pub open spec fn account_key_text(user_id: Seq<char>) -> Seq<char> {
    "ecosystem:account:"@ + user_id
}

/// The reason that both history entries of a transfer carry.
pub open spec fn transfer_reason_text(from_user_id: Seq<char>, to_user_id: Seq<char>) -> Seq<
    char,
> {
    "transfer$#$from:"@ + from_user_id + "$#$to:"@ + to_user_id
}

/// What a set leaves in the store: the new credit over the history as it was.
pub open spec fn set_outcome(stored: Option<AccountView>, credit: i32) -> AccountView {
    match stored {
        Some(account) => AccountView { credit, alter_records: account.alter_records },
        None => AccountView { credit, alter_records: Seq::empty() },
    }
}

/// What a get reports of the account that was loaded.
pub open spec fn get_outcome(stored: Option<AccountView>, user_id: Seq<char>) -> Result<
    UserAccountView,
    LedgerErrorView,
> {
    match stored {
        Some(account) => Ok(
            UserAccountView {
                user_id,
                credit: account.credit,
                alter_records: account.alter_records,
            },
        ),
        None => Err(LedgerErrorView::NotFound(Party::User)),
    }
}

/// What an alter at time `now` leaves in the store, or why it is refused.
pub open spec fn alter_outcome(stored: Option<AccountView>, req: CreditChangeView, now: i64)
    -> Result<AccountView, LedgerErrorView> {
    match stored {
        None => Err(LedgerErrorView::NotFound(Party::User)),
        Some(account) => {
            if account.credit + req.credit < 0 {
                Err(LedgerErrorView::InsufficientCredit)
            } else if account.credit + req.credit > i32::MAX {
                Err(LedgerErrorView::BadRequest)
            } else {
                Ok(
                    account.altered(
                        (account.credit + req.credit) as i32,
                        AlterRecordView { time: now, credit: req.credit, reason: req.reason },
                    ),
                )
            }
        },
    }
}

/// What a transfer at time `now` leaves in the store for the two accounts, the
/// debited one first, or why it is refused.
///
/// A missing account is reported whatever the amount, the debited one first.
/// With both accounts there, an amount above the debited credit is
/// insufficient credit. What is left is refused as a bad request where the
/// amount is negative, where both parties are the same account, or where the
/// credited balance would pass the largest credit that a record can hold.
pub open spec fn transfer_outcome(
    req: TransferView,
    from: Option<AccountView>,
    to: Option<AccountView>,
    now: i64,
) -> Result<(AccountView, AccountView), LedgerErrorView> {
    if from is None {
        Err(LedgerErrorView::NotFound(Party::FromUser))
    } else if to is None {
        Err(LedgerErrorView::NotFound(Party::ToUser))
    } else if from->0.credit < req.credit {
        Err(LedgerErrorView::InsufficientCredit)
    } else if req.from_user_id == req.to_user_id || req.credit < 0 {
        Err(LedgerErrorView::BadRequest)
    } else if to->0.credit + req.credit > i32::MAX {
        Err(LedgerErrorView::BadRequest)
    } else {
        let reason = transfer_reason_text(req.from_user_id, req.to_user_id);
        Ok(
            (
                from->0.altered(
                    (from->0.credit - req.credit) as i32,
                    AlterRecordView { time: now, credit: (-req.credit) as i32, reason },
                ),
                to->0.altered(
                    (to->0.credit + req.credit) as i32,
                    AlterRecordView { time: now, credit: req.credit, reason },
                ),
            ),
        )
    }
}

/// `res` is the alter result that `outcome` calls for, for the account `user_id`.
pub open spec fn alter_result_is(
    res: Result<(EcosystemUserAccountRecord, AlterUserCreditResponseData), LedgerError>,
    user_id: Seq<char>,
    outcome: Result<AccountView, LedgerErrorView>,
) -> bool {
    match outcome {
        Ok(account) => res matches Ok(done) && done.0@ == account && done.1@ == (UserCreditView {
            user_id,
            credit: account.credit,
        }),
        Err(e) => res matches Err(err) && err@ == e,
    }
}

/// `res` is the transfer result that `outcome` calls for, for the request `req`.
pub open spec fn transfer_result_is(
    res: Result<
        (EcosystemUserAccountRecord, EcosystemUserAccountRecord, TransferCreditResponseData),
        LedgerError,
    >,
    req: TransferView,
    outcome: Result<(AccountView, AccountView), LedgerErrorView>,
) -> bool {
    match outcome {
        Ok(accounts) => res matches Ok(done) && done.0@ == accounts.0 && done.1@ == accounts.1
            && done.2@ == (TransferOutcomeView {
            from_user_id: req.from_user_id,
            from_user_credit: accounts.0.credit,
            to_user_id: req.to_user_id,
            to_user_credit: accounts.1.credit,
        }),
        Err(e) => res matches Err(err) && err@ == e,
    }
}

/// The key under which the store holds the account of `user_id`.
pub fn account_key(user_id: &str) -> (key: String)
    ensures
        key@ == account_key_text(user_id@),
{
    let mut key = "ecosystem:account:".to_owned();
    key.append(user_id);
    key
}

/// The reason that both history entries of a transfer carry.
pub fn transfer_reason(from_user_id: &str, to_user_id: &str) -> (reason: String)
    ensures
        reason@ == transfer_reason_text(from_user_id@, to_user_id@),
{
    let mut reason = "transfer$#$from:".to_owned();
    reason.append(from_user_id);
    reason.append("$#$to:");
    reason.append(to_user_id);
    reason
}

/// Appends one alteration to `record` and sets its credit to `credit`.
fn apply_alteration(
    record: EcosystemUserAccountRecord,
    credit: i32,
    entry: EcosystemUserCreditAlterRecord,
) -> (res: EcosystemUserAccountRecord)
    ensures
        res@ == record@.altered(credit, entry@),
{
    let mut alter_records = record.alter_records;
    alter_records.push(entry);
    let res = EcosystemUserAccountRecord { credit, alter_records };
    assert(res@.alter_records =~= record@.alter_records.push(entry@));
    res
}

/// Overwrites the credit of an account, creating the account where none was
/// stored. The history stays as it was: a set leaves no entry in it, and it is
/// the one operation that may write a negative credit.
///
/// Returns the record to store and the reply.
pub fn set_user_credit(
    data: SetUserCreditRequestData,
    stored: Option<EcosystemUserAccountRecord>,
) -> (res: (EcosystemUserAccountRecord, SetUserCreditResponseData))
    ensures
        res.0@ == set_outcome(stored_view(stored), data.credit),
        res.1@ == (UserCreditView { user_id: data.user_id@, credit: data.credit }),
{
    let mut user_record = match stored {
        Some(record) => record,
        None => EcosystemUserAccountRecord::new(),
    };
    user_record.credit = data.credit;
    let response_data = SetUserCreditResponseData {
        user_id: data.user_id,
        credit: user_record.credit,
    };
    (user_record, response_data)
}

/// Reads an account: its credit and its whole history, or `NotFound` where none
/// was stored. Nothing is to be stored afterwards.
pub fn get_user_credit(
    data: GetUserCreditRequestData,
    stored: Option<EcosystemUserAccountRecord>,
) -> (res: Result<GetUserCreditResponseData, LedgerError>)
    ensures
        match get_outcome(stored_view(stored), data.user_id@) {
            Ok(account) => res matches Ok(found) && found@ == account,
            Err(e) => res matches Err(err) && err@ == e,
        },
{
    match stored {
        Some(user_account) => Ok(
            GetUserCreditResponseData {
                user_id: data.user_id,
                credit: user_account.credit,
                alter_records: user_account.alter_records,
            },
        ),
        None => Err(LedgerError::NotFound(Party::User)),
    }
}

/// Adds the delta of `data` to the credit of an account at time `now`.
///
/// The account must exist and the new credit must not be negative. On success
/// the record to store comes back, with one more history entry holding `now`,
/// the delta and the reason, together with the reply. On failure nothing is to
/// be stored.
pub fn alter_user_credit_at(
    data: AlterUserCreditRequestData,
    stored: Option<EcosystemUserAccountRecord>,
    now: i64,
) -> (res: Result<(EcosystemUserAccountRecord, AlterUserCreditResponseData), LedgerError>)
    ensures
        alter_result_is(res, data.user_id@, alter_outcome(stored_view(stored), data@, now)),
{
    let user_account = match stored {
        Some(record) => record,
        None => {
            return Err(LedgerError::NotFound(Party::User));
        },
    };
    let credit: i64 = user_account.credit as i64 + data.credit as i64;
    if credit < 0 {
        return Err(LedgerError::InsufficientCredit);
    }
    if credit > i32::MAX as i64 {
        return Err(LedgerError::BadRequest);
    }
    let credit: i32 = credit as i32;
    let entry = EcosystemUserCreditAlterRecord {
        time: now,
        credit: data.credit,
        reason: data.reason,
    };
    let user_account = apply_alteration(user_account, credit, entry);
    Ok((user_account, AlterUserCreditResponseData { user_id: data.user_id, credit }))
}

/// Adds the delta of `data` to the credit of an account, at the time the clock
/// shows.
///
/// Whether the alter is refused, and why, does not depend on the clock; on
/// success the result is that of `alter_user_credit_at` for some time.
pub fn alter_user_credit(
    data: AlterUserCreditRequestData,
    stored: Option<EcosystemUserAccountRecord>,
) -> (res: Result<(EcosystemUserAccountRecord, AlterUserCreditResponseData), LedgerError>)
    ensures
        exists|now: i64|
            alter_result_is(
                res,
                data.user_id@,
                #[trigger] alter_outcome(stored_view(stored), data@, now),
            ),
        alter_outcome(stored_view(stored), data@, 0) matches Err(e) ==> (res matches Err(err)
            && err@ == e),
{
    let now = unix_now();
    alter_user_credit_at(data, stored, now)
}

/// Moves credit from one account to another at time `now`.
///
/// A missing account is `NotFound`, the debited one first and whatever the
/// amount; an amount above the debited credit is `InsufficientCredit`; after
/// that a negative amount, a transfer from an account to itself, and a credited
/// balance that would not fit are `BadRequest`. On success the two records to
/// store come back, the debited one first, each with one more history entry
/// that names both parties, together with the reply. On failure nothing is to
/// be stored.
pub fn transfer_user_credit_at(
    req: TransferCreditRequestData,
    from: Option<EcosystemUserAccountRecord>,
    to: Option<EcosystemUserAccountRecord>,
    now: i64,
) -> (res: Result<
    (EcosystemUserAccountRecord, EcosystemUserAccountRecord, TransferCreditResponseData),
    LedgerError,
>)
    ensures
        transfer_result_is(
            res,
            req@,
            transfer_outcome(req@, stored_view(from), stored_view(to), now),
        ),
{
    let from_account = match from {
        Some(record) => record,
        None => {
            return Err(LedgerError::NotFound(Party::FromUser));
        },
    };
    let to_account = match to {
        Some(record) => record,
        None => {
            return Err(LedgerError::NotFound(Party::ToUser));
        },
    };
    if from_account.credit < req.credit {
        return Err(LedgerError::InsufficientCredit);
    }
    if req.from_user_id == req.to_user_id || req.credit < 0 {
        return Err(LedgerError::BadRequest);
    }
    if to_account.credit > i32::MAX - req.credit {
        return Err(LedgerError::BadRequest);
    }
    let from_credit: i32 = from_account.credit - req.credit;
    let to_credit: i32 = to_account.credit + req.credit;
    let debit = EcosystemUserCreditAlterRecord {
        time: now,
        credit: -req.credit,
        reason: transfer_reason(req.from_user_id.as_str(), req.to_user_id.as_str()),
    };
    let deposit = EcosystemUserCreditAlterRecord {
        time: now,
        credit: req.credit,
        reason: transfer_reason(req.from_user_id.as_str(), req.to_user_id.as_str()),
    };
    let from_account = apply_alteration(from_account, from_credit, debit);
    let to_account = apply_alteration(to_account, to_credit, deposit);
    let response = TransferCreditResponseData {
        from_user_id: req.from_user_id,
        from_user_credit: from_credit,
        to_user_id: req.to_user_id,
        to_user_credit: to_credit,
    };
    Ok((from_account, to_account, response))
}

/// Moves credit from one account to another, at the time the clock shows.
///
/// Whether the transfer is refused, and why, does not depend on the clock; on
/// success the result is that of `transfer_user_credit_at` for some time.
pub fn transfer_user_credit(
    req: TransferCreditRequestData,
    from: Option<EcosystemUserAccountRecord>,
    to: Option<EcosystemUserAccountRecord>,
) -> (res: Result<
    (EcosystemUserAccountRecord, EcosystemUserAccountRecord, TransferCreditResponseData),
    LedgerError,
>)
    ensures
        exists|now: i64|
            transfer_result_is(
                res,
                req@,
                #[trigger] transfer_outcome(req@, stored_view(from), stored_view(to), now),
            ),
        transfer_outcome(req@, stored_view(from), stored_view(to), 0) matches Err(e) ==> (
        res matches Err(err) && err@ == e),
{
    let now = unix_now();
    transfer_user_credit_at(req, from, to, now)
}

} // verus!
