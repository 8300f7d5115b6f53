use fine::error::{LedgerError, Party};
use fine::handler::ecosystem::{
    account_key, alter_user_credit, alter_user_credit_at, get_user_credit, set_user_credit,
    transfer_reason, transfer_user_credit, transfer_user_credit_at,
};
use fine::message::ecosystem::{
    AlterUserCreditRequestData, GetUserCreditRequestData, SetUserCreditRequestData,
    TransferCreditRequestData,
};
use fine::model::ecosystem::EcosystemUserAccountRecord;

fn account(credit: i32) -> EcosystemUserAccountRecord {
    EcosystemUserAccountRecord { credit, alter_records: vec![] }
}

#[test]
fn account_key_prefixes_the_user_id() {
    assert_eq!(account_key("u1"), "ecosystem:account:u1");
    assert_eq!(account_key(""), "ecosystem:account:");
}

#[test]
fn transfer_reason_names_both_parties() {
    assert_eq!(transfer_reason("u1", "u2"), "transfer$#$from:u1$#$to:u2");
}

#[test]
fn set_creates_an_account_without_history() {
    let data = SetUserCreditRequestData {
        user_id: "u1".to_string(),
        credit: 100,
        reason: String::new(),
    };
    let (record, reply) = set_user_credit(data, None);
    assert_eq!(record.credit, 100);
    assert!(record.alter_records.is_empty());
    assert_eq!(reply.user_id, "u1");
    assert_eq!(reply.credit, 100);
}

#[test]
fn get_of_a_missing_account_is_not_found() {
    let data = GetUserCreditRequestData { user_id: "nobody".to_string() };
    let res = get_user_credit(data, None);
    assert!(matches!(res, Err(LedgerError::NotFound(Party::User))));
}

#[test]
fn alter_appends_one_entry() {
    let data = AlterUserCreditRequestData {
        user_id: "u1".to_string(),
        credit: -30,
        reason: "purchase".to_string(),
    };
    let (record, reply) = alter_user_credit_at(data, Some(account(100)), 1_700_000_000).unwrap();
    assert_eq!(reply.credit, 70);
    assert_eq!(record.credit, 70);
    assert_eq!(record.alter_records.len(), 1);
    assert_eq!(record.alter_records[0].time, 1_700_000_000);
    assert_eq!(record.alter_records[0].credit, -30);
    assert_eq!(record.alter_records[0].reason, "purchase");
}

#[test]
fn transfer_moves_credit_and_logs_both_sides() {
    let req = TransferCreditRequestData {
        from_user_id: "u1".to_string(),
        to_user_id: "u2".to_string(),
        credit: 50,
    };
    let (from, to, reply) =
        transfer_user_credit_at(req, Some(account(70)), Some(account(0)), 42).unwrap();
    assert_eq!(from.credit, 20);
    assert_eq!(to.credit, 50);
    assert_eq!(reply.from_user_credit, 20);
    assert_eq!(reply.to_user_credit, 50);
    assert_eq!(from.alter_records[0].credit, -50);
    assert_eq!(to.alter_records[0].credit, 50);
    assert_eq!(from.alter_records[0].reason, "transfer$#$from:u1$#$to:u2");
    assert_eq!(to.alter_records[0].reason, "transfer$#$from:u1$#$to:u2");
}

#[test]
fn get_reports_the_whole_account() {
    let data = GetUserCreditRequestData { user_id: "u1".to_string() };
    let (stored, _) = alter_user_credit_at(
        AlterUserCreditRequestData { user_id: "u1".to_string(), credit: 4, reason: "a".to_string() },
        Some(account(1)),
        7,
    )
    .unwrap();
    let found = get_user_credit(data, Some(stored)).unwrap();
    assert_eq!(found.user_id, "u1");
    assert_eq!(found.credit, 5);
    assert_eq!(found.alter_records.len(), 1);
    assert_eq!(found.alter_records[0].credit, 4);
}

#[test]
fn set_keeps_the_history_of_an_existing_account() {
    let (stored, _) = alter_user_credit_at(
        AlterUserCreditRequestData { user_id: "u1".to_string(), credit: 4, reason: "a".to_string() },
        Some(account(1)),
        7,
    )
    .unwrap();
    let data = SetUserCreditRequestData {
        user_id: "u1".to_string(),
        credit: -8,
        reason: "correction".to_string(),
    };
    let (record, reply) = set_user_credit(data, Some(stored));
    assert_eq!(record.credit, -8);
    assert_eq!(reply.credit, -8);
    assert_eq!(record.alter_records.len(), 1);
}

#[test]
fn alter_refusals() {
    let request = |credit: i32| AlterUserCreditRequestData {
        user_id: "u".to_string(),
        credit,
        reason: String::new(),
    };
    assert_eq!(alter_user_credit_at(request(1), None, 0), Err(LedgerError::NotFound(Party::User)));
    assert_eq!(
        alter_user_credit_at(request(-11), Some(account(10)), 0),
        Err(LedgerError::InsufficientCredit)
    );
    assert_eq!(
        alter_user_credit_at(request(i32::MAX), Some(account(1)), 0),
        Err(LedgerError::BadRequest)
    );
    assert_eq!(
        alter_user_credit_at(request(i32::MIN), Some(account(-5)), 0),
        Err(LedgerError::InsufficientCredit)
    );
    let (record, reply) = alter_user_credit_at(request(-10), Some(account(10)), 0).unwrap();
    assert_eq!(record.credit, 0);
    assert_eq!(reply.credit, 0);
}

#[test]
fn transfer_refusals_come_in_order() {
    let request = |from: &str, to: &str, credit: i32| TransferCreditRequestData {
        from_user_id: from.to_string(),
        to_user_id: to.to_string(),
        credit,
    };
    // A missing account comes first, whatever else is wrong with the request.
    assert_eq!(
        transfer_user_credit_at(request("a", "a", 1), None, None, 0),
        Err(LedgerError::NotFound(Party::FromUser))
    );
    assert_eq!(
        transfer_user_credit_at(request("a", "b", -1), None, None, 0),
        Err(LedgerError::NotFound(Party::FromUser))
    );
    assert_eq!(
        transfer_user_credit_at(request("a", "b", -1), Some(account(5)), None, 0),
        Err(LedgerError::NotFound(Party::ToUser))
    );
    assert_eq!(
        transfer_user_credit_at(request("a", "b", i32::MIN), None, Some(account(5)), 0),
        Err(LedgerError::NotFound(Party::FromUser))
    );
    assert_eq!(
        transfer_user_credit_at(request("a", "b", 1), None, None, 0),
        Err(LedgerError::NotFound(Party::FromUser))
    );
    // Then insufficient credit, also for a negative amount and for one account
    // on both sides.
    assert_eq!(
        transfer_user_credit_at(request("a", "b", -3), Some(account(-5)), Some(account(0)), 0),
        Err(LedgerError::InsufficientCredit)
    );
    assert_eq!(
        transfer_user_credit_at(request("a", "a", 6), Some(account(5)), Some(account(5)), 0),
        Err(LedgerError::InsufficientCredit)
    );
    // Then the malformed request.
    assert_eq!(
        transfer_user_credit_at(request("a", "a", 5), Some(account(5)), Some(account(5)), 0),
        Err(LedgerError::BadRequest)
    );
    assert_eq!(
        transfer_user_credit_at(request("a", "b", -1), Some(account(5)), Some(account(0)), 0),
        Err(LedgerError::BadRequest)
    );
    assert_eq!(
        transfer_user_credit_at(request("a", "b", -7), Some(account(-5)), Some(account(0)), 0),
        Err(LedgerError::BadRequest)
    );
    assert_eq!(
        transfer_user_credit_at(request("a", "b", 1), Some(account(0)), None, 0),
        Err(LedgerError::NotFound(Party::ToUser))
    );
    assert_eq!(
        transfer_user_credit_at(request("a", "b", 1), Some(account(0)), Some(account(i32::MAX)), 0),
        Err(LedgerError::InsufficientCredit)
    );
    assert_eq!(
        transfer_user_credit_at(request("a", "b", 1), Some(account(1)), Some(account(i32::MAX)), 0),
        Err(LedgerError::BadRequest)
    );
    let (from, to, _) =
        transfer_user_credit_at(request("a", "b", 0), Some(account(0)), Some(account(3)), 0).unwrap();
    assert_eq!(from.credit, 0);
    assert_eq!(to.credit, 3);
    assert_eq!(from.alter_records.len(), 1);
}

#[test]
fn the_clock_stamps_alters_and_transfers() {
    let data = AlterUserCreditRequestData {
        user_id: "u".to_string(),
        credit: 1,
        reason: String::new(),
    };
    let (record, _) = alter_user_credit(data, Some(account(0))).unwrap();
    assert!(record.alter_records[0].time > 1_600_000_000);
    let req = TransferCreditRequestData {
        from_user_id: "a".to_string(),
        to_user_id: "b".to_string(),
        credit: 1,
    };
    let (from, to, _) = transfer_user_credit(req, Some(account(1)), Some(account(0))).unwrap();
    assert!(from.alter_records[0].time > 1_600_000_000);
    assert_eq!(from.alter_records[0].time, to.alter_records[0].time);
    let missing = AlterUserCreditRequestData {
        user_id: "u".to_string(),
        credit: 1,
        reason: String::new(),
    };
    assert_eq!(alter_user_credit(missing, None), Err(LedgerError::NotFound(Party::User)));
}
