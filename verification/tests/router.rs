use fine::handler::ecosystem::account_key;
use fine::message::common::CommonErrorResponseData;
use fine::message::ecosystem::{
    AlterUserCreditRequestData, AlterUserCreditResponseData, GetUserCreditRequestData,
    SetUserCreditRequestData, TransferCreditRequestData,
};
use fine::message::{Message, MessageData, MessageType};
use fine::model::ecosystem::EcosystemUserAccountRecord;
use fine::repository::AccountRepository;
use fine::router::{keys_of, plan, Session, DEFAULT_RETRIES};
use fine::store::{Action, Event, Snapshot, Write};

fn set(user_id: &str, credit: i32) -> Message {
    Message::carrying(MessageData::SetUserCreditRequest(SetUserCreditRequestData {
        user_id: user_id.to_string(),
        credit,
        reason: String::new(),
    }))
}

fn alter(user_id: &str, credit: i32) -> Message {
    Message::carrying(MessageData::AlterUserCreditRequest(AlterUserCreditRequestData {
        user_id: user_id.to_string(),
        credit,
        reason: "tick".to_string(),
    }))
}

fn transfer(from: &str, to: &str, credit: i32) -> Message {
    Message::carrying(MessageData::TransferCreditRequest(TransferCreditRequestData {
        from_user_id: from.to_string(),
        to_user_id: to.to_string(),
        credit,
    }))
}

fn failure(text: &str) -> Message {
    Message {
        message_type: MessageType::CommonErrorResponse,
        data: MessageData::CommonError(CommonErrorResponseData { message: text.to_string() }),
    }
}

fn record(credit: i32) -> EcosystemUserAccountRecord {
    EcosystemUserAccountRecord { credit, alter_records: vec![] }
}

/// Performs one action against the repository and hands the answer to the session.
fn advance(
    repository: &mut AccountRepository,
    session: Session,
    action: Action,
) -> (Option<Session>, Action) {
    let event = match action {
        Action::Load(keys) => Event::Loaded(repository.load_all(&keys)),
        Action::Commit(writes) => repository.commit(&writes),
        Action::Reply(reply) => panic!("the session is over: {:?}", reply),
    };
    session.step(event)
}

/// Serves one request against the repository from start to reply.
fn serve(repository: &mut AccountRepository, message: Message, now: i64) -> Message {
    let (mut session, mut action) = Session::begin_at(message, now, DEFAULT_RETRIES);
    loop {
        match session {
            Some(open) => {
                let (next, then) = advance(repository, open, action);
                session = next;
                action = then;
            }
            None => match action {
                Action::Reply(reply) => return reply,
                other => panic!("a closed session asks for {:?}", other),
            },
        }
    }
}

fn credit_of(repository: &AccountRepository, user_id: &str) -> i32 {
    repository.load(&account_key(user_id)).unwrap().record.credit
}

#[test]
fn default_retries_is_small() {
    assert_eq!(DEFAULT_RETRIES, 3);
}

#[test]
fn requests_name_their_keys() {
    assert_eq!(keys_of(&set("u", 1).data), Some(vec!["ecosystem:account:u".to_string()]));
    assert_eq!(keys_of(&alter("u", 1).data), Some(vec!["ecosystem:account:u".to_string()]));
    assert_eq!(
        keys_of(&transfer("a", "b", 1).data),
        Some(vec!["ecosystem:account:a".to_string(), "ecosystem:account:b".to_string()])
    );
    assert_eq!(keys_of(&failure("x").data), None);
}

#[test]
fn a_request_first_loads_its_keys() {
    let (session, action) = Session::begin_at(transfer("a", "b", 1), 0, 2);
    assert!(session.is_some());
    assert_eq!(
        action,
        Action::Load(vec!["ecosystem:account:a".to_string(), "ecosystem:account:b".to_string()])
    );
}

#[test]
fn a_reply_is_no_request() {
    let (session, action) = Session::begin_at(failure("x"), 0, 2);
    assert!(session.is_none());
    assert_eq!(action, Action::Reply(failure("invalid message")));
}

#[test]
fn begin_reads_the_clock() {
    let (session, action) = Session::begin(alter("u", 1), 0);
    assert_eq!(action, Action::Load(vec!["ecosystem:account:u".to_string()]));
    let loaded = vec![Some(Snapshot { version: 4, record: record(1) })];
    let (_, action) = session.unwrap().step(Event::Loaded(loaded));
    match action {
        Action::Commit(writes) => {
            assert_eq!(writes.len(), 1);
            assert_eq!(writes[0].expected, Some(4));
            assert_eq!(writes[0].record.credit, 2);
            assert!(writes[0].record.alter_records[0].time > 1_600_000_000);
        }
        other => panic!("no commit: {:?}", other),
    }
}

#[test]
fn a_plan_expects_the_versions_it_was_made_from() {
    let loaded = vec![
        Some(Snapshot { version: 3, record: record(70) }),
        Some(Snapshot { version: 8, record: record(0) }),
    ];
    let made = plan(&transfer("u1", "u2", 50).data, loaded, 9);
    assert_eq!(made.writes.len(), 2);
    assert_eq!(made.writes[0].key, "ecosystem:account:u1");
    assert_eq!(made.writes[0].expected, Some(3));
    assert_eq!(made.writes[0].record.credit, 20);
    assert_eq!(made.writes[1].key, "ecosystem:account:u2");
    assert_eq!(made.writes[1].expected, Some(8));
    assert_eq!(made.writes[1].record.credit, 50);
    assert_eq!(made.reply.message_type, MessageType::EcosytemTransferUserCreditResponse);
}

#[test]
fn a_set_of_a_new_account_expects_nothing_there() {
    let made = plan(&set("u", 5).data, vec![None], 0);
    assert_eq!(
        made.writes,
        vec![Write { key: "ecosystem:account:u".to_string(), expected: None, record: record(5) }]
    );
}

#[test]
fn a_refused_plan_writes_nothing() {
    let made = plan(&alter("u", 1).data, vec![None], 0);
    assert!(made.writes.is_empty());
    assert_eq!(made.reply, failure("user not found"));
    let made = plan(
        &Message::carrying(MessageData::GetUserCreditRequest(GetUserCreditRequestData {
            user_id: "u".to_string(),
        }))
        .data,
        vec![Some(Snapshot { version: 0, record: record(1) })],
        0,
    );
    assert!(made.writes.is_empty());
    assert_eq!(made.reply.message_type, MessageType::EcosytemGetUserCreditResponse);
}

#[test]
fn an_answer_of_the_wrong_length_is_a_storage_error() {
    let made = plan(&transfer("a", "b", 1).data, vec![None], 0);
    assert!(made.writes.is_empty());
    assert_eq!(made.reply, failure("unexpected answer from the store"));
    let made = plan(&alter("a", 1).data, vec![], 0);
    assert_eq!(made.reply, failure("unexpected answer from the store"));
}

#[test]
fn serving_through_the_session_reaches_the_store() {
    let mut repository = AccountRepository::new();
    serve(&mut repository, set("u", 10), 0);
    let reply = serve(&mut repository, alter("u", 5), 1);
    assert_eq!(
        reply.data,
        MessageData::AlterUserCreditResponse(AlterUserCreditResponseData {
            user_id: "u".to_string(),
            credit: 15,
        })
    );
    let stored = repository.load("ecosystem:account:u").unwrap();
    assert_eq!(stored.version, 1);
    assert_eq!(stored.record.credit, 15);
    assert_eq!(repository.load("ecosystem:account:v"), None);
}

#[test]
fn a_stale_commit_is_turned_away_and_tried_again() {
    let mut repository = AccountRepository::new();
    serve(&mut repository, set("u", 0), 0);
    let (first, first_load) = Session::begin_at(alter("u", 1), 1, 1);
    let (second, second_load) = Session::begin_at(alter("u", 1), 2, 1);
    // Both load the same version before either commits.
    let (first, first_commit) = advance(&mut repository, first.unwrap(), first_load);
    let (second, second_commit) = advance(&mut repository, second.unwrap(), second_load);
    let (first, first_reply) = advance(&mut repository, first.unwrap(), first_commit);
    assert!(first.is_none());
    assert!(matches!(first_reply, Action::Reply(_)));
    assert_eq!(credit_of(&repository, "u"), 1);
    // The second commit was planned on what is stale by now.
    let (second, again) = advance(&mut repository, second.unwrap(), second_commit);
    assert_eq!(credit_of(&repository, "u"), 1);
    assert_eq!(again, Action::Load(vec!["ecosystem:account:u".to_string()]));
    let (second, second_commit) = advance(&mut repository, second.unwrap(), again);
    let (second, second_reply) = advance(&mut repository, second.unwrap(), second_commit);
    assert!(second.is_none());
    assert_eq!(
        second_reply,
        Action::Reply(Message::carrying(MessageData::AlterUserCreditResponse(
            AlterUserCreditResponseData { user_id: "u".to_string(), credit: 2 }
        )))
    );
    let stored = repository.load("ecosystem:account:u").unwrap();
    assert_eq!(stored.record.credit, 2);
    assert_eq!(stored.record.alter_records.len(), 2);
    assert_eq!(stored.version, 2);
}

#[test]
fn interleaved_increments_all_count() {
    let mut repository = AccountRepository::new();
    serve(&mut repository, set("u", 0), 0);
    let callers: usize = 8;
    let mut open: Vec<Option<(Session, Action)>> = Vec::new();
    for now in 0..callers {
        let (session, action) = Session::begin_at(alter("u", 1), now as i64, 100);
        open.push(Some((session.unwrap(), action)));
    }
    // Round after round every caller makes one move, so that all load before
    // any commits and all but one commit of each round come too late.
    let mut done: usize = 0;
    let mut rounds: usize = 0;
    while done < callers {
        rounds += 1;
        assert!(rounds < 1000);
        for slot in open.iter_mut() {
            if let Some((session, action)) = slot.take() {
                let (next, then) = advance(&mut repository, session, action);
                match next {
                    Some(session) => *slot = Some((session, then)),
                    None => done += 1,
                }
            }
        }
    }
    let stored = repository.load("ecosystem:account:u").unwrap();
    assert_eq!(stored.record.credit, callers as i32);
    assert_eq!(stored.record.alter_records.len(), callers);
}

#[test]
fn conflicts_beyond_the_retries_end_in_a_conflict() {
    let (session, _) = Session::begin_at(alter("u", 1), 0, 1);
    let snapshot = || vec![Some(Snapshot { version: 0, record: record(0) })];
    let (session, action) = session.unwrap().step(Event::Loaded(snapshot()));
    assert!(matches!(action, Action::Commit(_)));
    let (session, action) = session.unwrap().step(Event::Conflicted);
    assert!(matches!(action, Action::Load(_)));
    let (session, action) = session.unwrap().step(Event::Loaded(snapshot()));
    assert!(matches!(action, Action::Commit(_)));
    let (session, action) = session.unwrap().step(Event::Conflicted);
    assert!(session.is_none());
    assert_eq!(action, Action::Reply(failure("too many concurrent updates")));
}

#[test]
fn a_failure_of_the_store_is_reported_in_its_own_words() {
    let (session, _) = Session::begin_at(alter("u", 1), 0, 3);
    let (session, action) = session.unwrap().step(Event::Failed("connection reset".to_string()));
    assert!(session.is_none());
    assert_eq!(action, Action::Reply(failure("connection reset")));
}

#[test]
fn answers_that_were_not_asked_for_end_the_session() {
    let (session, _) = Session::begin_at(alter("u", 1), 0, 3);
    let (session, action) = session.unwrap().step(Event::Committed);
    assert!(session.is_none());
    assert_eq!(action, Action::Reply(failure("unexpected answer from the store")));
    let (session, _) = Session::begin_at(alter("u", 1), 0, 3);
    let (session, action) = session.unwrap().step(Event::Conflicted);
    assert!(session.is_none());
    assert_eq!(action, Action::Reply(failure("unexpected answer from the store")));
    let (session, _) = Session::begin_at(alter("u", 1), 0, 3);
    let loaded = || vec![Some(Snapshot { version: 0, record: record(0) })];
    let (session, _) = session.unwrap().step(Event::Loaded(loaded()));
    let (session, action) = session.unwrap().step(Event::Loaded(loaded()));
    assert!(session.is_none());
    assert_eq!(action, Action::Reply(failure("unexpected answer from the store")));
}

#[test]
fn a_commit_is_all_or_nothing() {
    let mut repository = AccountRepository::new();
    serve(&mut repository, set("a", 10), 0);
    serve(&mut repository, set("b", 20), 0);
    let writes = vec![
        Write { key: account_key("a"), expected: Some(0), record: record(5) },
        Write { key: account_key("b"), expected: Some(7), record: record(25) },
    ];
    assert_eq!(repository.commit(&writes), Event::Conflicted);
    assert_eq!(credit_of(&repository, "a"), 10);
    assert_eq!(credit_of(&repository, "b"), 20);
    let writes = vec![
        Write { key: account_key("a"), expected: Some(0), record: record(5) },
        Write { key: account_key("b"), expected: Some(0), record: record(25) },
    ];
    assert_eq!(repository.commit(&writes), Event::Committed);
    assert_eq!(repository.load(&account_key("a")), Some(Snapshot { version: 1, record: record(5) }));
    assert_eq!(repository.load(&account_key("b")), Some(Snapshot { version: 1, record: record(25) }));
}

#[test]
fn a_write_that_expects_nothing_does_not_overwrite() {
    let mut repository = AccountRepository::new();
    let create = vec![Write { key: "k".to_string(), expected: None, record: record(1) }];
    assert_eq!(repository.commit(&create), Event::Committed);
    assert_eq!(repository.commit(&create), Event::Conflicted);
    assert_eq!(repository.load("k"), Some(Snapshot { version: 0, record: record(1) }));
    let stale = vec![Write { key: "other".to_string(), expected: Some(0), record: record(1) }];
    assert_eq!(repository.commit(&stale), Event::Conflicted);
    assert_eq!(repository.load("other"), None);
}

#[test]
fn a_used_up_version_counter_fails_the_commit() {
    let mut repository = AccountRepository::new();
    let writes = vec![
        Write { key: "fresh".to_string(), expected: None, record: record(1) },
        Write { key: "old".to_string(), expected: Some(u64::MAX), record: record(2) },
    ];
    assert_eq!(
        repository.commit(&writes),
        Event::Failed("version counter exhausted".to_string())
    );
    assert_eq!(repository.load("fresh"), None);
}

#[test]
fn loads_come_back_in_the_order_asked() {
    let mut repository = AccountRepository::new();
    serve(&mut repository, set("a", 1), 0);
    serve(&mut repository, set("b", 2), 0);
    let loaded = repository.load_all(&vec![account_key("b"), account_key("x"), account_key("a")]);
    assert_eq!(
        loaded,
        vec![
            Some(Snapshot { version: 0, record: record(2) }),
            None,
            Some(Snapshot { version: 0, record: record(1) }),
        ]
    );
}
