//! Tests of the canonical encoding, of hashing and of the ordered
//! collections.

use kali_mcp_core::canonical::{encode_bool, encode_int, encode_text, Canonical};
use kali_mcp_core::collections::{SortedMap, SortedSet};
use kali_mcp_core::state::{
    ApplicationState, AuthorizationEvent, DataObject, FinancialTransaction, SessionState,
    StateSnapshot, TrustDecision, WorkflowCompletion,
};
use kali_mcp_core::text::{compare_text, decimal_string, same_text, TextOrder};
use kali_mcp_core::types::{
    AccountId, Balance, Confidence, Currency, FindingId, HttpMethod, HttpRequest, HttpResponse,
    ObjectId, Role, SessionId, Severity, Timestamp, UserId, WorkflowStep,
};

fn text_of(bytes: Vec<u8>) -> String {
    String::from_utf8(bytes).unwrap()
}

fn rich_state(reverse: bool) -> ApplicationState {
    let mut state = ApplicationState::default();
    state.timestamp = Some(Timestamp::new(1_700_000_000, 5));
    let mut owners = vec![("obj_a", "user_1"), ("obj_b", "user_2")];
    let mut funds = vec![
        ("acc_1", Balance::new(-7, Currency::Custom(3))),
        ("acc_2", Balance::new(500, Currency::USD)),
    ];
    let mut roles = vec!["admin", "user"];
    if reverse {
        owners.reverse();
        funds.reverse();
        roles.reverse();
    }
    for (object, user) in owners {
        state.ownership.insert(ObjectId(object.to_string()), UserId(user.to_string()));
    }
    for (account, balance) in funds {
        state.balances.insert(AccountId(account.to_string()), balance);
    }
    state.workflow_positions.insert(
        SessionId("sess".to_string()),
        WorkflowStep {
            workflow_id: "checkout".to_string(),
            step_index: 2,
            step_name: "pay".to_string(),
        },
    );
    state.current_session = Some(SessionState {
        session_id: SessionId("s\"1".to_string()),
        user_id: UserId("u\\1".to_string()),
        roles: SortedSet::from_vec(roles.into_iter().map(|r| Role(r.to_string())).collect()),
        authenticated: true,
        created_at: Timestamp::new(1, 2),
        last_activity: Timestamp::new(3, 4),
    });
    state.data_objects.insert(
        ObjectId("obj_a".to_string()),
        DataObject {
            id: ObjectId("obj_a".to_string()),
            data_type: "doc".to_string(),
            content_hash: "h\n".to_string(),
            last_modified: Timestamp::new(0, 0),
            version: 9,
        },
    );
    state.authorization_events.push(AuthorizationEvent {
        event_type: "role_grant".to_string(),
        user_id: UserId("u".to_string()),
        target_role: Some(Role("admin".to_string())),
        timestamp: Timestamp::new(1, 0),
        authorized_by: None,
    });
    state.financial_transactions.push(FinancialTransaction {
        id: "tx".to_string(),
        from_account: Some(AccountId("acc_1".to_string())),
        to_account: None,
        amount: -5,
        currency: Currency::EUR,
        is_external: true,
        timestamp: Timestamp::new(2, 0),
    });
    state.overdraft_permissions.insert(AccountId("acc_1".to_string()));
    state.trust_decisions.push(TrustDecision {
        decision_type: "auth".to_string(),
        based_on_client_input: true,
        input_validated: true,
        timestamp: Timestamp::new(4, 0),
    });
    state.workflow_completions.push(WorkflowCompletion {
        workflow_id: "w".to_string(),
        is_critical: false,
        all_steps_completed: true,
        completed_steps: vec![1, 2],
        timestamp: Timestamp::new(5, 0),
    });
    state
}

fn rich_text() -> String {
    [
    r#"{"authorization_events":[{"event_type":"role_grant","target_role":"admin","#,
    r#""timestamp":{"nanos":0,"secs":1},"user_id":"u"}],"#,
    r#""balances":{"acc_1":{"amount":-7,"currency":{"Custom":3}},"#,
    r#""acc_2":{"amount":500,"currency":"USD"}},"#,
    r#""current_session":{"authenticated":true,"created_at":{"nanos":2,"secs":1},"#,
    r#""last_activity":{"nanos":4,"secs":3},"roles":["admin","user"],"#,
    r#""session_id":"s\"1","user_id":"u\\1"},"#,
    r#""data_objects":{"obj_a":{"content_hash":"h\u000a","data_type":"doc","id":"obj_a","#,
    r#""last_modified":{"nanos":0,"secs":0},"version":9}},"#,
    r#""financial_transactions":[{"amount":-5,"currency":"EUR","from_account":"acc_1","#,
    r#""id":"tx","is_external":true,"timestamp":{"nanos":0,"secs":2}}],"#,
    r#""overdraft_permissions":["acc_1"],"#,
    r#""ownership":{"obj_a":"user_1","obj_b":"user_2"},"#,
    r#""timestamp":{"nanos":5,"secs":1700000000},"#,
    r#""trust_decisions":[{"based_on_client_input":true,"decision_type":"auth","#,
    r#""input_validated":true,"timestamp":{"nanos":0,"secs":4}}],"#,
    r#""workflow_completions":[{"all_steps_completed":true,"completed_steps":[1,2],"#,
    r#""is_critical":false,"timestamp":{"nanos":0,"secs":5},"workflow_id":"w"}],"#,
    r#""workflow_positions":{"sess":{"step_index":2,"step_name":"pay","workflow_id":"checkout"}}}"#
]
    .concat()
}

#[test]
fn empty_state_has_its_canonical_text_and_hash() {
    let state = ApplicationState::default();
    assert_eq!(
        text_of(state.encode()),
        [
            r#"{"authorization_events":[],"balances":{},"data_objects":{},"#,
            r#""financial_transactions":[],"overdraft_permissions":[],"ownership":{},"#,
            r#""trust_decisions":[],"workflow_completions":[],"workflow_positions":{}}"#
        ]
        .concat()
    );
    assert_eq!(
        StateSnapshot::new(state).hash(),
        "8f252392a3185e8362021e2644eba2f72742ec5af1251b6424cab9253572548a"
    );
}

#[test]
fn rich_state_is_encoded_with_sorted_keys_and_escapes() {
    assert_eq!(text_of(rich_state(false).encode()), rich_text());
}

#[test]
fn hash_does_not_depend_on_the_order_of_insertion() {
    let forward = rich_state(false);
    let backward = rich_state(true);
    assert_eq!(text_of(backward.encode()), rich_text());
    let hash = StateSnapshot::new(forward).hash();
    assert_eq!(hash, StateSnapshot::new(backward).hash());
    assert_eq!(hash.len(), 64);
    assert!(hash.chars().all(|c| c.is_ascii_digit() || ('a'..='f').contains(&c)));
    assert_ne!(hash, StateSnapshot::new(ApplicationState::default()).hash());
}

#[test]
fn hash_changes_with_the_contents() {
    let mut changed = rich_state(false);
    changed.balances.insert(AccountId("acc_2".to_string()), Balance::new(501, Currency::USD));
    assert_ne!(StateSnapshot::new(rich_state(false)).hash(), StateSnapshot::new(changed).hash());
}

#[test]
fn integers_are_written_in_unpadded_decimal() {
    assert_eq!(text_of(encode_int(0)), "0");
    assert_eq!(text_of(encode_int(7)), "7");
    assert_eq!(text_of(encode_int(10)), "10");
    assert_eq!(text_of(encode_int(-1)), "-1");
    assert_eq!(text_of(encode_int(i64::MIN as i128)), "-9223372036854775808");
    assert_eq!(text_of(encode_int(u64::MAX as i128)), "18446744073709551615");
    assert_eq!(text_of(encode_int(i128::MAX)), "170141183460469231731687303715884105727");
    assert_eq!(text_of(encode_int(i128::MIN)), "-170141183460469231731687303715884105728");
    assert_eq!(decimal_string(0), "0");
    assert_eq!(decimal_string(1_000_000), "1000000");
    assert_eq!(decimal_string(u128::MAX), "340282366920938463463374607431768211455");
}

#[test]
fn texts_are_quoted_and_escaped() {
    assert_eq!(text_of(encode_text("")), r#""""#);
    assert_eq!(text_of(encode_text("plain")), r#""plain""#);
    assert_eq!(text_of(encode_text("a\"b\\c")), r#""a\"b\\c""#);
    assert_eq!(text_of(encode_text("\u{0}\t\n\u{1f} ")), r#""\u0000\u0009\u000a\u001f ""#);
    assert_eq!(encode_text("\u{e9}\u{20ac}"), "\"\u{e9}\u{20ac}\"".as_bytes().to_vec());
    assert_eq!(text_of(encode_bool(true)), "true");
    assert_eq!(text_of(encode_bool(false)), "false");
}

#[test]
fn requests_and_responses_are_encoded() {
    let mut headers = SortedMap::new();
    headers.insert("b".to_string(), "2".to_string());
    headers.insert("a".to_string(), "1".to_string());
    let request = HttpRequest {
        method: HttpMethod::POST,
        url: "https://example.com".to_string(),
        headers: headers.clone(),
        body: Some(vec![0, 255]),
        timestamp: Timestamp::new(-1, 999_999_999),
    };
    assert_eq!(
        text_of(request.encode()),
        [
            r#"{"body":[0,255],"headers":{"a":"1","b":"2"},"method":"POST","#,
            r#""timestamp":{"nanos":999999999,"secs":-1},"url":"https://example.com"}"#
        ]
        .concat()
    );
    let bare = HttpRequest { body: None, headers: SortedMap::new(), method: HttpMethod::GET, ..request };
    assert_eq!(
        text_of(bare.encode()),
        [
            r#"{"headers":{},"method":"GET","#,
            r#""timestamp":{"nanos":999999999,"secs":-1},"url":"https://example.com"}"#
        ]
        .concat()
    );
    let response = HttpResponse {
        status_code: 404,
        headers,
        body: vec![],
        timestamp: Timestamp::new(0, 0),
        duration_ms: 12,
    };
    assert_eq!(
        text_of(response.encode()),
        [
            r#"{"body":[],"duration_ms":12,"headers":{"a":"1","b":"2"},"status_code":404,"#,
            r#""timestamp":{"nanos":0,"secs":0}}"#
        ]
        .concat()
    );
}

#[test]
fn texts_are_ordered_by_their_bytes() {
    assert_eq!(compare_text("a", "b"), TextOrder::Before);
    assert_eq!(compare_text("b", "a"), TextOrder::After);
    assert_eq!(compare_text("a", "a"), TextOrder::Same);
    assert_eq!(compare_text("", ""), TextOrder::Same);
    assert_eq!(compare_text("", "a"), TextOrder::Before);
    assert_eq!(compare_text("ab", "a"), TextOrder::After);
    assert_eq!(compare_text("Z", "a"), TextOrder::Before);
    assert_eq!(compare_text("z", "\u{e9}"), TextOrder::Before);
    assert_eq!(compare_text("account_10", "account_2"), TextOrder::Before);
    assert!(same_text("x\u{20ac}", "x\u{20ac}"));
    assert!(!same_text("x", "X"));
}

#[test]
fn mapping_keeps_one_value_for_each_key_in_ascending_order() {
    let mut map: SortedMap<String, i64> = SortedMap::new();
    assert!(map.is_empty());
    assert_eq!(map.insert("m".to_string(), 1), None);
    assert_eq!(map.insert("a".to_string(), 2), None);
    assert_eq!(map.insert("z".to_string(), 3), None);
    assert_eq!(map.insert("m".to_string(), 4), Some(1));
    assert_eq!(map.len(), 3);
    assert!(!map.is_empty());
    assert_eq!(map.get(&"m".to_string()), Some(&4));
    assert_eq!(map.get_by_text("a"), Some(&2));
    assert_eq!(map.get_by_text("b"), None);
    assert!(map.contains_key(&"z".to_string()));
    assert!(!map.contains_key(&"".to_string()));
    let listed: Vec<(String, i64)> =
        map.entries().into_iter().map(|(k, v)| (k.clone(), *v)).collect();
    assert_eq!(
        listed,
        vec![("a".to_string(), 2), ("m".to_string(), 4), ("z".to_string(), 3)]
    );
    assert_eq!(map.key_at(0), "a");
    assert_eq!(*map.value_at(2), 3);
    let copy = map.clone();
    map.clear();
    assert_eq!(map.len(), 0);
    assert_eq!(copy.len(), 3);
    assert_eq!(copy.get_by_text("z"), Some(&3));
}

#[test]
fn mapping_finds_every_key_among_many() {
    let mut map: SortedMap<String, i64> = SortedMap::new();
    for i in (0..200).rev() {
        map.insert(format!("key_{}", (i * 37) % 200), i);
    }
    assert_eq!(map.len(), 200);
    for i in 0..200 {
        assert_eq!(map.get_by_text(&format!("key_{}", (i * 37) % 200)), Some(&i));
    }
    let keys: Vec<String> = map.entries().into_iter().map(|(k, _)| k.clone()).collect();
    let mut sorted = keys.clone();
    sorted.sort();
    assert_eq!(keys, sorted);
}

#[test]
fn set_keeps_each_member_once_in_ascending_order() {
    let mut set: SortedSet<Role> = SortedSet::new();
    assert!(set.is_empty());
    assert!(set.insert(Role("user".to_string())));
    assert!(set.insert(Role("admin".to_string())));
    assert!(!set.insert(Role("user".to_string())));
    assert_eq!(set.len(), 2);
    assert!(set.contains(&Role("admin".to_string())));
    assert!(set.contains_text("user"));
    assert!(!set.contains_text("guest"));
    let members: Vec<&str> = set.members().into_iter().map(|r| r.0.as_str()).collect();
    assert_eq!(members, vec!["admin", "user"]);
    assert_eq!(set.member_at(1).0, "user");
    let built = SortedSet::from_vec(vec![
        Role("b".to_string()),
        Role("a".to_string()),
        Role("b".to_string()),
    ]);
    assert_eq!(built.len(), 2);
    assert_eq!(set.clone().len(), 2);
}

#[test]
fn confidence_is_held_in_millionths() {
    assert_eq!(Confidence::certain().millionths(), 1_000_000);
    assert_eq!(Confidence::none().millionths(), 0);
    assert_eq!(Confidence::from_percent(90).unwrap().millionths(), 900_000);
    assert_eq!(Confidence::from_percent(100).unwrap().millionths(), 1_000_000);
    assert!(Confidence::from_percent(101).is_none());
    assert_eq!(Confidence::from_millionths(123_456).unwrap().millionths(), 123_456);
    assert!(Confidence::from_millionths(1_000_001).is_none());
    let half = Confidence::from_percent(50).unwrap();
    let most = Confidence::from_percent(90).unwrap();
    assert_eq!(most.combine(&half).millionths(), 450_000);
    assert_eq!(most.combine(&Confidence::certain()).millionths(), 900_000);
    assert_eq!(most.combine(&Confidence::none()).millionths(), 0);
    let third = Confidence::from_millionths(333_333).unwrap();
    assert_eq!(third.combine(&third).millionths(), 111_110);
}

#[test]
fn severity_has_its_score_range_in_tenths() {
    assert_eq!(Severity::Info.cvss_range(), (0, 0));
    assert_eq!(Severity::Low.cvss_range(), (1, 39));
    assert_eq!(Severity::Medium.cvss_range(), (40, 69));
    assert_eq!(Severity::High.cvss_range(), (70, 89));
    assert_eq!(Severity::Critical.cvss_range(), (90, 100));
    assert!(Severity::Info < Severity::Low && Severity::High < Severity::Critical);
}

#[test]
fn instants_are_ordered_by_seconds_then_nanoseconds() {
    let early = Timestamp::new(1, 999);
    let late = Timestamp::new(2, 0);
    assert!(early.is_at_or_before(&late));
    assert!(!late.is_at_or_before(&early));
    assert!(early.is_at_or_before(&early));
    assert!(Timestamp::new(-5, 0).is_at_or_before(&Timestamp::new(-4, 0)));
    assert!(Timestamp::new(1, 1).is_at_or_before(&Timestamp::new(1, 2)));
    assert!(!Timestamp::new(1, 2).is_at_or_before(&Timestamp::new(1, 1)));
    let now = Timestamp::now();
    assert!(now.secs > 1_600_000_000);
    assert!(now.is_at_or_before(&Timestamp::now()));
}

#[test]
fn fresh_identifiers_are_hyphenated_and_distinct() {
    let first = FindingId::new();
    let second = FindingId::default();
    assert_eq!(first.0.len(), 36);
    assert_eq!(first.0.matches('-').count(), 4);
    assert_ne!(first, second);
    assert_eq!(first.clone(), first);
}

#[test]
fn state_lookups_answer_by_key() {
    let state = rich_state(false);
    assert!(state.user_owns(&UserId("user_1".to_string()), &ObjectId("obj_a".to_string())));
    assert!(!state.user_owns(&UserId("user_2".to_string()), &ObjectId("obj_a".to_string())));
    assert!(!state.user_owns(&UserId("user_1".to_string()), &ObjectId("none".to_string())));
    assert_eq!(state.get_balance(&AccountId("acc_2".to_string())).unwrap().amount, 500);
    assert!(state.get_balance(&AccountId("acc_3".to_string())).is_none());
    assert_eq!(state.get_workflow_step(&SessionId("sess".to_string())).unwrap().step_index, 2);
    assert!(state.get_workflow_step(&SessionId("s".to_string())).is_none());
    let snapshot = state.snapshot();
    assert_eq!(text_of(snapshot.state.encode()), rich_text());
    assert_eq!(snapshot.hash(), StateSnapshot::new(state).hash());
}

#[test]
fn session_without_identifier_makes_a_state_ill_formed() {
    let mut state = ApplicationState::default();
    assert!(state.is_well_formed());
    state.current_session = Some(SessionState {
        session_id: SessionId(String::new()),
        user_id: UserId("u".to_string()),
        roles: SortedSet::new(),
        authenticated: false,
        created_at: Timestamp::new(0, 0),
        last_activity: Timestamp::new(0, 0),
    });
    assert!(!state.is_well_formed());
    assert!(rich_state(false).is_well_formed());
}
