use transfer::wire::{clone_items, clone_members, find_member, push_field};
use transfer::{Expandable, Member, Page, Transfer, TransferId, Value};

const FIXTURE: &str = r#"{"id":"tr_1","amount":1000,"amount_reversed":0,"created":1690000000,"currency":"usd","livemode":false,"metadata":{},"reversals":{"object":"list","data":[],"has_more":false,"url":"/v1/transfers/tr_1/reversals"},"reversed":false}"#;

fn value_of(json: &serde_json::Value) -> Value {
    match json {
        serde_json::Value::Null => Value::Null,
        serde_json::Value::Bool(b) => Value::Bool(*b),
        serde_json::Value::Number(n) => Value::Int(n.as_i64().unwrap()),
        serde_json::Value::String(s) => Value::Text(s.clone()),
        serde_json::Value::Array(items) => Value::Array(items.iter().map(value_of).collect()),
        serde_json::Value::Object(members) => Value::Object(
            members
                .iter()
                .map(|(name, value)| Member { name: name.clone(), value: value_of(value) })
                .collect(),
        ),
    }
}

fn json_of(value: &Value) -> serde_json::Value {
    match value {
        Value::Null => serde_json::Value::Null,
        Value::Bool(b) => serde_json::Value::Bool(*b),
        Value::Int(n) => serde_json::Value::from(*n),
        Value::Text(s) => serde_json::Value::String(s.clone()),
        Value::Array(items) => serde_json::Value::Array(items.iter().map(json_of).collect()),
        Value::Object(members) => serde_json::Value::Object(
            members.iter().map(|m| (m.name.clone(), json_of(&m.value))).collect(),
        ),
    }
}

fn parse(text: &str) -> Value {
    value_of(&serde_json::from_str::<serde_json::Value>(text).unwrap())
}

fn members_of(text: &str) -> Vec<Member> {
    match parse(text) {
        Value::Object(members) => members,
        _ => panic!("not an object"),
    }
}

fn member(name: &str, value: Value) -> Member {
    Member { name: name.to_string(), value }
}

fn text(s: &str) -> Value {
    Value::Text(s.to_string())
}

fn names(members: &[Member]) -> Vec<String> {
    members.iter().map(|m| m.name.clone()).collect()
}

fn shown(members: &Vec<Member>, name: &str) -> Option<String> {
    find_member(members, name).map(|v| json_of(v).to_string())
}

fn sample() -> Transfer {
    Transfer {
        id: TransferId::new("tr_7"),
        amount: 2500,
        amount_reversed: 2500,
        balance_transaction: Some(Expandable::Id("txn_1".to_string())),
        created: 1700000000,
        currency: "eur".to_string(),
        description: Some("payout".to_string()),
        destination: Some(Expandable::Object(vec![
            member("id", text("acct_1")),
            member("object", text("account")),
        ])),
        destination_payment: None,
        livemode: true,
        metadata: vec![
            ("order".to_string(), "17".to_string()),
            ("batch".to_string(), "b".to_string()),
        ],
        reversals: Page {
            data: vec![Value::Object(vec![
                member("id", text("trr_1")),
                member("amount", Value::Int(2500)),
            ])],
            has_more: false,
            url: "/v1/transfers/tr_7/reversals".to_string(),
        },
        reversed: true,
        source_transaction: None,
        source_type: Some("card".to_string()),
        transfer_group: None,
    }
}

#[test]
fn fixture_reads_as_transfer() {
    let members = members_of(FIXTURE);
    let transfer = Transfer::from_members(&members).unwrap();
    assert_eq!(transfer.amount_reversed, 0);
    assert!(transfer.destination.is_none());
    assert_eq!(transfer.object(), "transfer");
    assert_eq!(transfer.id().as_str(), "tr_1");
    assert_eq!(transfer.amount, 1000);
    assert_eq!(transfer.created, 1690000000);
    assert_eq!(transfer.currency, "usd");
    assert!(!transfer.livemode);
    assert!(!transfer.reversed);
    assert!(transfer.metadata.is_empty());
    assert!(transfer.reversals.data.is_empty());
    assert!(!transfer.reversals.has_more);
    assert_eq!(transfer.reversals.url, "/v1/transfers/tr_1/reversals");
    assert!(transfer.balance_transaction.is_none());
    assert!(transfer.description.is_none());
    assert!(transfer.destination_payment.is_none());
    assert!(transfer.source_transaction.is_none());
    assert!(transfer.source_type.is_none());
    assert!(transfer.transfer_group.is_none());
}

#[test]
fn fixture_read_from_a_value() {
    let transfer = Transfer::from_value(&parse(FIXTURE)).unwrap();
    assert_eq!(transfer.id().as_str(), "tr_1");
    assert!(Transfer::from_value(&Value::Null).is_err());
    assert!(Transfer::from_value(&text("tr_1")).is_err());
    assert!(Transfer::from_value(&Value::Array(vec![parse(FIXTURE)])).is_err());
}

#[test]
fn fixture_written_again_is_the_fixture() {
    let transfer = Transfer::from_value(&parse(FIXTURE)).unwrap();
    let written = json_of(&transfer.to_value());
    let read: serde_json::Value = serde_json::from_str(FIXTURE).unwrap();
    assert_eq!(written, read);
}

#[test]
fn fixture_written_again_omits_absent_fields() {
    let members = members_of(FIXTURE);
    let transfer = Transfer::from_members(&members).unwrap();
    let written = transfer.to_members();
    assert_eq!(
        names(&written),
        vec![
            "id",
            "amount",
            "amount_reversed",
            "created",
            "currency",
            "livemode",
            "metadata",
            "reversals",
            "reversed"
        ]
    );
    for name in ["id", "amount", "amount_reversed", "created", "currency", "livemode", "metadata", "reversed"] {
        assert_eq!(shown(&written, name), shown(&members, name));
    }
    assert_eq!(shown(&written, "amount"), Some("1000".to_string()));
    assert_eq!(shown(&written, "id"), Some("\"tr_1\"".to_string()));
    assert_eq!(shown(&written, "metadata"), Some("{}".to_string()));
    assert!(find_member(&written, "destination").is_none());
    assert!(find_member(&written, "description").is_none());
    assert!(find_member(&written, "balance_transaction").is_none());
    assert!(find_member(&written, "destination_payment").is_none());
    assert!(find_member(&written, "source_transaction").is_none());
    assert!(find_member(&written, "source_type").is_none());
    assert!(find_member(&written, "transfer_group").is_none());
}

#[test]
fn null_members_read_as_unset_and_are_not_written() {
    let mut members = members_of(FIXTURE);
    members.push(member("description", Value::Null));
    members.push(member("destination", Value::Null));
    members.push(member("transfer_group", Value::Null));
    let transfer = Transfer::from_members(&members).unwrap();
    assert!(transfer.description.is_none());
    assert!(transfer.destination.is_none());
    assert!(transfer.transfer_group.is_none());
    let written = transfer.to_members();
    assert_eq!(written.len(), 9);
    assert!(find_member(&written, "description").is_none());
    assert!(find_member(&written, "destination").is_none());
    assert!(find_member(&written, "transfer_group").is_none());
}

#[test]
fn every_field_set_is_written_in_field_order() {
    let mut transfer = sample();
    transfer.destination_payment = Some(Expandable::Id("py_1".to_string()));
    transfer.source_transaction = Some(Expandable::Id("ch_1".to_string()));
    transfer.transfer_group = Some("group_1".to_string());
    let written = transfer.to_members();
    assert_eq!(
        names(&written),
        vec![
            "id",
            "amount",
            "amount_reversed",
            "balance_transaction",
            "created",
            "currency",
            "description",
            "destination",
            "destination_payment",
            "livemode",
            "metadata",
            "reversals",
            "reversed",
            "source_transaction",
            "source_type",
            "transfer_group"
        ]
    );
    assert_eq!(shown(&written, "balance_transaction"), Some("\"txn_1\"".to_string()));
    assert_eq!(
        shown(&written, "destination"),
        Some(r#"{"id":"acct_1","object":"account"}"#.to_string())
    );
    assert_eq!(shown(&written, "metadata"), Some(r#"{"batch":"b","order":"17"}"#.to_string()));
    assert_eq!(shown(&written, "source_type"), Some("\"card\"".to_string()));
    assert_eq!(shown(&written, "transfer_group"), Some("\"group_1\"".to_string()));
    assert_eq!(shown(&written, "livemode"), Some("true".to_string()));
}

#[test]
fn metadata_is_written_in_its_own_order() {
    let written = sample().to_members();
    match find_member(&written, "metadata") {
        Some(Value::Object(entries)) => {
            assert_eq!(names(entries), vec!["order", "batch"]);
            assert!(matches!(&entries[0].value, Value::Text(s) if s == "17"));
            assert!(matches!(&entries[1].value, Value::Text(s) if s == "b"));
        }
        _ => panic!("metadata is not an object"),
    }
}

#[test]
fn reversals_are_written_as_a_list_object() {
    let written = sample().to_members();
    match find_member(&written, "reversals") {
        Some(Value::Object(list)) => {
            assert_eq!(names(list), vec!["object", "data", "has_more", "url"]);
            assert!(matches!(find_member(list, "object"), Some(Value::Text(s)) if s == "list"));
            assert!(matches!(find_member(list, "has_more"), Some(Value::Bool(false))));
            assert_eq!(
                shown(list, "data"),
                Some(r#"[{"amount":2500,"id":"trr_1"}]"#.to_string())
            );
            assert_eq!(shown(list, "url"), Some("\"/v1/transfers/tr_7/reversals\"".to_string()));
        }
        _ => panic!("reversals is not an object"),
    }
}

#[test]
fn written_transfer_reads_back_the_same() {
    let transfer = sample();
    let back = Transfer::from_value(&transfer.to_value()).unwrap();
    assert_eq!(back.id().as_str(), "tr_7");
    assert_eq!(back.amount, 2500);
    assert_eq!(back.amount_reversed, 2500);
    assert!(matches!(&back.balance_transaction, Some(Expandable::Id(s)) if s == "txn_1"));
    assert_eq!(back.created, 1700000000);
    assert_eq!(back.currency, "eur");
    assert_eq!(back.description, Some("payout".to_string()));
    match &back.destination {
        Some(Expandable::Object(record)) => {
            assert_eq!(names(record), vec!["id", "object"]);
            assert_eq!(shown(record, "id"), Some("\"acct_1\"".to_string()));
        }
        _ => panic!("destination is not a record"),
    }
    assert!(back.destination_payment.is_none());
    assert!(back.livemode);
    assert_eq!(back.metadata, transfer.metadata);
    assert_eq!(back.reversals.data.len(), 1);
    assert_eq!(json_of(&back.reversals.data[0]), json_of(&transfer.reversals.data[0]));
    assert!(!back.reversals.has_more);
    assert_eq!(back.reversals.url, transfer.reversals.url);
    assert!(back.reversed);
    assert!(back.source_transaction.is_none());
    assert_eq!(back.source_type, Some("card".to_string()));
    assert!(back.transfer_group.is_none());
    assert_eq!(json_of(&back.to_value()), json_of(&transfer.to_value()));
}

#[test]
fn expanded_reference_reads_as_object() {
    let mut members = members_of(FIXTURE);
    members.push(member("destination", parse(r#"{"id":"acct_9","email":null}"#)));
    members.push(member("source_transaction", text("ch_3")));
    let transfer = Transfer::from_members(&members).unwrap();
    match &transfer.destination {
        Some(Expandable::Object(record)) => {
            assert_eq!(shown(record, "id"), Some("\"acct_9\"".to_string()));
            assert_eq!(shown(record, "email"), Some("null".to_string()));
        }
        _ => panic!("destination is not a record"),
    }
    assert!(matches!(&transfer.source_transaction, Some(Expandable::Id(s)) if s == "ch_3"));
    let written = transfer.to_members();
    assert_eq!(shown(&written, "destination"), shown(&members, "destination"));
    assert_eq!(shown(&written, "source_transaction"), Some("\"ch_3\"".to_string()));
}

#[test]
fn missing_required_member_is_a_mismatch() {
    for name in [
        "id",
        "amount",
        "amount_reversed",
        "created",
        "currency",
        "livemode",
        "metadata",
        "reversals",
        "reversed",
    ] {
        let members: Vec<Member> =
            members_of(FIXTURE).into_iter().filter(|m| m.name != name).collect();
        assert!(Transfer::from_members(&members).is_err());
    }
    assert!(Transfer::from_members(&Vec::new()).is_err());
}

#[test]
fn member_of_another_type_is_a_mismatch() {
    let wrong = [
        ("amount", text("1000")),
        ("id", Value::Int(1)),
        ("description", Value::Int(3)),
        ("destination", Value::Bool(true)),
        ("destination", Value::Array(vec![])),
        ("reversed", Value::Null),
        ("metadata", parse(r#"{"a":1}"#)),
        ("metadata", Value::Array(vec![])),
        ("reversals", parse(r#"{"object":"list","data":[],"url":"/x"}"#)),
        ("reversals", parse(r#"{"object":"list","data":{},"has_more":true,"url":"/x"}"#)),
        ("reversals", text("list")),
    ];
    for (name, value) in wrong {
        let mut members = members_of(FIXTURE);
        members.push(member(name, value));
        assert!(Transfer::from_members(&members).is_err(), "{}", name);
    }
}

#[test]
fn unknown_members_are_passed_over() {
    let mut members = members_of(FIXTURE);
    members.push(member("object", text("transfer")));
    members.push(member("date", Value::Int(1)));
    let transfer = Transfer::from_members(&members).unwrap();
    assert_eq!(transfer.to_members().len(), 9);
}

#[test]
fn last_member_of_a_name_decides() {
    let members = vec![
        member("a", Value::Int(1)),
        member("b", Value::Int(2)),
        member("a", Value::Int(3)),
    ];
    assert!(matches!(find_member(&members, "a"), Some(Value::Int(3))));
    assert!(matches!(find_member(&members, "b"), Some(Value::Int(2))));
    assert!(find_member(&members, "c").is_none());
    assert!(find_member(&members, "").is_none());
}

#[test]
fn push_field_adds_only_present_values() {
    let mut members = Vec::new();
    push_field(&mut members, "a", None);
    assert!(members.is_empty());
    push_field(&mut members, "a", Some(Value::Bool(true)));
    push_field(&mut members, "b", None);
    assert_eq!(names(&members), vec!["a"]);
    assert!(matches!(find_member(&members, "a"), Some(Value::Bool(true))));
}

#[test]
fn copies_hold_the_same_values() {
    let value = parse(r#"{"a":[1,{"b":null,"c":[true,"x"]}],"d":{"e":-5}}"#);
    assert_eq!(json_of(&value.clone()), json_of(&value));
    let members = members_of(r#"{"a":[1,2],"b":"t"}"#);
    let copies = clone_members(&members);
    assert_eq!(names(&copies), vec!["a", "b"]);
    assert_eq!(shown(&copies, "a"), Some("[1,2]".to_string()));
    let items = vec![Value::Int(1), text("x"), Value::Null];
    let copies = clone_items(&items);
    assert_eq!(json_of(&Value::Array(copies)).to_string(), r#"[1,"x",null]"#);
}

#[test]
fn list_answer_reads_as_transfers_in_order() {
    let second = FIXTURE.replace("tr_1", "tr_2");
    let body = format!(
        r#"{{"object":"list","data":[{},{}],"has_more":true,"url":"/v1/transfers"}}"#,
        second, FIXTURE
    );
    let list = Transfer::read_list(&parse(&body)).unwrap();
    assert_eq!(list.data.len(), 2);
    assert_eq!(list.data[0].id().as_str(), "tr_2");
    assert_eq!(list.data[1].id().as_str(), "tr_1");
    assert!(list.has_more);
    assert_eq!(list.url, "/v1/transfers");
}

#[test]
fn empty_list_answer_reads_as_empty_page() {
    let body = parse(r#"{"object":"list","data":[],"has_more":false,"url":"/v1/transfers"}"#);
    let list = Transfer::read_list(&body).unwrap();
    assert!(list.data.is_empty());
    assert!(!list.has_more);
    assert_eq!(list.url, "/v1/transfers");
}

#[test]
fn list_answer_of_another_shape_is_a_mismatch() {
    assert!(Transfer::read_list(&Value::Null).is_err());
    assert!(Transfer::read_list(&Value::Array(vec![])).is_err());
    assert!(Transfer::read_list(&parse(r#"{"object":"list","data":[],"has_more":false}"#)).is_err());
    assert!(Transfer::read_list(&parse(r#"{"data":[],"has_more":"no","url":"/x"}"#)).is_err());
    assert!(Transfer::read_list(&parse(r#"{"error":{"message":"no"}}"#)).is_err());
    let broken = format!(
        r#"{{"object":"list","data":[{},{{"id":"tr_3"}}],"has_more":false,"url":"/v1/transfers"}}"#,
        FIXTURE
    );
    assert!(Transfer::read_list(&parse(&broken)).is_err());
    let not_records = r#"{"object":"list","data":["tr_1"],"has_more":false,"url":"/v1/transfers"}"#;
    assert!(Transfer::read_list(&parse(not_records)).is_err());
}

#[test]
fn id_is_the_id_field_and_object_is_constant() {
    let transfer = sample();
    assert_eq!(transfer.id().as_str(), transfer.id.as_str());
    assert_eq!(transfer.id().as_str(), "tr_7");
    assert_eq!(transfer.object(), "transfer");
    let other = Transfer::from_members(&members_of(FIXTURE)).unwrap();
    assert_eq!(other.object(), "transfer");
    assert_eq!(other.id().as_str(), "tr_1");
}

#[test]
fn fully_reversed_fixture_has_whole_amount_reversed() {
    let transfer = sample();
    assert!(transfer.reversed);
    assert_eq!(transfer.amount_reversed, transfer.amount);
    assert!(transfer.is_reversal_consistent());
}

#[test]
fn reversal_consistency_is_reported_not_enforced() {
    let mut transfer = sample();
    transfer.amount_reversed = 100;
    assert!(!transfer.is_reversal_consistent());
    transfer.reversed = false;
    assert!(transfer.is_reversal_consistent());
    transfer.amount_reversed = transfer.amount;
    assert!(transfer.is_reversal_consistent());
    let mut members = members_of(FIXTURE);
    members.push(member("reversed", Value::Bool(true)));
    let read = Transfer::from_members(&members).unwrap();
    assert!(read.reversed);
    assert!(!read.is_reversal_consistent());
}

#[test]
fn clone_keeps_every_field() {
    let transfer = sample();
    let copy = transfer.clone();
    assert_eq!(copy.id.as_str(), "tr_7");
    assert_eq!(copy.amount, 2500);
    assert_eq!(copy.description, transfer.description);
    assert_eq!(copy.metadata, transfer.metadata);
    assert_eq!(json_of(&copy.to_value()), json_of(&transfer.to_value()));
}
