use meshcore_cli::contact::{lookup_sender_name, resolve, to_hex, Contact, ContactType};
use meshcore_cli::dispatch::{plan_dispatch, sub_command_for, summarize, StepOutcome, SubCommand};
use meshcore_cli::error::CliError;
use meshcore_cli::filter::{parse_filter, select, FilterExpression};

fn contact(name: &str, key: Vec<u8>, t: ContactType, hops: i8, modified: u32) -> Contact {
    Contact {
        name: name.to_string(),
        public_key: key,
        device_type: t,
        flags: 0,
        out_path_len: hops,
        out_path: Vec::new(),
        last_advert: 0,
        last_modified: modified,
        adv_lat: 0,
        adv_lon: 0,
    }
}

fn alice_dir() -> Vec<Contact> {
    vec![
        contact("Carol", vec![0x12, 0x34], ContactType::Node, 0, 0),
        contact("Alice", vec![0xde, 0xad, 0xbe, 0xef, 0x01], ContactType::Node, 0, 0),
    ]
}

#[test]
fn resolver_finds_alice_by_name_and_key() {
    let dir = alice_dir();
    assert_eq!(resolve(&dir, "alice").ok().unwrap().name, "Alice");
    assert_eq!(resolve(&dir, "ALICE").ok().unwrap().name, "Alice");
    assert_eq!(resolve(&dir, "deadbe").ok().unwrap().name, "Alice");
    assert_eq!(resolve(&dir, "DEADBE").ok().unwrap().name, "Alice");
    match resolve(&dir, "bob") {
        Err(CliError::ContactNotFound(s)) => assert_eq!(s, "bob"),
        other => panic!("unexpected {:?}", other.map(|c| c.name.clone())),
    }
}

#[test]
fn resolver_prefers_names_over_keys() {
    // "1234" is Carol's key prefix and the name of another contact.
    let mut dir = alice_dir();
    dir.push(contact("1234", vec![0x99], ContactType::Node, 0, 0));
    assert_eq!(resolve(&dir, "1234").ok().unwrap().public_key, vec![0x99]);
    // The first key match in snapshot order wins.
    dir.push(contact("Dup", vec![0xde, 0xad], ContactType::Node, 0, 0));
    assert_eq!(resolve(&dir, "dead").ok().unwrap().name, "Alice");
}

#[test]
fn sender_names_from_key_prefix() {
    let dir = alice_dir();
    assert_eq!(lookup_sender_name(&dir, &[0xde, 0xad]), "Alice");
    assert_eq!(lookup_sender_name(&dir, &[0xab, 0x01]), "ab01");
    assert_eq!(to_hex(&vec![0x00, 0x0f, 0xf0]), "000ff0");
}

#[test]
fn filter_type_and_hops() {
    let dir = vec![
        contact("Rpt", vec![1], ContactType::Repeater, 1, 0),
        contact("Room", vec![2], ContactType::Room, 1, 0),
    ];
    let f = parse_filter("t=2,h<3", 1000);
    assert_eq!(f.contact_type, Some(2));
    assert_eq!(f.max_hops, Some(2));
    assert_eq!(select(&dir, &f), vec![0]);
}

#[test]
fn filter_update_age() {
    let now = 100_000;
    let dir = vec![
        contact("Old", vec![1], ContactType::Node, 0, now - 7200),
        contact("New", vec![2], ContactType::Node, 0, now - 60),
    ];
    let older = parse_filter("u>1h", now);
    assert_eq!(older.upd_before, Some(now - 3600));
    assert_eq!(select(&dir, &older), vec![0]);
    let newer = parse_filter("u<1h", now);
    assert_eq!(select(&dir, &newer), vec![1]);
}

#[test]
fn filter_grammar_is_lenient() {
    let f = parse_filter("all, ,zz,t=x,h>4,d,f", 50);
    assert_eq!(f.contact_type, None);
    assert_eq!(f.min_hops, Some(0));
    assert_eq!(f.max_hops, Some(-1));
    let f = parse_filter("h=3", 0);
    assert_eq!((f.min_hops, f.max_hops), (Some(3), Some(3)));
    let f = parse_filter("h>127,h<-128", 0);
    assert_eq!((f.min_hops, f.max_hops), (Some(128), Some(-129)));
    let f = parse_filter("u<5d", 10);
    assert_eq!(f.upd_after, Some(0));
    assert_eq!(parse_filter("", 9), FilterExpression::new());
    let dir = vec![
        contact("Flood", vec![1], ContactType::Node, -1, 0),
        contact("Direct", vec![2], ContactType::Node, 0, 0),
        contact("Far", vec![3], ContactType::Node, 4, 0),
    ];
    assert_eq!(select(&dir, &parse_filter("d", 0)), vec![1, 2]);
    assert_eq!(select(&dir, &parse_filter("f", 0)), vec![0]);
    assert_eq!(select(&dir, &parse_filter("h>1", 0)), vec![2]);
    assert_eq!(select(&dir, &parse_filter("all", 0)), vec![0, 1, 2]);
}

#[test]
fn sub_commands_by_prefix() {
    assert!(matches!(sub_command_for("remove_contact", ContactType::Node), SubCommand::RemoveContact));
    match sub_command_for("send hello there", ContactType::Node) {
        SubCommand::Message(m) => assert_eq!(m, "hello there"),
        other => panic!("unexpected {:?}", other),
    }
    match sub_command_for("\"hi\"", ContactType::Room) {
        SubCommand::Message(m) => assert_eq!(m, "hi"),
        other => panic!("unexpected {:?}", other),
    }
    match sub_command_for("get  name", ContactType::Repeater) {
        SubCommand::RepeaterCommand(ws) => assert_eq!(ws, vec!["get".to_string(), "name".to_string()]),
        other => panic!("unexpected {:?}", other),
    }
    assert!(matches!(sub_command_for("get name", ContactType::Node), SubCommand::Unsupported));
}

#[test]
fn bulk_dispatch_isolates_failures() {
    let dir: Vec<Contact> = (0..5u8)
        .map(|i| contact(&format!("R{i}"), vec![i], ContactType::Repeater, 0, 0))
        .collect();
    let matched = select(&dir, &parse_filter("t=2", 0));
    assert_eq!(matched.len(), 5);
    let plan = plan_dispatch(&dir, &matched, &vec!["ver".to_string()]);
    assert_eq!(plan.len(), 5);
    let mut outcomes = Vec::new();
    for (k, step) in plan.iter().enumerate() {
        assert_eq!(step.index, k);
        // The third contact's command fails; the others still run.
        if k == 2 {
            outcomes.push(StepOutcome::Failed("no answer".to_string()));
        } else {
            outcomes.push(StepOutcome::Done);
        }
    }
    let report = summarize(&outcomes);
    assert_eq!(report.matched, 5);
    assert_eq!(report.failed, vec![2]);
    assert!(report.skipped.is_empty());
}

#[test]
fn bulk_dispatch_skips_unsupported() {
    let dir = vec![
        contact("N", vec![1], ContactType::Node, 0, 0),
        contact("R", vec![2], ContactType::Repeater, 0, 0),
    ];
    let plan = plan_dispatch(&dir, &vec![0, 1], &vec!["reboot".to_string()]);
    assert!(matches!(plan[0].action, SubCommand::Unsupported));
    assert!(matches!(plan[1].action, SubCommand::RepeaterCommand(_)));
    let report = summarize(&vec![StepOutcome::Skipped, StepOutcome::Done]);
    assert_eq!(report.matched, 2);
    assert_eq!(report.skipped, vec![0]);
    assert!(report.failed.is_empty());
}

#[test]
fn path_hops_as_hex() {
    let mut c = contact("Far", vec![1], ContactType::Node, 2, 0);
    c.out_path = vec![0xa1, 0xa2, 0xa3, 0xa4, 0xa5, 0xa6, 1, 2, 3, 4, 5, 6, 9];
    assert_eq!(meshcore_cli::contact::path_hops(&c), vec!["a1a2a3a4a5a6".to_string(), "010203040506".to_string()]);
    c.out_path_len = 5;
    assert_eq!(meshcore_cli::contact::path_hops(&c).len(), 2);
    c.out_path_len = -1;
    assert!(meshcore_cli::contact::path_hops(&c).is_empty());
}
