use holochain_core_types::validation::{EntryAction, EntryLifecycle, LinkAction, ValidationData};

#[test]
fn lifecycles_are_distinct() {
    let all = [EntryLifecycle::Chain, EntryLifecycle::Dht, EntryLifecycle::Meta];
    for (i, a) in all.iter().enumerate() {
        for (j, b) in all.iter().enumerate() {
            assert_eq!(i == j, a == b);
        }
    }
}

#[test]
fn entry_actions_are_distinct_and_clone_to_themselves() {
    let all = [EntryAction::Commit, EntryAction::Modify, EntryAction::Delete];
    for a in all.iter() {
        assert_eq!(a.clone(), *a);
    }
    assert_ne!(EntryAction::Commit, EntryAction::Delete);
    assert_ne!(EntryAction::Modify, EntryAction::Commit);
}

#[test]
fn link_actions_are_distinct() {
    assert_ne!(LinkAction::Commit, LinkAction::Delete);
    assert_eq!(LinkAction::Delete.clone(), LinkAction::Delete);
}

#[test]
fn validation_data_keeps_its_fields_when_cloned() {
    let data = ValidationData {
        chain_header: None,
        sources: vec![String::from("QmSource")],
        source_chain_entries: Some(vec![serde_json::Value::from("entry")]),
        source_chain_headers: Some(vec![]),
        custom: Some(serde_json::Value::from(7)),
        lifecycle: EntryLifecycle::Chain,
        action: EntryAction::Commit,
    };
    let copy = data.clone();
    assert_eq!(copy.sources, vec![String::from("QmSource")]);
    assert_eq!(copy.source_chain_entries, Some(vec![serde_json::Value::from("entry")]));
    assert_eq!(copy.custom, Some(serde_json::Value::from(7)));
    assert_eq!(copy.lifecycle, EntryLifecycle::Chain);
    assert_eq!(copy.action, EntryAction::Commit);
    assert!(copy.chain_header.is_none());
}
