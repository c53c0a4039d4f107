use adguard_external_dns::engine::{
    plan_applied, plan_applied_unit, plan_deleted, plan_deleted_unit, plan_restarted,
    plan_restarted_unit, Action,
};
use adguard_external_dns::filter::DomainFilter;
use adguard_external_dns::ingress::IngressSnapshot;
use adguard_external_dns::record::{IngressRecord, Record, ReconciliationUnit};

fn match_all() -> DomainFilter {
    DomainFilter::new(".*".to_string()).unwrap()
}

fn unit(host: &str, ip: &str, previous: Option<(&str, &str)>) -> ReconciliationUnit {
    ReconciliationUnit::new(
        IngressRecord::new(host.to_string(), ip.to_string()),
        previous.map(|(h, i)| IngressRecord::new(h.to_string(), i.to_string())),
    )
}

fn assert_add(action: &Action, domain: &str, answer: &str) {
    match action {
        Action::Add(r) => {
            assert_eq!(r.domain, domain);
            assert_eq!(r.answer, answer);
        }
        other => panic!("expected an add, got {:?}", kind(other)),
    }
}

fn assert_delete(action: &Action, domain: &str, answer: &str) {
    match action {
        Action::Delete(r) => {
            assert_eq!(r.domain, domain);
            assert_eq!(r.answer, answer);
        }
        other => panic!("expected a delete, got {:?}", kind(other)),
    }
}

fn assert_persist(action: &Action, host: &str, ip: &str) {
    match action {
        Action::Persist(r) => {
            assert_eq!(r.host, host);
            assert_eq!(r.ip, ip);
        }
        other => panic!("expected a persist, got {:?}", kind(other)),
    }
}

fn kind(action: &Action) -> &'static str {
    match action {
        Action::Add(_) => "add",
        Action::Delete(_) => "delete",
        Action::Persist(_) => "persist",
    }
}

#[test]
fn applied_with_no_prior_adds_then_persists() {
    let filter = match_all();
    let actions = plan_applied_unit(&unit("a.test", "1.1.1.1", None), &filter);
    assert_eq!(actions.len(), 2);
    assert_add(&actions[0], "a.test", "1.1.1.1");
    assert_persist(&actions[1], "a.test", "1.1.1.1");
}

#[test]
fn applied_with_changed_prior_deletes_before_adding() {
    let filter = match_all();
    let actions =
        plan_applied_unit(&unit("a.test", "2.2.2.2", Some(("a.test", "1.1.1.1"))), &filter);
    assert_eq!(actions.len(), 3);
    assert_delete(&actions[0], "a.test", "1.1.1.1");
    assert_add(&actions[1], "a.test", "2.2.2.2");
    assert_persist(&actions[2], "a.test", "2.2.2.2");
}

#[test]
fn applied_with_changed_host_deletes_before_adding() {
    let filter = match_all();
    let actions =
        plan_applied_unit(&unit("new.test", "1.1.1.1", Some(("old.test", "1.1.1.1"))), &filter);
    assert_eq!(actions.len(), 3);
    assert_delete(&actions[0], "old.test", "1.1.1.1");
    assert_add(&actions[1], "new.test", "1.1.1.1");
    assert_persist(&actions[2], "new.test", "1.1.1.1");
}

#[test]
fn applied_with_unchanged_prior_only_persists() {
    let filter = match_all();
    let actions =
        plan_applied_unit(&unit("a.test", "1.1.1.1", Some(("a.test", "1.1.1.1"))), &filter);
    assert_eq!(actions.len(), 1);
    assert_persist(&actions[0], "a.test", "1.1.1.1");
}

#[test]
fn deleted_deletes_and_never_persists() {
    let filter = match_all();
    let actions = plan_deleted_unit(&unit("b.test", "3.3.3.3", None), &filter);
    assert_eq!(actions.len(), 1);
    assert_delete(&actions[0], "b.test", "3.3.3.3");
}

#[test]
fn filtered_host_is_inert_in_every_event_kind() {
    let filter = DomainFilter::new(r"\.allowed$".to_string()).unwrap();
    let listed = vec![Record::new("x.test".to_string(), "4.4.4.4".to_string())];
    let u = unit("x.test", "4.4.4.4", Some(("x.test", "0.0.0.0")));
    assert!(plan_applied_unit(&u, &filter).is_empty());
    assert!(plan_deleted_unit(&u, &filter).is_empty());
    assert!(plan_restarted_unit(&u, &listed, &filter).is_empty());
}

#[test]
fn restarted_adds_missing_domain() {
    let filter = match_all();
    let listed = vec![Record::new("c.test".to_string(), "4.4.4.4".to_string())];
    let actions = plan_restarted_unit(&unit("d.test", "5.5.5.5", None), &listed, &filter);
    assert_eq!(actions.len(), 1);
    assert_add(&actions[0], "d.test", "5.5.5.5");
}

#[test]
fn restarted_reasserts_matching_answer() {
    let filter = match_all();
    let listed = vec![Record::new("c.test".to_string(), "4.4.4.4".to_string())];
    let actions = plan_restarted_unit(&unit("c.test", "4.4.4.4", None), &listed, &filter);
    assert_eq!(actions.len(), 2);
    assert_delete(&actions[0], "c.test", "4.4.4.4");
    assert_add(&actions[1], "c.test", "4.4.4.4");
}

#[test]
fn restarted_leaves_differing_answer_alone() {
    let filter = match_all();
    let listed = vec![Record::new("c.test".to_string(), "9.9.9.9".to_string())];
    let actions = plan_restarted_unit(&unit("c.test", "4.4.4.4", None), &listed, &filter);
    assert!(actions.is_empty());
}

#[test]
fn applied_snapshot_plans_through_extraction() {
    let filter = match_all();
    let s = IngressSnapshot {
        rule_hosts: vec![Some("a.test".to_string())],
        lb_ips: vec![Some("1.1.1.1".to_string())],
        prev_host: None,
        prev_ip: None,
    };
    let actions = plan_applied(&s, &filter).unwrap();
    assert_eq!(actions.len(), 2);
    assert_add(&actions[0], "a.test", "1.1.1.1");
    assert_persist(&actions[1], "a.test", "1.1.1.1");
}

#[test]
fn applied_snapshot_propagates_invariant_violation() {
    let filter = match_all();
    let s = IngressSnapshot {
        rule_hosts: vec![Some("a.test".to_string())],
        lb_ips: vec![Some("1.1.1.1".to_string()), Some("2.2.2.2".to_string())],
        prev_host: None,
        prev_ip: None,
    };
    assert!(plan_applied(&s, &filter).is_err());
}

#[test]
fn deleted_snapshot_plans_single_delete() {
    let filter = match_all();
    let s = IngressSnapshot {
        rule_hosts: vec![Some("b.test".to_string())],
        lb_ips: vec![Some("3.3.3.3".to_string())],
        prev_host: None,
        prev_ip: None,
    };
    let actions = plan_deleted(&s, &filter).unwrap();
    assert_eq!(actions.len(), 1);
    assert_delete(&actions[0], "b.test", "3.3.3.3");
}

#[test]
fn restarted_batch_handles_both_cases() {
    let filter = match_all();
    let listed = vec![Record::new("c.test".to_string(), "4.4.4.4".to_string())];
    let snapshots = vec![
        IngressSnapshot {
            rule_hosts: vec![Some("c.test".to_string())],
            lb_ips: vec![Some("4.4.4.4".to_string())],
            prev_host: None,
            prev_ip: None,
        },
        IngressSnapshot {
            rule_hosts: vec![Some("d.test".to_string())],
            lb_ips: vec![Some("5.5.5.5".to_string())],
            prev_host: None,
            prev_ip: None,
        },
    ];
    let actions = plan_restarted(&snapshots, &listed, &filter).unwrap();
    assert_eq!(actions.len(), 3);
    assert_delete(&actions[0], "c.test", "4.4.4.4");
    assert_add(&actions[1], "c.test", "4.4.4.4");
    assert_add(&actions[2], "d.test", "5.5.5.5");
}
