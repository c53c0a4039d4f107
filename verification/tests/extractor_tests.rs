use adguard_external_dns::ingress::{extract_needed_info, ExtractError, IngressSnapshot};

fn snapshot(
    rule_hosts: Vec<Option<&str>>,
    lb_ips: Vec<Option<&str>>,
    prev: Option<(&str, &str)>,
) -> IngressSnapshot {
    IngressSnapshot {
        rule_hosts: rule_hosts.into_iter().map(|h| h.map(str::to_string)).collect(),
        lb_ips: lb_ips.into_iter().map(|ip| ip.map(str::to_string)).collect(),
        prev_host: prev.map(|(h, _)| h.to_string()),
        prev_ip: prev.map(|(_, ip)| ip.to_string()),
    }
}

#[test]
fn one_host_one_address_yields_one_unit() {
    let s = snapshot(vec![Some("a.test")], vec![Some("1.1.1.1")], None);
    let units = extract_needed_info(&s).unwrap();
    assert_eq!(units.len(), 1);
    assert_eq!(units[0].current.host, "a.test");
    assert_eq!(units[0].current.ip, "1.1.1.1");
    assert!(units[0].previous.is_none());
}

#[test]
fn no_address_yields_nothing() {
    let s = snapshot(vec![Some("a.test")], vec![], Some(("old.test", "9.9.9.9")));
    assert!(extract_needed_info(&s).unwrap().is_empty());
}

#[test]
fn address_entry_without_ip_yields_nothing() {
    let s = snapshot(vec![Some("a.test")], vec![None], None);
    assert!(extract_needed_info(&s).unwrap().is_empty());
}

#[test]
fn entries_without_ip_do_not_count_as_addresses() {
    let s = snapshot(vec![Some("a.test")], vec![None, None], None);
    assert!(extract_needed_info(&s).unwrap().is_empty());
}

#[test]
fn no_address_ignores_partial_previous_pair() {
    let mut s = snapshot(vec![Some("a.test")], vec![], None);
    s.prev_host = Some("a.test".to_string());
    assert!(extract_needed_info(&s).unwrap().is_empty());

    let mut s = snapshot(vec![Some("a.test")], vec![None, None], None);
    s.prev_ip = Some("1.1.1.1".to_string());
    assert!(extract_needed_info(&s).unwrap().is_empty());
}

#[test]
fn single_assigned_address_among_empty_entries_is_used() {
    let s = snapshot(vec![Some("a.test")], vec![None, Some("1.1.1.1")], None);
    let units = extract_needed_info(&s).unwrap();
    assert_eq!(units.len(), 1);
    assert_eq!(units[0].current.host, "a.test");
    assert_eq!(units[0].current.ip, "1.1.1.1");
}

#[test]
fn no_host_yields_nothing() {
    let s = snapshot(vec![], vec![Some("1.1.1.1")], None);
    assert!(extract_needed_info(&s).unwrap().is_empty());
}

#[test]
fn first_declared_host_wins() {
    let s = snapshot(
        vec![None, Some("first.test"), Some("second.test")],
        vec![Some("1.1.1.1")],
        None,
    );
    let units = extract_needed_info(&s).unwrap();
    assert_eq!(units.len(), 1);
    assert_eq!(units[0].current.host, "first.test");
}

#[test]
fn previous_pair_is_recovered() {
    let s = snapshot(vec![Some("a.test")], vec![Some("1.1.1.1")], Some(("a.test", "0.0.0.0")));
    let units = extract_needed_info(&s).unwrap();
    let previous = units[0].previous.as_ref().unwrap();
    assert_eq!(previous.host, "a.test");
    assert_eq!(previous.ip, "0.0.0.0");
}

#[test]
fn two_addresses_are_rejected() {
    let s = snapshot(vec![Some("a.test")], vec![Some("1.1.1.1"), Some("2.2.2.2")], None);
    assert_eq!(extract_needed_info(&s).unwrap_err(), ExtractError::TooManyAddresses);
}

#[test]
fn partial_previous_pair_is_rejected() {
    let mut s = snapshot(vec![Some("a.test")], vec![Some("1.1.1.1")], None);
    s.prev_host = Some("a.test".to_string());
    assert_eq!(extract_needed_info(&s).unwrap_err(), ExtractError::PartialPriorPair);

    let mut s = snapshot(vec![Some("a.test")], vec![Some("1.1.1.1")], None);
    s.prev_ip = Some("1.1.1.1".to_string());
    assert_eq!(extract_needed_info(&s).unwrap_err(), ExtractError::PartialPriorPair);
}

#[test]
fn too_many_addresses_outranks_partial_pair() {
    let mut s = snapshot(vec![Some("a.test")], vec![Some("1.1.1.1"), Some("2.2.2.2")], None);
    s.prev_host = Some("a.test".to_string());
    assert_eq!(extract_needed_info(&s).unwrap_err(), ExtractError::TooManyAddresses);
}
