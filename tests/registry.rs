use firewall_controller::dataplane::{Dataplane, DataplaneList};
use firewall_controller::error::Error;

fn dp(name: &str, id: u32) -> Dataplane {
    Dataplane { name: name.to_string(), id }
}

fn list(items: Vec<Dataplane>) -> DataplaneList {
    DataplaneList { dataplanes: items }
}

#[test]
fn by_id_finds_present_record() {
    let l = list(vec![dp("alpha", 1), dp("beta", 2), dp("gamma", 3)]);
    assert_eq!(l.by_id(2).unwrap(), &dp("beta", 2));
    assert_eq!(l.by_id(3).unwrap(), &dp("gamma", 3));
}

#[test]
fn by_id_absent_is_not_found() {
    let l = list(vec![dp("alpha", 1)]);
    assert_eq!(l.by_id(7), Err(Error::InvalidDataplaneId(7)));
}

#[test]
fn by_id_on_empty_list_is_not_found() {
    let l = list(vec![]);
    assert_eq!(l.by_id(0), Err(Error::InvalidDataplaneId(0)));
}

#[test]
fn by_name_finds_present_record() {
    let l = list(vec![dp("alpha", 1), dp("beta", 2)]);
    assert_eq!(l.by_name("alpha").unwrap(), &dp("alpha", 1));
    assert_eq!(l.by_name("beta").unwrap(), &dp("beta", 2));
}

#[test]
fn by_name_absent_is_not_found() {
    let l = list(vec![dp("alpha", 1)]);
    assert_eq!(l.by_name("alph"), Err(Error::InvalidDataplaneName("alph".to_string())));
    assert_eq!(list(vec![]).by_name(""), Err(Error::InvalidDataplaneName(String::new())));
}

#[test]
fn lookups_take_the_first_match() {
    let l = list(vec![dp("alpha", 1), dp("alpha", 2), dp("beta", 1)]);
    assert_eq!(l.by_name("alpha").unwrap(), &dp("alpha", 1));
    assert_eq!(l.by_id(1).unwrap(), &dp("alpha", 1));
}

#[test]
fn check_unique_accepts_distinct_records() {
    assert_eq!(list(vec![]).check_unique(), Ok(()));
    assert_eq!(list(vec![dp("alpha", 1), dp("beta", 2)]).check_unique(), Ok(()));
}

#[test]
fn check_unique_reports_shared_name() {
    let l = list(vec![dp("alpha", 1), dp("beta", 2), dp("alpha", 3)]);
    assert_eq!(l.check_unique(), Err(Error::DuplicateDataplaneName("alpha".to_string())));
}

#[test]
fn check_unique_reports_shared_id() {
    let l = list(vec![dp("alpha", 1), dp("beta", 1)]);
    assert_eq!(l.check_unique(), Err(Error::DuplicateDataplaneId(1)));
}

#[test]
fn derived_names() {
    let d = dp("alpha", 1);
    assert_eq!(d.pod_name(), "dp-alpha");
    assert_eq!(d.host_iface_name(), "dp1");
    assert_eq!(d.unit_name(), "dataplane@alpha.service");
}

#[test]
fn host_iface_name_renders_decimal() {
    assert_eq!(dp("x", 0).host_iface_name(), "dp0");
    assert_eq!(dp("x", 10).host_iface_name(), "dp10");
    assert_eq!(dp("x", 1234).host_iface_name(), "dp1234");
    assert_eq!(dp("x", u32::MAX).host_iface_name(), "dp4294967295");
}

#[test]
fn get_pod_follows_existence() {
    let d = dp("alpha", 1);
    assert_eq!(d.get_pod(true).unwrap().name, "dp-alpha");
    assert_eq!(d.get_pod(false), Err(Error::PodNotFound("dp-alpha".to_string())));
}
