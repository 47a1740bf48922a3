use kanidm_init::error::KanidmError;
use kanidm_init::person::{
    admin_members_from, count_admins_from, membership_from, webauthn_registered_from, Entry,
};

fn entry(attrs: &[(&str, &[&str])]) -> Entry {
    let mut e = Entry::new();
    for (k, vs) in attrs {
        e.insert(k.to_string(), vs.iter().map(|v| v.to_string()).collect());
    }
    e
}

fn server_down() -> KanidmError {
    KanidmError { http_status: None, description: "Transport".to_string() }
}

#[test]
fn attribute_lookup() {
    let e = entry(&[("name", &["alice"]), ("member", &["a", "b"])]);
    assert_eq!(e.attr("member").unwrap().len(), 2);
    assert_eq!(e.attr("name").unwrap()[0], "alice");
    assert!(e.attr("memberof").is_none());
}

#[test]
fn inserting_a_name_again_replaces_its_values() {
    let mut e = entry(&[("member", &["a"]), ("name", &["g"])]);
    e.insert("member".to_string(), vec!["b".to_string(), "c".to_string()]);
    assert_eq!(e.attr("member").unwrap(), &vec!["b".to_string(), "c".to_string()]);
    assert_eq!(e.attr("name").unwrap(), &vec!["g".to_string()]);
    assert!(Entry::new().attr("member").is_none());
}

#[test]
fn count_admins_cases() {
    assert_eq!(count_admins_from(Ok(None)).unwrap(), 0);
    assert_eq!(count_admins_from(Ok(Some(entry(&[("name", &["idm_admins"])])))).unwrap(), 0);
    assert_eq!(count_admins_from(Ok(Some(entry(&[("member", &["idm_admin", "alice"])])))).unwrap(), 2);
    let e = count_admins_from(Err(server_down())).unwrap_err();
    assert_eq!(e.render(), "Failed to get group entry: Kanidm client error: Transport");
}

#[test]
fn admin_members_cases() {
    assert!(admin_members_from(Ok(None)).unwrap().is_empty());
    assert!(admin_members_from(Ok(Some(entry(&[])))).unwrap().is_empty());
    assert_eq!(
        admin_members_from(Ok(Some(entry(&[("member", &["idm_admin", "alice"])])))).unwrap(),
        vec!["idm_admin".to_string(), "alice".to_string()]
    );
    assert!(admin_members_from(Err(server_down())).is_err());
}

#[test]
fn webauthn_registration_cases() {
    assert!(!webauthn_registered_from(Ok(None)).unwrap());
    assert!(!webauthn_registered_from(Ok(Some(entry(&[("passkey", &[])])))).unwrap());
    assert!(webauthn_registered_from(Ok(Some(entry(&[("passkey", &["k1"])])))).unwrap());
    assert!(webauthn_registered_from(Ok(Some(entry(&[("attested_passkey", &["k2"])])))).unwrap());
    let e = webauthn_registered_from(Err(server_down())).unwrap_err();
    assert_eq!(e.render(), "Failed to get person entry: Kanidm client error: Transport");
}

#[test]
fn membership_cases() {
    let p = entry(&[("memberof", &["idm_people", "idm_admins"])]);
    assert!(membership_from(Ok(Some(p)), "idm_admins").unwrap());
    let p = entry(&[("memberof", &["idm_people"])]);
    assert!(!membership_from(Ok(Some(p)), "idm_admins").unwrap());
    assert!(!membership_from(Ok(Some(entry(&[]))), "idm_admins").unwrap());
    assert!(!membership_from(Ok(None), "idm_admins").unwrap());
    assert!(membership_from(Err(server_down()), "idm_admins").is_err());
}
