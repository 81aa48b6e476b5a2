use tcysm_auth::auth::{
    begin, begin_with_code, compose_code_mail, list_roles, pending_for_code, record_verification,
    verify, Identity, LookupOutcome, CODE_LENGTH,
};
use tcysm_auth::directory::{resolve_staff_ids, staff_ids_from_page};
use tcysm_auth::error::{AuthError, ErrorKind};
use tcysm_auth::roles::{check_admin, classify, role_config, Role, RoleConfig, RoleDirectory};
use tcysm_auth::store::{Status, Store};
use tcysm_auth::text::local_part;
use tcysm_auth::window::{passphrase, OpenOutcome, RegistrationWindow};

const STAFF: u64 = 100;
const MEMBER: u64 = 200;

fn config() -> RoleConfig {
    RoleConfig { staff_role: STAFF, member_role: MEMBER }
}

fn found() -> LookupOutcome {
    LookupOutcome::Found(Identity {
        email: "jh123@kth.se".to_string(),
        display_name: "Jane Hill".to_string(),
    })
}

fn snapshot(ids: &[&str]) -> Vec<String> {
    ids.iter().map(|s| s.to_string()).collect()
}

const PAGE: &str = "<html><body><div><table><tbody>\
    <tr><td class=\"name\">A B</td><td class=\"email\"><a href=\"mailto:ab1@kth.se\">ab1@kth.se</a></td></tr>\
    <tr><td class=\"name\">C D</td><td class=\"email\"><a href=\"mailto:cd2@kth.se\">cd2@kth.se</a></td></tr>\
    </tbody></table></div></body></html>";

#[test]
fn second_begin_is_a_state_conflict() {
    let mut store = Store::new();
    let first = begin(&mut store, 7, "jh123", &found(), 1000).unwrap();
    assert_eq!(first.requester, 7);
    let second = begin(&mut store, 7, "jh123", &found(), 1001);
    assert_eq!(second.unwrap_err(), AuthError::AlreadyPending);
    assert_eq!(AuthError::AlreadyPending.kind(), ErrorKind::StateConflict);
    assert_eq!(store.pending.len(), 1);
    assert_eq!(store.status(7), Status::Pending);
}

#[test]
fn issued_code_is_eight_alphanumerics() {
    let mut store = Store::new();
    let row = begin(&mut store, 1, "ab1", &found(), 5).unwrap();
    assert_eq!(CODE_LENGTH, 8);
    assert_eq!(row.code.chars().count(), 8);
    assert!(row.code.chars().all(|c| c.is_ascii_alphanumeric()));
    assert_eq!(store.pending[0].code, row.code);
    assert_eq!(store.pending[0].institution, "ab1");
    assert_eq!(store.pending[0].created_at, 5);
}

#[test]
fn begin_refuses_on_failed_lookup() {
    let mut store = Store::new();
    let r = begin(&mut store, 1, "ab1", &LookupOutcome::Unreachable, 5);
    assert_eq!(r.unwrap_err(), AuthError::LookupUnreachable);
    assert_eq!(AuthError::LookupUnreachable.kind(), ErrorKind::ExternalUnavailable);
    let r = begin(&mut store, 1, "zz0", &LookupOutcome::NotFound, 5);
    assert_eq!(r.unwrap_err(), AuthError::LookupNotFound);
    assert_eq!(AuthError::LookupNotFound.kind(), ErrorKind::NotFound);
    assert!(store.pending.is_empty());
    assert_eq!(store.status(1), Status::Absent);
}

#[test]
fn unissued_code_is_not_found() {
    let mut store = Store::new();
    begin_with_code(&mut store, 7, "jh123", &found(), "AAAA1111".to_string(), 10).unwrap();
    let before = store.clone();
    let r = verify(&store, 7, "BBBB2222", &snapshot(&["ab1"]), &config());
    assert_eq!(r.unwrap_err(), AuthError::NoPendingMatch);
    assert_eq!(AuthError::NoPendingMatch.kind(), ErrorKind::NotFound);
    // a code issued to someone else does not work either
    let r = verify(&store, 8, "AAAA1111", &snapshot(&["ab1"]), &config());
    assert_eq!(r.unwrap_err(), AuthError::NoPendingMatch);
    assert_eq!(store.pending.len(), before.pending.len());
    assert!(store.authenticated.is_empty());
}

#[test]
fn complete_once_then_conflict() {
    let mut store = Store::new();
    begin_with_code(&mut store, 7, "ab1", &found(), "CODE0001".to_string(), 10).unwrap();
    let staff = snapshot(&["ab1", "cd2"]);
    let done = verify(&store, 7, "CODE0001", &staff, &config()).unwrap();
    assert_eq!(done.role, STAFF);
    record_verification(&mut store, 7, &done, 20);
    assert_eq!(store.status(7), Status::Authenticated);
    assert!(store.pending.is_empty());
    let again = verify(&store, 7, "CODE0001", &staff, &config());
    assert_eq!(again.unwrap_err(), AuthError::AlreadyAuthenticated);
    assert_eq!(AuthError::AlreadyAuthenticated.kind(), ErrorKind::StateConflict);
    let restart = begin(&mut store, 7, "ab1", &found(), 30);
    assert_eq!(restart.unwrap_err(), AuthError::AlreadyAuthenticated);
    assert_eq!(store.authenticated.len(), 1);
}

#[test]
fn classification_follows_the_snapshot() {
    let staff = snapshot(&["ab1"]);
    assert_eq!(classify("ab1", &staff, &config()), STAFF);
    assert_eq!(classify("zz9", &staff, &config()), MEMBER);
    for _ in 0..3 {
        assert_eq!(classify("ab1", &staff, &config()), STAFF);
    }
}

#[test]
fn unknown_identity_gets_member_role_and_one_row() {
    let mut store = Store::new();
    begin_with_code(&mut store, 42, "jh123", &found(), "Zx9Zx9Zx".to_string(), 10).unwrap();
    assert_eq!(pending_for_code(&store, 42, "Zx9Zx9Zx").unwrap(), "jh123");
    let staff = snapshot(&["ab1", "cd2"]);
    let done = verify(&store, 42, "Zx9Zx9Zx", &staff, &config()).unwrap();
    assert_eq!(done.role, MEMBER);
    assert_eq!(done.institution, "jh123");
    let row = record_verification(&mut store, 42, &done, 1518568087);
    assert_eq!(store.authenticated.len(), 1);
    assert_eq!(store.authenticated[0].institution, "jh123");
    assert_eq!(store.authenticated[0].role, MEMBER);
    assert_eq!(store.authenticated[0].requester, 42);
    assert_eq!(row.granted_at, "2018-02-14T00:28:07Z");
}

#[test]
fn timestamp_of_the_epoch() {
    let mut store = Store::new();
    begin_with_code(&mut store, 1, "ab1", &found(), "CODE0001".to_string(), 0).unwrap();
    let done = verify(&store, 1, "CODE0001", &snapshot(&["ab1"]), &config()).unwrap();
    let row = record_verification(&mut store, 1, &done, 0);
    assert_eq!(row.granted_at, "1970-01-01T00:00:00Z");
}

#[test]
fn open_twice_keeps_first_phrase() {
    let mut w = RegistrationWindow::new();
    assert!(matches!(w.open("autumn24".to_string()), OpenOutcome::Opened));
    match w.open("spring25".to_string()) {
        OpenOutcome::AlreadyOpen(p) => assert_eq!(p, "autumn24"),
        OpenOutcome::Opened => panic!("second open must not succeed"),
    }
    assert_eq!(w.status(), Some("autumn24".to_string()));
}

#[test]
fn close_after_open_gives_phrase() {
    let mut w = RegistrationWindow::new();
    w.open("x".to_string());
    assert_eq!(w.close(), Some("x".to_string()));
    assert_eq!(w.status(), None);
    assert_eq!(w.close(), None);
}

#[test]
fn redeem_grants_linked_roles() {
    let mut store = Store::new();
    store.link_role("autumn24".to_string(), 11);
    store.link_role("other".to_string(), 99);
    store.link_role("autumn24".to_string(), 12);
    let mut w = RegistrationWindow::new();
    w.open("autumn24".to_string());
    let held = vec![12, 50];
    let server = RoleDirectory {
        roles: vec![
            Role { id: 12, name: "Autumn".to_string() },
            Role { id: 11, name: "Course".to_string() },
        ],
    };
    let report = passphrase(&w, &store, &server, &held, "autumn24").unwrap();
    assert_eq!(report.granted, vec![11, 12]);
    assert_eq!(report.newly_granted, vec![11]);
    assert_eq!(report.already_held, vec![12]);
    assert_eq!(report.names, vec!["Course".to_string(), "Autumn".to_string()]);
}

#[test]
fn redeem_refusals() {
    let mut store = Store::new();
    store.link_role("autumn24".to_string(), 11);
    let mut w = RegistrationWindow::new();
    let held: Vec<u64> = vec![];
    let server = RoleDirectory { roles: vec![Role { id: 11, name: "Course".to_string() }] };
    assert_eq!(passphrase(&w, &store, &server, &held, "autumn24").unwrap_err(), AuthError::RegistrationClosed);
    assert_eq!(AuthError::RegistrationClosed.kind(), ErrorKind::StateConflict);
    w.open("autumn24".to_string());
    let wrong = passphrase(&w, &store, &server, &held, "spring25");
    assert_eq!(wrong.unwrap_err(), AuthError::WrongPhrase);
    assert_eq!(w.status(), Some("autumn24".to_string()));
    assert_eq!(store.links.len(), 1);
    let mut w2 = RegistrationWindow::new();
    w2.open("unlinked".to_string());
    assert_eq!(passphrase(&w2, &store, &server, &held, "unlinked").unwrap_err(), AuthError::NoLinkedRoles);
}

#[test]
fn unlink_counts_and_phrases_are_distinct() {
    let mut store = Store::new();
    store.link_role("a".to_string(), 1);
    store.link_role("b".to_string(), 2);
    store.link_role("a".to_string(), 1);
    store.link_role("a".to_string(), 3);
    assert_eq!(store.list_phrases(), vec!["a".to_string(), "b".to_string()]);
    assert_eq!(store.roles_for("a"), vec![1, 1, 3]);
    assert_eq!(store.unlink_role("a", 1), 2);
    assert_eq!(store.unlink_role("a", 1), 0);
    assert_eq!(store.roles_for("a"), vec![3]);
    assert_eq!(store.list_phrases(), vec!["b".to_string(), "a".to_string()]);
    assert_eq!(Store::new().list_phrases(), Vec::<String>::new());
}

#[test]
fn list_roles_skips_missing_roles() {
    let mut store = Store::new();
    store.link_role("p".to_string(), 1);
    store.link_role("p".to_string(), 404);
    store.link_role("p".to_string(), 2);
    let dir = RoleDirectory {
        roles: vec![
            Role { id: 1, name: "Student".to_string() },
            Role { id: 2, name: "Teacher".to_string() },
        ],
    };
    assert_eq!(list_roles(&store, &dir, "p"), vec!["Student".to_string(), "Teacher".to_string()]);
    assert!(list_roles(&store, &dir, "q").is_empty());
}

#[test]
fn role_config_needs_both_roles() {
    let dir = RoleDirectory {
        roles: vec![
            Role { id: 1, name: "Student".to_string() },
            Role { id: 2, name: "Teacher".to_string() },
        ],
    };
    assert_eq!(
        role_config(&dir, "Teacher", "Student").unwrap(),
        RoleConfig { staff_role: 2, member_role: 1 }
    );
    assert_eq!(role_config(&dir, "Staff", "Student").unwrap_err(), AuthError::RoleMissing);
    assert_eq!(dir.find_by_name("Teacher"), Some(2));
    assert_eq!(dir.find_by_name("teacher"), None);
}

#[test]
fn admin_check() {
    assert!(check_admin(&vec![3, 9], 9));
    assert!(!check_admin(&vec![3, 9], 4));
    assert!(!check_admin(&vec![], 4));
}

#[test]
fn local_part_stops_at_first_at() {
    assert_eq!(local_part("ab1@kth.se"), "ab1");
    assert_eq!(local_part("a@b@c"), "a");
    assert_eq!(local_part("plain"), "plain");
    assert_eq!(local_part("@x"), "");
    assert_eq!(local_part(""), "");
}

#[test]
fn staff_ids_from_directory_page() {
    let ids = staff_ids_from_page(PAGE).unwrap();
    assert_eq!(ids, vec!["ab1".to_string(), "cd2".to_string()]);
    let fetched = resolve_staff_ids(Some(PAGE)).unwrap();
    assert_eq!(fetched, ids);
}

#[test]
fn directory_failures_are_distinct() {
    assert_eq!(resolve_staff_ids(None).unwrap_err(), AuthError::DirectoryUnavailable);
    let page = "<html><body><p>Under maintenance</p></body></html>";
    assert_eq!(staff_ids_from_page(page).unwrap_err(), AuthError::DirectoryParseError);
    assert_eq!(AuthError::DirectoryParseError.kind(), ErrorKind::ExternalUnavailable);
}

#[test]
fn code_mail_is_composed() {
    let id = Identity { email: "jh123@kth.se".to_string(), display_name: "Jane Hill".to_string() };
    let mail = compose_code_mail(&id, "Zx9Zx9Zx").unwrap();
    assert_eq!(mail.recipient, "Jane Hill<jh123@kth.se>");
    assert_eq!(mail.subject, "TCYSM Discord authentication");
    assert_eq!(mail.body, "Hello, this is your code: Zx9Zx9Zx");
    let bad = Identity { email: "not an address".to_string(), display_name: "X".to_string() };
    assert!(compose_code_mail(&bad, "Zx9Zx9Zx").is_none());
}

#[test]
fn nested_attributes_keep_source_order() {
    let page = "<div><table><tbody><tr><td class=\"email\"><a><span class=\"x\" id=\"y\" lang=\"sv\">u@kth.se</span></a></td></tr></tbody></table></div>";
    for _ in 0..20 {
        let ids = staff_ids_from_page(page).unwrap();
        assert_eq!(ids, vec!["<span class=\"x\" id=\"y\" lang=\"sv\">u".to_string()]);
    }
}
