use klappstuhl_me::audit::{AuditLogData, AuditLogEntry, DeleteFiles, FileOperation, Upload};
use klappstuhl_me::models::{is_valid_username, Account, AccountCheck, AccountFlags, Session};
use klappstuhl_me::outside::sanitise_filename;
use klappstuhl_me::routes::admin::LogsQuery;
use klappstuhl_me::routes::audit::AuditLogQuery;
use klappstuhl_me::routes::auth::{
    parse_authentication_action, partition_sessions, password_length_ok, register_precheck,
    sort_sessions_desc, validate_credentials, AuthDecision, AuthenticationAction,
    CredentialError, RegisterError, authenticate_decision,
};
use klappstuhl_me::routes::image::{
    bulk_delete_summary, collision_rename, delete_image_decision, file_extension, file_stem,
    gallery_link, get_file_images, normalize_image_id, screen_file, upload_result, DeleteResult,
};
use klappstuhl_me::routes::services::{get_servicestatus, service_command, ServiceProbe};
use klappstuhl_me::images::ImageEntry;
use klappstuhl_me::utils::{
    default_true, get_new_image_id, is_false, is_over_length, join_iter, unwrap_infallible, Patch,
};

#[test]
fn username_rules() {
    assert!(is_valid_username("abc"));
    assert!(is_valid_username("user.name_0-x"));
    assert!(!is_valid_username("ab"));
    assert!(!is_valid_username("Uppercase"));
    assert!(!is_valid_username("has space"));
    assert!(!is_valid_username(&"a".repeat(33)));
    assert!(is_valid_username(&"a".repeat(32)));
}

#[test]
fn account_flags_admin_bit() {
    let mut flags = AccountFlags::new();
    assert!(!flags.is_admin());
    flags.set_admin(true);
    assert!(flags.is_admin());
    flags.set_admin(false);
    assert!(!flags.is_admin());
}

#[test]
fn account_check_reads_flags() {
    let mut flags = AccountFlags::new();
    flags.set_admin(true);
    let account = Account {
        id: 1,
        name: String::from("admin"),
        password: String::from("hash"),
        flags,
    };
    assert!(account.flags().is_admin());
    let missing: Option<Account> = None;
    assert!(!missing.flags().is_admin());
    assert!(Some(account).flags().is_admin());
}

#[test]
fn patch_three_states() {
    let missing: Patch<i64> = Patch::Missing;
    let null: Patch<i64> = Patch::Null;
    let value: Patch<i64> = Patch::Value(3);
    assert!(missing.is_missing());
    assert!(!missing.is_null());
    assert!(null.is_null());
    assert_eq!(missing.to_option(), None);
    assert_eq!(null.to_option(), Some(None));
    assert_eq!(value.to_option(), Some(Some(3)));
    assert!(<Patch<i64> as Default>::default().is_missing());
}

#[test]
fn over_length_check() {
    assert!(is_over_length(&Some(String::from("abcd")), 4));
    assert!(!is_over_length(&Some(String::from("abc")), 4));
    assert!(!is_over_length(&None, 0));
    // Lengths count UTF-8 bytes, not characters.
    assert!(is_over_length(&Some(String::from("\u{e9}")), 2));
}

#[test]
fn join_with_separator() {
    let items = vec![String::from("a"), String::from("b"), String::from("c")];
    assert_eq!(join_iter(", ", &items), "a, b, c");
    assert_eq!(join_iter(", ", &vec![String::from("one")]), "one");
    assert_eq!(join_iter(", ", &Vec::new()), "");
}

#[test]
fn bool_helpers() {
    assert!(default_true());
    assert!(is_false(&false));
    assert!(!is_false(&true));
    assert_eq!(unwrap_infallible(Ok::<u8, std::convert::Infallible>(9)), 9);
}

#[test]
fn random_image_id_shape() {
    let id = get_new_image_id();
    assert_eq!(id.chars().count(), 5);
    assert!(id.chars().all(|c| c.is_ascii_alphabetic()));
}

#[test]
fn sanitised_name_is_never_empty() {
    assert_eq!(sanitise_filename(""), "_");
    assert!(!sanitise_filename("a/../b").contains('/'));
}

#[test]
fn audit_entry_attribution() {
    let data = AuditLogData::Upload(Upload { files: Vec::new(), api: false });
    let entry = AuditLogEntry::new(data).with_account(12);
    assert_eq!(entry.account_id, Some(12));
    assert_eq!(entry.created_at(), entry.id);
    let placeholder = FileOperation::placeholder();
    assert_eq!(placeholder.name, "");
    assert!(!placeholder.failed);
    let mut files = DeleteFiles::new();
    files.add_file(String::from("x.png"), true);
    assert_eq!(files.files.len(), 1);
    assert!(files.files[0].failed);
}

#[test]
fn audit_query_filters() {
    let all = AuditLogQuery { account_id: Some(3), before: Some(10), after: Some(1) };
    let (sql, params) = all.to_sql();
    assert_eq!(
        sql,
        "audit_log.account_id = ? AND audit_log.id < ? AND audit_log.id > ?"
    );
    assert_eq!(params, vec![3, 10, 1]);

    let none = AuditLogQuery { account_id: None, before: None, after: None };
    let (sql, params) = none.to_sql();
    assert_eq!(sql, "");
    assert!(params.is_empty());

    let one = AuditLogQuery { account_id: None, before: Some(5), after: None };
    let (sql, params) = one.to_sql();
    assert_eq!(sql, "audit_log.id < ?");
    assert_eq!(params, vec![5]);
}

#[test]
fn logs_query_windows() {
    const DAY: i64 = 86_400_000;
    let now = 3 * DAY + 5_000_000;
    let days = LogsQuery { begin: None, end: None, days: Some(2) };
    assert_eq!(days.limit(now), (now - 2 * DAY, now));
    let today = LogsQuery { begin: None, end: None, days: None };
    assert_eq!(today.limit(now), (3 * DAY, 3 * DAY + 86_340_000));
    let until = LogsQuery { begin: None, end: Some(9), days: None };
    assert_eq!(until.limit(now), (0, 9));
    let from = LogsQuery { begin: Some(4), end: None, days: None };
    assert_eq!(from.limit(now), (4, i64::MAX));
    let both = LogsQuery { begin: Some(4), end: Some(9), days: None };
    assert_eq!(both.limit(now), (4, 9));
}

#[test]
fn action_parsing() {
    assert_eq!(parse_authentication_action("login"), Some(AuthenticationAction::Login));
    assert_eq!(parse_authentication_action("register"), Some(AuthenticationAction::Register));
    assert_eq!(parse_authentication_action("Login"), None);
    assert_eq!(parse_authentication_action(""), None);
}

#[test]
fn credential_validation() {
    assert!(validate_credentials("user", "password1").is_ok());
    assert_eq!(
        validate_credentials("Bad Name", "password1"),
        Err(CredentialError::InvalidUsername)
    );
    assert_eq!(
        validate_credentials("user", "short"),
        Err(CredentialError::BadPasswordLength)
    );
    assert_eq!(
        validate_credentials("user", &"x".repeat(129)),
        Err(CredentialError::BadPasswordLength)
    );
    assert!(password_length_ok(&"x".repeat(8)));
    assert!(!password_length_ok(&"x".repeat(7)));
    // Password lengths count UTF-8 bytes: four 2-byte characters pass.
    assert!(password_length_ok(&"\u{e9}".repeat(4)));
    assert!(!password_length_ok(&"\u{e9}".repeat(3)));
    // 65 2-byte characters exceed the 128-byte cap.
    assert!(!password_length_ok(&"\u{e9}".repeat(65)));
}

#[test]
fn registration_precheck() {
    assert!(register_precheck(false, "user", "password1").is_ok());
    assert_eq!(
        register_precheck(true, "user", "password1"),
        Err(RegisterError::AlreadyRegistered)
    );
    assert_eq!(
        register_precheck(false, "u", "password1"),
        Err(RegisterError::BadCredentials(CredentialError::InvalidUsername))
    );
}

#[test]
fn authentication_outcome() {
    assert_eq!(authenticate_decision(true, true), AuthDecision::Success);
    assert_eq!(authenticate_decision(true, false), AuthDecision::IncorrectLogin);
    assert_eq!(authenticate_decision(false, true), AuthDecision::IncorrectLogin);
}

fn session(id: &str, created_at: u64, api_key: bool) -> Session {
    Session {
        id: id.to_string(),
        account_id: 1,
        created_at,
        description: None,
        api_key,
    }
}

#[test]
fn sessions_sorted_newest_first() {
    let sessions = vec![session("a", 5, false), session("b", 9, false), session("c", 7, false)];
    let sorted = sort_sessions_desc(sessions);
    let times: Vec<u64> = sorted.iter().map(|s| s.created_at).collect();
    assert_eq!(times, vec![9, 7, 5]);
    let ids: Vec<&str> = sorted.iter().map(|s| s.id.as_str()).collect();
    assert_eq!(ids, vec!["b", "c", "a"]);
}

#[test]
fn sessions_partitioned() {
    let sessions = vec![
        session("current", 1, false),
        session("key", 2, true),
        session("other", 3, false),
    ];
    let parts = partition_sessions(sessions, "current");
    assert_eq!(parts.current.map(|s| s.id), Some(String::from("current")));
    assert_eq!(parts.api_key, Some(String::from("key")));
    assert_eq!(parts.rest.len(), 1);
    assert_eq!(parts.rest[0].id, "other");
}

#[test]
fn filename_screening() {
    let ok = screen_file("photo.png").expect("png accepted");
    assert_eq!(ok.name, "photo");
    assert_eq!(ok.ext, "png");
    let dotted = screen_file("archive.tar.gif").expect("gif accepted");
    assert_eq!(dotted.name, "archive");
    assert_eq!(dotted.ext, "gif");
    assert!(screen_file("document.pdf").is_none());
    assert!(screen_file("noextension").is_none());
    assert!(screen_file(".png").is_none());
}

#[test]
fn filename_parts() {
    assert_eq!(file_stem("a.b.c"), "a");
    assert_eq!(file_stem("plain"), "plain");
    assert_eq!(file_extension("a.b.c"), Some(String::from("c")));
    assert_eq!(file_extension("plain"), None);
    assert_eq!(normalize_image_id("abc12.png"), "abc12");
    assert_eq!(normalize_image_id("abc12"), "abc12");
}

#[test]
fn gallery_links() {
    assert_eq!(gallery_link("abc12", "png"), "/gallery/abc12.png");
    let renamed = collision_rename("abc12");
    assert_eq!(renamed.chars().count(), 11);
    assert!(renamed.starts_with("abc12-"));
    assert!(renamed.chars().skip(6).all(|c| c.is_ascii_alphabetic()));
}

#[test]
fn upload_summary_counts() {
    let ops = vec![
        FileOperation { name: String::from("a"), failed: false },
        FileOperation { name: String::from("b"), failed: true },
        FileOperation { name: String::from("c"), failed: false },
    ];
    let result = upload_result(&ops, 1, vec![String::from("/gallery/a.png")]);
    assert_eq!(result.total, 3);
    assert_eq!(result.errors, 1);
    assert_eq!(result.skipped, 1);
    assert!(!result.is_success());
    assert!(!result.is_error());
    assert_eq!(result.successful(), 2);

    let clean = upload_result(&ops[..1].to_vec(), 0, Vec::new());
    assert!(clean.is_success());

    let delete = DeleteResult { file: String::from("a"), failed: false };
    assert!(delete.is_success());
    assert!(!delete.is_error());
}

#[test]
fn bulk_delete_counts() {
    let results = vec![
        (String::from("a.png"), false),
        (String::from("b.png"), true),
        (String::from("c.png"), false),
    ];
    let (response, audit) = bulk_delete_summary(&results);
    assert_eq!(response.success, 2);
    assert_eq!(response.failed, 1);
    assert_eq!(audit.files.len(), 3);
    assert_eq!(audit.files[1].name, "b.png");
    assert!(audit.files[1].failed);
}

fn entry(id: &str, uploader: Option<i64>) -> ImageEntry {
    ImageEntry {
        id: id.to_string(),
        mimetype: String::from("image/png"),
        image_data: vec![0],
        uploaded_at: 0,
        uploader_id: uploader,
    }
}

#[test]
fn user_gallery_filtered() {
    let entries = vec![entry("a", Some(1)), entry("b", Some(2)), entry("c", Some(1))];
    let files = get_file_images(&entries, 1);
    assert_eq!(files.len(), 2);
    assert_eq!(files[0].url, "/gallery/a.png");
    assert_eq!(files[1].url, "/gallery/c.png");
}

#[test]
fn delete_requires_ownership() {
    assert!(delete_image_decision(None, 1).is_err());
    assert!(delete_image_decision(Some(entry("a", Some(2))), 1).is_err());
    assert!(delete_image_decision(Some(entry("a", None)), 1).is_err());
    let deleted = delete_image_decision(Some(entry("a", Some(1))), 1).expect("owner may delete");
    assert_eq!(deleted.id, "a");
}

#[test]
fn audit_full_query_text() {
    let base = "SELECT audit_log.*, account.name AS account_name FROM audit_log LEFT JOIN account ON account.id = audit_log.account_id ";
    let tail = " ORDER BY audit_log.id DESC LIMIT 100";

    let by_account = AuditLogQuery { account_id: Some(3), before: None, after: None };
    let (sql, params) = by_account.full_query();
    assert_eq!(sql, format!("{base}WHERE audit_log.account_id = ?{tail}"));
    assert_eq!(params, vec![3]);

    let unfiltered = AuditLogQuery { account_id: None, before: None, after: None };
    let (sql, params) = unfiltered.full_query();
    assert_eq!(sql, format!("{base}{tail}"));
    assert!(params.is_empty());
}

#[test]
fn service_commands() {
    let start_snekbox = service_command("Snekbox API", "start").expect("known service");
    assert_eq!(start_snekbox.program, "docker");
    assert_eq!(start_snekbox.args, vec!["start", "percy-snekbox"]);
    let stop_db = service_command("Database", "stop").expect("known service");
    assert_eq!(stop_db.args, vec!["stop", "percy-db"]);
    let start_lavalink = service_command("Lavalink", "start").expect("known service");
    assert_eq!(start_lavalink.program, "screen");
    assert_eq!(start_lavalink.args.len(), 5);
    let stop_lavalink = service_command("Lavalink", "stop").expect("known service");
    assert_eq!(stop_lavalink.args, vec!["-S", "lavalink", "-X", "quit"]);
    assert!(service_command("Lavalink", "restart").is_none());
    assert!(service_command("Unknown", "start").is_none());
}

#[test]
fn service_status_list() {
    let probe = |running: bool, uptime: Option<&str>| ServiceProbe {
        running,
        uptime: uptime.map(|u| u.to_string()),
    };
    let list = get_servicestatus(
        probe(true, Some("2 days")),
        probe(false, None),
        probe(true, Some("1 hour")),
        probe(false, None),
    );
    assert_eq!(list.len(), 4);
    assert_eq!(list[0].name, "Lavalink");
    assert!(list[0].running);
    assert_eq!(list[0].uptime, "2 days");
    assert_eq!(list[1].name, "Snekbox API");
    assert_eq!(list[1].uptime, "N/A");
    assert_eq!(list[2].name, "Database");
    assert_eq!(list[3].name, "Percy-v2 Bot");
}
