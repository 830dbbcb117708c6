use tgfs::client_factory::{ClientAction, ClientEvent, ClientFactory, ClientState, SaveOutcome};
use tgfs::node::{datetime_into_timespec, DateTimeUtc, FileAttr, FileType, Model, NodeKind, Timespec};
use tgfs::requests::{
    getattr_query, getattr_reply, lookup_query, lookup_reply, read_reply, readdir_after_directory,
    readdir_directory_query, readdir_listing, ttl, AttrReply, EntryReply, NodeQuery, QueryError,
    ReaddirStep,
};
use tgfs::prompt::trim_answer;
use tgfs::schema::{CREATE_NODE_TABLE, DROP_NODE_TABLE};
use tgfs::session::{ListedEntry, SessionLookup, SessionsManager};
use tgfs::settings::{mount_options, Settings, FS_MOUNT_POINT, SESSIONS_FOLDER};
use tgfs::sign_in::{
    hint_message, password_prompt, step, PasswordOutcome, SignInAction, SignInEvent, SignInOutcome,
    SignInState,
};

fn time(secs: i64, nanos: u32) -> DateTimeUtc {
    DateTimeUtc { secs, nanos }
}

fn node(inode: i64, parent_inode: Option<i64>, name: &str, kind: NodeKind) -> Model {
    Model {
        inode,
        parent_inode,
        name: name.to_string(),
        kind,
        size: 1234,
        blocks: 3,
        atime: time(1_700_000_000, 5),
        mtime: time(1_700_000_001, 6),
        ctime: time(1_700_000_002, 7),
        crtime: time(1_700_000_003, 8),
        perm: 0o644,
        nlink: 1,
        uid: 1000,
        gid: 100,
        rdev: 0,
        flags: 0,
    }
}

fn perform(s: SignInState, e: SignInEvent) -> (SignInState, SignInAction) {
    assert!(s.accepts(&e));
    match step(s, e) {
        Ok(stepped) => stepped,
        Err(s) => panic!("refused in {:?}", s),
    }
}

fn prompt_text(a: &SignInAction) -> String {
    match a {
        SignInAction::Prompt(m) => m.clone(),
        other => panic!("expected a prompt, got {:?}", other),
    }
}

fn print_text(a: &SignInAction) -> String {
    match a {
        SignInAction::Print(m) => m.clone(),
        other => panic!("expected a print, got {:?}", other),
    }
}

#[test]
fn timespec_keeps_seconds_and_nanoseconds() {
    let t = datetime_into_timespec(time(-5, 999_999_999));
    assert_eq!(t, Timespec { sec: -5, nsec: 999_999_999 });
    // a leap second's nanoseconds still fit
    let t = datetime_into_timespec(time(0, 1_999_999_999));
    assert_eq!(t.nsec, 1_999_999_999);
}

#[test]
fn file_attr_of_a_file() {
    let m = node(42, Some(1), "notes.txt", NodeKind::File);
    assert_eq!(m.get_fuse_kind(), FileType::RegularFile);
    let attr = m.into_file_attr();
    assert_eq!(attr.ino, 42);
    assert_eq!(attr.size, 1234);
    assert_eq!(attr.blocks, 3);
    assert_eq!(attr.atime, Timespec { sec: 1_700_000_000, nsec: 5 });
    assert_eq!(attr.mtime, Timespec { sec: 1_700_000_001, nsec: 6 });
    assert_eq!(attr.ctime, Timespec { sec: 1_700_000_002, nsec: 7 });
    assert_eq!(attr.crtime, Timespec { sec: 1_700_000_003, nsec: 8 });
    assert_eq!(attr.kind, FileType::RegularFile);
    assert_eq!(attr.perm, 0o644);
    assert_eq!(attr.nlink, 1);
    assert_eq!(attr.uid, 1000);
    assert_eq!(attr.gid, 100);
    assert_eq!(attr.rdev, 0);
    assert_eq!(attr.flags, 0);
}

#[test]
fn file_attr_casts_negative_values() {
    let mut m = node(-1, None, "odd", NodeKind::Directory);
    m.size = -2;
    m.perm = -1;
    m.uid = -1;
    let attr: FileAttr = m.into();
    assert_eq!(attr.ino, u64::MAX);
    assert_eq!(attr.size, u64::MAX - 1);
    assert_eq!(attr.perm, u16::MAX);
    assert_eq!(attr.uid, u32::MAX);
    assert_eq!(attr.kind, FileType::Directory);
}

#[test]
fn lookup_found_and_missing() {
    match lookup_query(7, "a.txt".to_string()) {
        NodeQuery::ChildNamed { parent_inode, name } => {
            assert_eq!(parent_inode, 7);
            assert_eq!(name, "a.txt");
        }
        other => panic!("unexpected query {:?}", other),
    }
    let m = node(8, Some(7), "a.txt", NodeKind::File);
    match lookup_reply(Ok(m.clone())) {
        EntryReply::Entry { ttl: t, attr, generation } => {
            assert_eq!(t, Timespec { sec: 1, nsec: 0 });
            assert_eq!(attr, m.into_file_attr());
            assert_eq!(generation, 0);
        }
        other => panic!("unexpected reply {:?}", other),
    }
    assert!(matches!(lookup_reply(Err(QueryError::NotFound)), EntryReply::Error(2)));
    assert!(matches!(
        lookup_reply(Err(QueryError::Failed("disk I/O error".to_string()))),
        EntryReply::Error(2)
    ));
    assert_eq!(libc::ENOENT, 2);
}

#[test]
fn getattr_found_and_missing() {
    assert!(matches!(getattr_query(9), NodeQuery::ByInode { inode: 9 }));
    assert!(matches!(getattr_query(u64::MAX), NodeQuery::ByInode { inode: -1 }));
    let m = node(9, Some(1), "b", NodeKind::Directory);
    match getattr_reply(Ok(m.clone())) {
        AttrReply::Attr { ttl: t, attr } => {
            assert_eq!(t, ttl());
            assert_eq!(attr.kind, FileType::Directory);
            assert_eq!(attr.ino, 9);
        }
        other => panic!("unexpected reply {:?}", other),
    }
    assert!(matches!(getattr_reply(Err(QueryError::NotFound)), AttrReply::Error(2)));
    assert_eq!(read_reply(), 2);
}

#[test]
fn readdir_children_query_skips_dot_entries() {
    assert!(matches!(readdir_directory_query(5), NodeQuery::DirectoryByInode { inode: 5 }));
    let d = node(5, Some(1), "dir", NodeKind::Directory);
    for (offset, skip) in [(0i64, 0i64), (1, 0), (2, 0), (3, 1), (10, 8), (-7, 0)] {
        match readdir_after_directory(&Ok(d.clone()), offset) {
            ReaddirStep::LoadChildren(NodeQuery::ChildrenOf { parent_inode, skip: s }) => {
                assert_eq!(parent_inode, 5);
                assert_eq!(s, skip, "offset {}", offset);
            }
            other => panic!("unexpected step {:?}", other),
        }
    }
    assert!(matches!(
        readdir_after_directory(&Err(QueryError::NotFound), 0),
        ReaddirStep::Error(2)
    ));
}

#[test]
fn readdir_lists_dot_entries_then_children() {
    let d = node(5, Some(1), "dir", NodeKind::Directory);
    let children = vec![
        node(6, Some(5), "x", NodeKind::File),
        node(7, Some(5), "y", NodeKind::Directory),
    ];
    let r = readdir_listing(&d, Ok(children.clone()), 0);
    let got: Vec<(u64, i64, FileType, String)> =
        r.iter().map(|e| (e.ino, e.offset, e.kind, e.name.clone())).collect();
    assert_eq!(
        got,
        vec![
            (5, 1, FileType::Directory, ".".to_string()),
            (1, 2, FileType::Directory, "..".to_string()),
            (6, 3, FileType::RegularFile, "x".to_string()),
            (7, 4, FileType::Directory, "y".to_string()),
        ]
    );
    // from offset 3, the entries at positions 3 and beyond of the list built
    let r = readdir_listing(&d, Ok(children.clone()), 3);
    assert_eq!(r.len(), 1);
    assert_eq!((r[0].ino, r[0].offset, r[0].name.as_str()), (7, 4, "y"));
    // past the end, and with a negative offset: nothing
    assert!(readdir_listing(&d, Ok(children.clone()), 4).is_empty());
    assert!(readdir_listing(&d, Ok(children), -1).is_empty());
}

#[test]
fn readdir_of_root_and_failed_children_query() {
    let root = node(1, None, "", NodeKind::Directory);
    let r = readdir_listing(&root, Err(QueryError::Failed("locked".to_string())), 0);
    assert_eq!(r.len(), 2);
    assert_eq!((r[0].ino, r[0].offset, r[0].name.as_str()), (1, 1, "."));
    assert_eq!((r[1].ino, r[1].offset, r[1].name.as_str()), (1, 2, ".."));
    let r = readdir_listing(&root, Err(QueryError::NotFound), 1);
    assert_eq!(r.len(), 1);
    assert_eq!(r[0].name, "..");
}

#[test]
fn config_source_names() {
    assert_eq!(Settings::config_source(None), "config/dev");
    assert_eq!(Settings::config_source(Some("prod".to_string())), "config/prod");
    assert_eq!(Settings::config_source(Some(String::new())), "config/");
}

#[test]
fn fixed_settings() {
    assert_eq!(mount_options(), vec!["-o", "ro", "-o", "fsname=hello"]);
    assert_eq!(SESSIONS_FOLDER, "./sessions/");
    assert_eq!(FS_MOUNT_POINT, "./test-fs/");
    assert!(CREATE_NODE_TABLE.contains("create table if not exists node"));
    assert_eq!(DROP_NODE_TABLE, "drop table node");
}

fn is_new_session_path(folder: &str, p: &str) -> bool {
    let rest = match p.strip_prefix(folder) {
        Some(r) => r,
        None => return false,
    };
    let rest = if folder.is_empty() || folder.ends_with('/') {
        rest
    } else {
        match rest.strip_prefix('/') {
            Some(r) => r,
            None => return false,
        }
    };
    match rest.strip_prefix("session-").and_then(|r| r.strip_suffix(".session")) {
        Some(token) => token.len() == 7 && token.chars().all(|c| c.is_ascii_alphanumeric()),
        None => false,
    }
}

#[test]
fn session_paths() {
    let m = SessionsManager::new("./sessions/".to_string(), vec![]);
    assert_eq!(m.session_path("abc1234"), "./sessions/session-abc1234.session");
    let m2 = SessionsManager::new("sessions".to_string(), vec![]);
    assert_eq!(m2.session_path("XYZ0000"), "sessions/session-XYZ0000.session");
    let m3 = SessionsManager::new(String::new(), vec![]);
    assert_eq!(m3.session_path("a"), "session-a.session");
    let mut seen = std::collections::HashSet::new();
    for _ in 0..20 {
        let p = m.new_session_path();
        assert!(is_new_session_path("./sessions/", &p), "{}", p);
        seen.insert(p);
    }
    // the token is drawn at random, not handed back unchanged
    assert!(seen.len() > 1);
    let p = m2.new_session_path();
    assert!(is_new_session_path("sessions", &p), "{}", p);
}

#[test]
fn session_lookup_steps() {
    let mut m = SessionsManager::new(
        "./sessions/".to_string(),
        vec![
            ListedEntry::Present("./sessions/old.session".to_string()),
            ListedEntry::Unreadable,
            ListedEntry::Present("./sessions/older.session".to_string()),
        ],
    );
    match m.start_lookup() {
        SessionLookup::Use(p) => assert_eq!(p, "./sessions/old.session"),
        other => panic!("unexpected {:?}", other),
    }
    match m.start_lookup() {
        SessionLookup::Probe(p) => assert!(is_new_session_path("./sessions/", &p)),
        other => panic!("unexpected {:?}", other),
    }
    match m.start_lookup() {
        SessionLookup::Use(p) => assert_eq!(p, "./sessions/older.session"),
        other => panic!("unexpected {:?}", other),
    }
    assert_eq!(m.next_entry, 3);
    for _ in 0..3 {
        match m.start_lookup() {
            SessionLookup::Probe(p) => assert!(is_new_session_path("./sessions/", &p)),
            other => panic!("unexpected {:?}", other),
        }
    }
    assert_eq!(m.next_entry, 3);
    match m.after_probe("./sessions/session-aaaaaaa.session".to_string(), false) {
        SessionLookup::Use(p) => assert_eq!(p, "./sessions/session-aaaaaaa.session"),
        other => panic!("unexpected {:?}", other),
    }
    match m.after_probe("./sessions/session-aaaaaaa.session".to_string(), true) {
        SessionLookup::Probe(p) => assert!(is_new_session_path("./sessions/", &p)),
        other => panic!("unexpected {:?}", other),
    }
}

#[test]
fn prompt_answers_are_trimmed() {
    assert_eq!(trim_answer("  +15550100\n"), "+15550100");
    assert_eq!(trim_answer("\t12345\r\n"), "12345");
    assert_eq!(trim_answer("two words \n"), "two words");
    assert_eq!(trim_answer("\u{3000}\u{a0}x\u{2028}"), "x");
    assert_eq!(trim_answer(" \n\t"), "");
    assert_eq!(trim_answer(""), "");
    assert_eq!(trim_answer("inner\u{85}kept"), "inner\u{85}kept");
    for line in ["  a b  ", "\u{2000}\u{200a}z\u{205f}", "\u{b}\u{c}q\u{1680}", "x\u{200b}"] {
        assert_eq!(trim_answer(line), line.trim());
    }
}

#[test]
fn hint_and_password_prompt() {
    assert_eq!(hint_message(&Some("my cat".to_string())), "hint: \"my cat\"");
    assert_eq!(hint_message(&None), "no hint");
    assert_eq!(
        password_prompt(&"no hint".to_string()),
        "Enter the password (no hint): "
    );
}

#[test]
fn sign_in_without_password() {
    let (s, a) = perform(SignInState::new(), SignInEvent::Begin);
    assert_eq!(prompt_text(&a), "Enter your phone number (international format): ");
    let (s, a) = perform(s, SignInEvent::Line("+15550100".to_string()));
    assert!(matches!(a, SignInAction::RequestLoginCode(ref p) if p == "+15550100"));
    let (s, a) = perform(s, SignInEvent::LoginCodeSent);
    assert_eq!(prompt_text(&a), "Enter the code you received: ");
    let (s, a) = perform(s, SignInEvent::Line("12345".to_string()));
    assert!(matches!(a, SignInAction::SignIn(ref c) if c == "12345"));
    let (s, a) = perform(s, SignInEvent::SignInDone(SignInOutcome::SignedIn));
    assert_eq!(print_text(&a), "Singed in!");
    let (s, a) = perform(s, SignInEvent::Printed);
    assert!(matches!(a, SignInAction::Finish));
    assert!(matches!(s, SignInState::Finished));
    assert!(!s.accepts(&SignInEvent::Printed));
}

fn at_password_prompt(hint: Option<&str>) -> SignInState {
    let (s, _) = perform(SignInState::new(), SignInEvent::Begin);
    let (s, _) = perform(s, SignInEvent::Line("+1".to_string()));
    let (s, _) = perform(s, SignInEvent::LoginCodeSent);
    let (s, _) = perform(s, SignInEvent::Line("1".to_string()));
    let (s, a) = perform(
        s,
        SignInEvent::SignInDone(SignInOutcome::PasswordRequired { hint: hint.map(|h| h.to_string()) }),
    );
    let expected = match hint {
        Some(h) => format!("Enter the password (hint: \"{}\"): ", h),
        None => "Enter the password (no hint): ".to_string(),
    };
    assert_eq!(prompt_text(&a), expected);
    s
}

#[test]
fn sign_in_with_matching_password() {
    let s = at_password_prompt(Some("pet"));
    let (s, a) = perform(s, SignInEvent::Line("secret".to_string()));
    assert!(matches!(a, SignInAction::CheckPassword(ref p) if p == "secret"));
    let (s, a) = perform(s, SignInEvent::PasswordChecked(PasswordOutcome::Matches));
    assert_eq!(print_text(&a), "The password matches!");
    let (s, a) = perform(s, SignInEvent::Printed);
    assert_eq!(print_text(&a), "Singed in!");
    let (_, a) = perform(s, SignInEvent::Printed);
    assert!(matches!(a, SignInAction::Finish));
}

#[test]
fn sign_in_gives_up_after_four_passwords() {
    let mut s = at_password_prompt(None);
    let mut checks = 0;
    loop {
        let (s2, a) = perform(s, SignInEvent::Line("wrong".to_string()));
        assert!(matches!(a, SignInAction::CheckPassword(_)));
        checks += 1;
        // the third check fails for another reason, which is reported
        let (s3, a) = if checks == 3 {
            let (s3, a) = perform(
                s2,
                SignInEvent::PasswordChecked(PasswordOutcome::Failed("flood wait".to_string())),
            );
            assert_eq!(print_text(&a), "Error checking the password, flood wait");
            perform(s3, SignInEvent::Printed)
        } else {
            perform(s2, SignInEvent::PasswordChecked(PasswordOutcome::Invalid))
        };
        match a {
            SignInAction::Prompt(ref m) => {
                assert_eq!(m, "Enter the password (no hint): ");
                s = s3;
            }
            SignInAction::Print(ref m) => {
                assert_eq!(m, "Singed in!");
                let (_, a) = perform(s3, SignInEvent::Printed);
                assert!(matches!(a, SignInAction::Finish));
                break;
            }
            other => panic!("unexpected {:?}", other),
        }
    }
    assert_eq!(checks, 4);
}

#[test]
fn sign_in_aborts_on_unexpected_error() {
    let (s, _) = perform(SignInState::new(), SignInEvent::Begin);
    let (s, _) = perform(s, SignInEvent::Line("+1".to_string()));
    let (s, _) = perform(s, SignInEvent::LoginCodeSent);
    let (s, _) = perform(s, SignInEvent::Line("1".to_string()));
    let (s, a) = perform(
        s,
        SignInEvent::SignInDone(SignInOutcome::Failed("sign in error: invalid code".to_string())),
    );
    assert!(matches!(a, SignInAction::Abort(ref m) if m == "sign in error: invalid code"));
    assert!(matches!(s, SignInState::Aborted));
    assert!(!s.accepts(&SignInEvent::Printed));
}

#[test]
fn sign_in_refuses_unexpected_events() {
    let s = SignInState::new();
    assert!(!s.accepts(&SignInEvent::Printed));
    assert!(!s.accepts(&SignInEvent::Line("x".to_string())));
    assert!(!s.accepts(&SignInEvent::StepFailed));
    match step(s, SignInEvent::Printed) {
        Err(SignInState::Start) => {}
        other => panic!("unexpected {:?}", other),
    }
}

#[test]
fn sign_in_ends_on_a_failed_action() {
    // the phone prompt fails
    let (s, _) = perform(SignInState::new(), SignInEvent::Begin);
    let (s, a) = perform(s, SignInEvent::StepFailed);
    assert!(matches!(a, SignInAction::Fail));
    assert!(matches!(s, SignInState::Failed));
    assert!(!s.accepts(&SignInEvent::Printed));
    // requesting the login code fails
    let (s, _) = perform(SignInState::new(), SignInEvent::Begin);
    let (s, _) = perform(s, SignInEvent::Line("+1".to_string()));
    let (_, a) = perform(s, SignInEvent::StepFailed);
    assert!(matches!(a, SignInAction::Fail));
    // a password prompt fails
    let s = at_password_prompt(None);
    let (_, a) = perform(s, SignInEvent::StepFailed);
    assert!(matches!(a, SignInAction::Fail));
    // signing in and checking a password report their errors as outcomes
    let (s, _) = perform(SignInState::new(), SignInEvent::Begin);
    let (s, _) = perform(s, SignInEvent::Line("+1".to_string()));
    let (s, _) = perform(s, SignInEvent::LoginCodeSent);
    let (s, _) = perform(s, SignInEvent::Line("1".to_string()));
    assert!(!s.accepts(&SignInEvent::StepFailed));
}

fn client_step(f: &ClientFactory, s: ClientState, e: ClientEvent) -> (ClientState, ClientAction) {
    assert!(ClientFactory::accepts(&s, &e));
    match f.make_client_step(s, e) {
        Ok(stepped) => stepped,
        Err(s) => panic!("refused in {:?}", s),
    }
}

#[test]
fn client_factory_keeps_credentials() {
    let f = ClientFactory::new("./sessions/".to_string(), vec![], 12345, "SECRET-REDACTED".to_string());
    assert_eq!(f.api_id, 12345);
    assert_eq!(f.api_hash, "SECRET-REDACTED");
    assert_eq!(f.sessions_manager.sessions_folder, "./sessions/");
    assert!(f.sessions_manager.present_sessions_files.is_empty());
    assert_eq!(f.sessions_manager.next_entry, 0);
}

#[test]
fn make_client_when_authorized() {
    let f = ClientFactory::new("./sessions/".to_string(), vec![], 7, "hash".to_string());
    let (s, a) = client_step(&f, ClientState::Start, ClientEvent::Begin);
    assert!(matches!(a, ClientAction::LocateSession));
    let (s, a) = client_step(&f, s, ClientEvent::SessionLocated("./sessions/s.session".to_string()));
    match a {
        ClientAction::Connect(p) => {
            assert_eq!(p.session_file, "./sessions/s.session");
            assert_eq!(p.api_id, 7);
            assert_eq!(p.api_hash, "hash");
            assert!(p.catch_up);
        }
        other => panic!("unexpected {:?}", other),
    }
    let (s, a) = client_step(&f, s, ClientEvent::Connected);
    assert!(matches!(a, ClientAction::CheckAuthorization));
    let (s, a) = client_step(&f, s, ClientEvent::Authorized(true));
    assert!(matches!(a, ClientAction::Finish));
    assert!(matches!(s, ClientState::Done));
}

#[test]
fn make_client_signs_in_and_saves() {
    let f = ClientFactory::new("./sessions/".to_string(), vec![], 7, "hash".to_string());
    let (s, _) = client_step(&f, ClientState::Start, ClientEvent::Begin);
    let (s, _) = client_step(&f, s, ClientEvent::SessionLocated("f.session".to_string()));
    let (s, _) = client_step(&f, s, ClientEvent::Connected);
    let (s, a) = client_step(&f, s, ClientEvent::Authorized(false));
    assert!(matches!(a, ClientAction::SignIn));
    let (s, a) = client_step(&f, s, ClientEvent::SignedIn);
    assert!(matches!(a, ClientAction::SaveSession(ref p) if p == "f.session"));
    let (s2, a) = client_step(&f, s.clone(), ClientEvent::SessionSaved(SaveOutcome::Saved));
    assert!(matches!(a, ClientAction::Finish));
    assert!(matches!(s2, ClientState::Done));
    let (s3, a) = client_step(
        &f,
        s,
        ClientEvent::SessionSaved(SaveOutcome::Failed("Permission denied (os error 13)".to_string())),
    );
    assert!(
        matches!(a, ClientAction::Print(ref m) if m == "NOTE: failed to save the session: Permission denied (os error 13)")
    );
    let (_, a) = client_step(&f, s3, ClientEvent::Printed);
    assert!(matches!(a, ClientAction::Finish));
}

fn listed(r: &[tgfs::requests::DirEntry]) -> Vec<(u64, i64, FileType, String)> {
    r.iter().map(|e| (e.ino, e.offset, e.kind, e.name.clone())).collect()
}

fn children_skip(d: &Model, offset: i64) -> i64 {
    match readdir_after_directory(&Ok(d.clone()), offset) {
        ReaddirStep::LoadChildren(NodeQuery::ChildrenOf { skip, .. }) => skip,
        other => panic!("unexpected step {:?}", other),
    }
}

#[test]
fn readdir_resumes_while_no_child_is_skipped() {
    let d = node(5, Some(1), "dir", NodeKind::Directory);
    let all = vec![
        node(6, Some(5), "a", NodeKind::File),
        node(7, Some(5), "b", NodeKind::File),
        node(8, Some(5), "c", NodeKind::File),
    ];
    let first = listed(&readdir_listing(&d, Ok(all.clone()), 0));
    assert_eq!(first.len(), 5);
    for offset in 0..=2i64 {
        let skip = children_skip(&d, offset);
        assert_eq!(skip, 0);
        let loaded: Vec<Model> = all.iter().skip(skip as usize).cloned().collect();
        let resumed = listed(&readdir_listing(&d, Ok(loaded), offset));
        assert_eq!(resumed, first[offset as usize..].to_vec());
    }
}

#[test]
fn readdir_from_offset_three_skips_children_twice() {
    // the children query already leaves out `offset - 2` children, and the
    // listing then leaves out `offset` entries of what is left
    let d = node(5, Some(1), "dir", NodeKind::Directory);
    let all = vec![
        node(6, Some(5), "a", NodeKind::File),
        node(7, Some(5), "b", NodeKind::File),
        node(8, Some(5), "c", NodeKind::File),
    ];
    let skip = children_skip(&d, 3);
    assert_eq!(skip, 1);
    let loaded: Vec<Model> = all.iter().skip(skip as usize).cloned().collect();
    let resumed = listed(&readdir_listing(&d, Ok(loaded), 3));
    assert_eq!(resumed, vec![(8, 4, FileType::RegularFile, "c".to_string())]);
}

#[test]
fn lookup_and_getattr_report_the_same_attributes() {
    let m = node(11, Some(5), "z", NodeKind::File);
    let from_lookup = match lookup_reply(Ok(m.clone())) {
        EntryReply::Entry { ttl, attr, .. } => (ttl, attr),
        other => panic!("unexpected {:?}", other),
    };
    let from_getattr = match getattr_reply(Ok(m)) {
        AttrReply::Attr { ttl, attr } => (ttl, attr),
        other => panic!("unexpected {:?}", other),
    };
    assert_eq!(from_lookup, from_getattr);
}

#[test]
fn readdir_of_missing_directory_at_extreme_offsets() {
    for offset in [i64::MIN, i64::MIN + 1] {
        assert!(matches!(
            readdir_after_directory(&Err(QueryError::NotFound), offset),
            ReaddirStep::Error(2)
        ));
    }
}

#[test]
fn make_client_ends_on_a_failed_action() {
    let f = ClientFactory::new("./sessions/".to_string(), vec![], 7, "hash".to_string());
    let (s, _) = client_step(&f, ClientState::Start, ClientEvent::Begin);
    assert!(!ClientFactory::accepts(&s, &ClientEvent::StepFailed));
    let (s, _) = client_step(&f, s, ClientEvent::SessionLocated("f.session".to_string()));
    let (failed, a) = client_step(&f, s.clone(), ClientEvent::StepFailed);
    assert!(matches!(a, ClientAction::Fail));
    assert!(matches!(failed, ClientState::Failed));
    assert!(!ClientFactory::accepts(&failed, &ClientEvent::Printed));
    let (s, _) = client_step(&f, s, ClientEvent::Connected);
    let (_, a) = client_step(&f, s.clone(), ClientEvent::StepFailed);
    assert!(matches!(a, ClientAction::Fail));
    let (s, _) = client_step(&f, s, ClientEvent::Authorized(false));
    let (_, a) = client_step(&f, s.clone(), ClientEvent::StepFailed);
    assert!(matches!(a, ClientAction::Fail));
    let (s, _) = client_step(&f, s, ClientEvent::SignedIn);
    assert!(!ClientFactory::accepts(&s, &ClientEvent::StepFailed));
    match f.make_client_step(s, ClientEvent::Printed) {
        Err(ClientState::SavingSession) => {}
        other => panic!("unexpected {:?}", other),
    }
}

#[test]
fn session_file_with_a_non_unicode_path() {
    let mut m = SessionsManager::new(
        "./sessions/".to_string(),
        vec![ListedEntry::NotUnicode, ListedEntry::Present("./sessions/b.session".to_string())],
    );
    assert!(matches!(m.start_lookup(), SessionLookup::NotUnicode));
    assert!(matches!(m.start_lookup(), SessionLookup::Use(ref p) if p == "./sessions/b.session"));
}

#[test]
fn well_formed_times() {
    assert!(time(0, 999_999_999).is_well_formed());
    assert!(time(0, 1_999_999_999).is_well_formed());
    assert!(!time(0, 2_000_000_000).is_well_formed());
}

#[test]
fn every_listed_child_can_be_looked_up_by_name() {
    let d = node(5, Some(1), "dir", NodeKind::Directory);
    let children = vec![
        node(6, Some(5), "a", NodeKind::File),
        node(7, Some(5), "b", NodeKind::Directory),
        node(8, Some(5), "c", NodeKind::File),
    ];
    let listing = readdir_listing(&d, Ok(children.clone()), 0);
    let parent = listing[0].ino;
    for entry in listing.iter().skip(2) {
        let q = lookup_query(parent, entry.name.clone());
        // the table answers with the first of the directory's children that the query selects
        let found = children
            .iter()
            .find(|c| match &q {
                NodeQuery::ChildNamed { parent_inode, name } => {
                    c.parent_inode == Some(*parent_inode) && &c.name == name
                }
                _ => false,
            })
            .cloned()
            .expect("the listed child is found");
        match lookup_reply(Ok(found)) {
            EntryReply::Entry { ttl: t, attr, generation } => {
                assert_eq!(t, ttl());
                assert_eq!(generation, 0);
                assert_eq!(attr.ino, entry.ino);
                assert_eq!(attr.kind, entry.kind);
            }
            other => panic!("unexpected {:?}", other),
        }
    }
}
