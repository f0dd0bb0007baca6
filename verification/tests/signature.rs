use mnu::policy::signature::{load_signature_database, verify_boot_exec, verify_exec, SignatureDatabase};

const ABC_DIGEST: &str = "ba7816bf8f01cfea414140de5dae2223b00361a396177a9cb410ff61f20015ad";
const EMPTY_DIGEST: &str = "e3b0c44298fc1c149afbf4c8996fb92427ae41e4649b934ca495991b7852b855";

fn allowlist() -> String {
    format!(
        "mnu-execution-allowlist v1\n# system binaries\n\nrecord /bin/abc {ABC_DIGEST}\r\n  record /bin/empty   {}  \n",
        EMPTY_DIGEST.to_uppercase()
    )
}

#[test]
fn admits_listed_paths_with_matching_digest() {
    let db = SignatureDatabase::parse(allowlist().as_bytes());
    assert!(db.is_some());
    assert!(verify_exec(&db, "/bin/abc", b"abc"));
    assert!(verify_exec(&db, "/bin/empty", b""));
    assert!(verify_boot_exec(&db, "/bin/abc", b"abc"));
}

#[test]
fn refuses_wrong_contents_or_paths() {
    let db = SignatureDatabase::parse(allowlist().as_bytes());
    assert!(!verify_exec(&db, "/bin/abc", b"abd"));
    assert!(!verify_exec(&db, "/bin/other", b"abc"));
    assert!(!verify_exec(&db, "/bin/empty", b"abc"));
}

#[test]
fn nothing_is_admitted_without_an_allowlist() {
    assert!(!verify_exec(&None, "/bin/abc", b"abc"));
    assert!(!verify_boot_exec(&None, "/bin/abc", b"abc"));
}

#[test]
fn rejects_malformed_allowlists() {
    assert!(SignatureDatabase::parse(b"").is_none());
    assert!(SignatureDatabase::parse(b"mnu-execution-allowlist v2\n").is_none());
    let short = format!("mnu-execution-allowlist v1\nrecord /bin/abc {}\n", &ABC_DIGEST[..62]);
    assert!(SignatureDatabase::parse(short.as_bytes()).is_none());
    let extra = format!("mnu-execution-allowlist v1\nrecord /bin/abc {ABC_DIGEST} extra\n");
    assert!(SignatureDatabase::parse(extra.as_bytes()).is_none());
    let keyword = format!("mnu-execution-allowlist v1\nentry /bin/abc {ABC_DIGEST}\n");
    assert!(SignatureDatabase::parse(keyword.as_bytes()).is_none());
    let bad_hex = format!("mnu-execution-allowlist v1\nrecord /bin/abc {}zz\n", &ABC_DIGEST[..62]);
    assert!(SignatureDatabase::parse(bad_hex.as_bytes()).is_none());
    assert!(SignatureDatabase::parse(b"mnu-execution-allowlist v1\n\xff\n").is_none());
    assert!(SignatureDatabase::parse(b"  mnu-execution-allowlist v1  ").is_some());
}

#[test]
fn loading_keeps_previous_database_on_failure() {
    let mut database = None;
    assert!(load_signature_database(&mut database, allowlist().as_bytes()));
    assert!(!load_signature_database(&mut database, b"garbage"));
    assert!(verify_exec(&database, "/bin/abc", b"abc"));
}

#[test]
fn utf8_validation() {
    let header = "mnu-execution-allowlist v1\n";
    assert!(SignatureDatabase::parse(format!("{header}# héllo\n").as_bytes()).is_some());
    let mut invalid = header.as_bytes().to_vec();
    invalid.extend_from_slice(b"# \xc3\n");
    assert!(SignatureDatabase::parse(&invalid).is_none());
}
