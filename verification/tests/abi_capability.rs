use mnu::abi::capability::{metadata, CapabilityClassification, CAPABILITY_COUNT};

#[test]
fn classifies_known_capabilities() {
    let documents = metadata("fs.read.user.documents").unwrap();
    assert_eq!(documents.name, "fs.read.user.documents");
    assert_eq!(documents.classification, CapabilityClassification::UserGrantable);
    assert!(documents.delegable && documents.user_grantable);
    let all = metadata("fs.read.all").unwrap();
    assert_eq!(all.classification, CapabilityClassification::Privileged);
    assert!(!all.delegable && !all.user_grantable);
    let spawn = metadata("process.spawn").unwrap();
    assert_eq!(spawn.classification, CapabilityClassification::SystemOnly);
    assert!(!spawn.delegable);
    assert_eq!(metadata("net.listen").unwrap().classification, CapabilityClassification::UserGrantable);
    assert_eq!(metadata("net.raw").unwrap().classification, CapabilityClassification::Privileged);
}

#[test]
fn unknown_names_have_no_metadata() {
    assert!(metadata("fs.read.everything").is_none());
    assert!(metadata("").is_none());
    assert_eq!(CAPABILITY_COUNT, 92);
}
