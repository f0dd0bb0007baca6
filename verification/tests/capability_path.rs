use mnu::capability::path::{
    normalize_path, owner_to_string, path_owner_for_current_process, rights_to_string, PathOwner,
    PathRegistry, PathRegistryError, PathRights, PATH_CREATE, PATH_EXEC, PATH_LIST, PATH_MANAGE,
    PATH_READ, PATH_WRITE,
};
use mnu::capability::{Capability, DynamicCapabilityRegistry};
use mnu::policy::PrivilegeLevel;

fn normalized(path: &str) -> Option<String> {
    normalize_path(path.as_bytes()).map(|bytes| String::from_utf8(bytes).unwrap())
}

#[test]
fn normalizes_paths() {
    assert_eq!(normalized("/"), Some("/".to_string()));
    assert_eq!(normalized("/a//b/./c/"), Some("/a/b/c".to_string()));
    assert_eq!(normalized("/a/b/../c"), Some("/a/c".to_string()));
    assert_eq!(normalized("/../.."), Some("/".to_string()));
    assert_eq!(normalized("relative/path"), None);
    assert_eq!(normalized(""), None);
}

#[test]
fn rights_bits_and_text() {
    let rights = PathRights::new(PATH_READ | PATH_WRITE);
    assert!(rights.contains(PATH_READ));
    assert!(rights.contains(PATH_READ | PATH_WRITE));
    assert!(!rights.contains(PATH_EXEC));
    assert_eq!(rights_to_string(rights), "read|write");
    assert_eq!(rights_to_string(PathRights::new(0)), "-");
    assert_eq!(
        rights_to_string(PathRights::new(PATH_EXEC | PATH_CREATE | PATH_LIST | PATH_MANAGE)),
        "exec|create|list|manage"
    );
}

#[test]
fn owner_text() {
    assert_eq!(owner_to_string(PathOwner::System), "system");
    assert_eq!(owner_to_string(PathOwner::Any), "any");
    assert_eq!(owner_to_string(PathOwner::User(1000)), "user:1000");
    assert_eq!(owner_to_string(PathOwner::User(0)), "user:0");
    assert_eq!(owner_to_string(PathOwner::Service(0x2a)), "service:0x2a");
    assert_eq!(owner_to_string(PathOwner::Application(255)), "application:0xff");
    assert_eq!(owner_to_string(PathOwner::Application(0)), "application:0x0");
}

#[test]
fn owner_follows_privilege() {
    assert_eq!(path_owner_for_current_process(5, PrivilegeLevel::Core), PathOwner::System);
    assert_eq!(path_owner_for_current_process(5, PrivilegeLevel::Service), PathOwner::Service(5));
    assert_eq!(path_owner_for_current_process(5, PrivilegeLevel::User), PathOwner::Application(5));
}

#[test]
fn registers_and_looks_up_most_specific_path() {
    let mut registry = PathRegistry::new();
    let read = PathRights::new(PATH_READ);
    assert_eq!(registry.register_path("/data", PathOwner::System, read), Ok(()));
    assert_eq!(registry.register_path("/data/user/../user/docs", PathOwner::User(1), read), Ok(()));
    let hit = registry.lookup_path("/data/user/docs/report.txt").unwrap();
    assert_eq!(hit.path, b"/data/user/docs".to_vec());
    assert_eq!(hit.owner, PathOwner::User(1));
    assert_eq!(hit.read_capability, Capability::FsReadAll);
    assert_eq!(hit.write_capability, Capability::FsWriteAll);
    let parent = registry.lookup_path("/data/other").unwrap();
    assert_eq!(parent.path, b"/data".to_vec());
    assert!(registry.lookup_path("/database").is_none());
    assert!(registry.lookup_path("nothing").is_none());
}

#[test]
fn root_covers_everything() {
    let mut registry = PathRegistry::new();
    assert_eq!(registry.register_path("/", PathOwner::Any, PathRights::new(PATH_LIST)), Ok(()));
    assert_eq!(registry.lookup_path("/x/y").unwrap().path, b"/".to_vec());
}

#[test]
fn reregistration_rules() {
    let mut registry = PathRegistry::new();
    let read = PathRights::new(PATH_READ);
    assert_eq!(registry.register_path("/srv", PathOwner::System, read), Ok(()));
    assert_eq!(registry.register_path("/srv/", PathOwner::System, read), Ok(()));
    assert_eq!(
        registry.register_path("/srv", PathOwner::Any, read),
        Err(PathRegistryError::AlreadyRegistered)
    );
    assert_eq!(
        registry.register_path("srv", PathOwner::System, read),
        Err(PathRegistryError::InvalidPath)
    );
    assert_eq!(registry.list_paths().len(), 1);
}

#[test]
fn service_paths_count_accepted_registrations() {
    let mut registry = PathRegistry::new();
    let rw = PathRights::new(PATH_READ | PATH_WRITE);
    let count = registry.register_service_paths(9, &[("/svc/a", rw), ("bad", rw), ("/svc/b", rw)]);
    assert_eq!(count, 2);
    let listed = registry.list_paths();
    assert_eq!(listed.len(), 2);
    assert_eq!(listed[0].path, b"/svc/a".to_vec());
    assert_eq!(listed[1].path, b"/svc/b".to_vec());
    assert_eq!(listed[0].owner, PathOwner::Service(9));
}

#[test]
fn configured_paths_intern_capabilities() {
    let mut registry = PathRegistry::new();
    let mut caps = DynamicCapabilityRegistry::new();
    let rights = PathRights::new(PATH_READ);
    assert_eq!(
        registry.register_configured_path(&mut caps, b"/media", b"fs.read.removable", b"vendor.media.write", rights),
        Ok(())
    );
    let hit = registry.lookup_path("/media/disk").unwrap();
    assert_eq!(hit.owner, PathOwner::Any);
    assert_eq!(hit.read_capability, Capability::FsReadRemovable);
    assert_eq!(hit.write_capability, Capability::Dynamic(0));
    assert_eq!(
        registry.register_configured_path(&mut caps, b"/x", b"Bad", b"fs.read.tmp", rights),
        Err(PathRegistryError::InvalidCapability)
    );
    assert_eq!(
        registry.register_configured_path(&mut caps, b"x", b"fs.read.tmp", b"fs.read.tmp", rights),
        Err(PathRegistryError::InvalidPath)
    );
}

#[test]
fn kernel_config_rules_are_registered() {
    let config = b"# comment\n\
capability.path = /home ; fs.read.user ; fs.write.user ; read, write, list\n\
other.key = 1\n\
capability.path = /broken ; fs.read.tmp\n\
capability.path = /bad-rights ; fs.read.tmp ; fs.write.tmp ; fly\n\
  capability.path=/tmp;fs.read.tmp;fs.write.tmp;read,write,create,delete\r\n";
    let mut registry = PathRegistry::new();
    let mut caps = DynamicCapabilityRegistry::new();
    registry.init_from_kernel_config(&mut caps, config);
    let listed = registry.list_paths();
    assert_eq!(listed.len(), 2);
    let home = registry.lookup_path("/home/user").unwrap();
    assert_eq!(home.rights, PathRights::new(PATH_READ | PATH_WRITE | PATH_LIST));
    assert_eq!(home.read_capability, Capability::FsReadUser);
    assert_eq!(home.write_capability, Capability::FsWriteUser);
    let tmp = registry.lookup_path("/tmp").unwrap();
    assert_eq!(tmp.rights, PathRights::new(PATH_READ | PATH_WRITE | PATH_CREATE | 16));
    assert!(registry.lookup_path("/broken").is_none());
}

#[test]
fn non_utf8_config_registers_nothing() {
    let mut registry = PathRegistry::new();
    let mut caps = DynamicCapabilityRegistry::new();
    registry.init_from_kernel_config(&mut caps, b"capability.path = /x ; a ; b ; read\n\xff");
    assert!(registry.list_paths().is_empty());
}
