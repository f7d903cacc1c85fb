use rcc::registry::{Registry, THRESHOLD};
use rcc::storage::{Linkage, LinkageConflict, Storage, StorageSpecifier, VarDeclKind};
use rcc::storage::VarDeclKind::{Declaration, Definition, Tentative};

#[test]
fn linkage_merges() {
    assert_eq!(Linkage::try_merge(Linkage::Internal, Linkage::External), Ok(Linkage::Internal));
    assert_eq!(Linkage::try_merge(Linkage::External, Linkage::Common), Ok(Linkage::Common));
    assert_eq!(Linkage::try_merge(Linkage::Common, Linkage::External), Ok(Linkage::External));
    assert_eq!(Linkage::try_merge(Linkage::Common, Linkage::Common), Ok(Linkage::Common));
    assert_eq!(Linkage::try_merge(Linkage::NoLinkage, Linkage::NoLinkage), Ok(Linkage::NoLinkage));
    assert_eq!(Linkage::try_merge(Linkage::Internal, Linkage::Common), Err(LinkageConflict::StaticThenTentative));
    assert_eq!(Linkage::try_merge(Linkage::Common, Linkage::Internal), Err(LinkageConflict::TentativeThenStatic));
    assert_eq!(Linkage::try_merge(Linkage::External, Linkage::Internal), Err(LinkageConflict::ExternThenStatic));
    assert_eq!(
        LinkageConflict::ExternThenStatic.message(),
        "non-static(extern) declaration followed by static declaration"
    );
    assert_eq!(Linkage::Internal.name(), "internal");
    assert_eq!(Linkage::NoLinkage.name(), "none");
}

#[test]
fn linkage_law_on_values() {
    for l in [Linkage::Common, Linkage::Internal, Linkage::External] {
        assert_eq!(Linkage::try_merge(l, l), Ok(l));
        for m in [Linkage::Common, Linkage::Internal, Linkage::External] {
            match Linkage::try_merge(l, m) {
                Ok(r) => assert!(r == l || r == m),
                Err(_) => assert!(l == Linkage::Internal || m == Linkage::Internal),
            }
        }
    }
}

#[test]
fn decl_kinds_merge() {
    assert_eq!(VarDeclKind::merge(Tentative, Tentative), Tentative);
    assert_eq!(VarDeclKind::merge(Declaration, Definition), Definition);
    assert_eq!(VarDeclKind::merge(Tentative, Declaration), Declaration);
    for a in [Declaration, Definition, Tentative] {
        for b in [Declaration, Definition, Tentative] {
            assert_eq!(VarDeclKind::merge(a, b), VarDeclKind::merge(b, a));
            for c in [Declaration, Definition, Tentative] {
                assert_eq!(
                    VarDeclKind::merge(VarDeclKind::merge(a, b), c),
                    VarDeclKind::merge(a, VarDeclKind::merge(b, c))
                );
            }
        }
    }
}

#[test]
fn storage_specifier_sets() {
    let mut s = StorageSpecifier::static_().union(StorageSpecifier::thread_local());
    assert!(s.contains(StorageSpecifier::static_()));
    assert!(!s.contains(StorageSpecifier::extern_()));
    assert_eq!(s.to_string(), "static threadlocal");
    s.reset();
    assert!(s.is_empty());
    assert_eq!(s, StorageSpecifier::empty());
    s.reset();
    assert_eq!(s, StorageSpecifier::empty());
    assert_eq!(s.to_string(), "<empty>");
    assert_eq!(StorageSpecifier::typedef().to_string(), "typedef");
    assert_eq!(StorageSpecifier::auto().union(StorageSpecifier::constexpr()).to_string(), "auto constexpr");
}

#[test]
fn registry_warns_from_threshold() {
    let mut r = Registry::new(true);
    for _ in 0..THRESHOLD - 1 {
        assert!(!r._check_threshold());
    }
    assert!(r._check_threshold());
    assert_eq!(r.counter, THRESHOLD);
    let mut quiet = Registry::new(false);
    for _ in 0..40 {
        assert!(!quiet._check_threshold());
    }
    assert_eq!(quiet.counter, 0);
}

#[test]
fn storage_names() {
    assert_eq!(Storage::ThreadLocal.name(), "thread_local");
    assert_eq!(Storage::Automatic.name(), "automatic");
    assert_eq!(VarDeclKind::Tentative.name(), "Tentative");
}
