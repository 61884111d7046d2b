use std::borrow::Cow;

use dtu::db::common::ApkIPCKind;
use dtu::db::common::PermissionMode;
use dtu::db::device::Apk;
use dtu::db::device::ApkDiff;
use dtu::db::device::ApkPermission;
use dtu::db::device::ApkWithPermissions;
use dtu::db::device::DiffedApk;
use dtu::db::device::DiffedPermission;
use dtu::db::device::DiffedProvider;
use dtu::db::device::DiffedService;
use dtu::db::device::Permission;
use dtu::db::device::PermissionDiff;
use dtu::db::device::Provider;
use dtu::db::device::ProviderDiff;
use dtu::db::device::Receiver;
use dtu::db::device::Service;
use dtu::db::device::ServiceDiff;
use dtu::db::device::SystemService;
use dtu::db::device::SystemServiceImpl;
use dtu::db::device::SystemServiceMethod;
use dtu::db::graph::ClassSearch;
use dtu::db::graph::MethodCallPath;
use dtu::db::graph::MethodSearch;
use dtu::db::graph::MethodSearchParams;
use dtu::db::graph::MethodSpec;
use dtu::utils::ClassName;
use dtu::utils::DevicePath;
use dtu::UnknownBool;

fn method(class: &str, name: &str, flags: u64) -> MethodSpec {
    MethodSpec {
        class: ClassName::from(class),
        name: String::from(name),
        signature: String::from("IZ"),
        ret: String::from("V"),
        source: String::from("framework"),
        access_flags: flags,
    }
}

fn provider() -> Provider {
    Provider {
        id: 3,
        name: String::from("com.example.data.Provider"),
        authorities: String::from("com.example.one:com.example.two::"),
        permission: Some(String::from("perm.GENERIC")),
        grant_uri_permissions: false,
        read_permission: Some(String::from("perm.READ")),
        write_permission: None,
        exported: true,
        enabled: false,
        apk_id: 9,
    }
}

#[test]
fn method_spec_smali_and_eq() {
    let m = method("java.lang.String", "length", 1);
    assert_eq!(m.as_smali(), "Ljava/lang/String;->length(IZ)V");
    assert_eq!(m.to_display_string(), "Ljava/lang/String;->length(IZ)V");
    // access flags do not take part in equality; either class form does
    assert!(m == method("Ljava/lang/String;", "length", 8));
    assert!(m != method("java.lang.String", "size", 1));
}

#[test]
fn method_call_path_ends() {
    let empty = MethodCallPath::from(Vec::new());
    assert!(empty.is_empty());
    assert!(!empty.is_not_empty());
    assert!(empty.get_src_method().is_none());
    assert!(empty.get_dst_class().is_none());
    assert!(empty.get_source().is_none());
    let path = MethodCallPath::from(vec![method("a.A", "f", 0), method("b.B", "g", 0)]);
    assert!(path.is_not_empty());
    assert_eq!(path.get_src_method().unwrap().name, "f");
    assert_eq!(path.get_dst_method().unwrap().name, "g");
    assert_eq!(path.get_src_class().unwrap().as_str(), "a.A");
    assert_eq!(path.get_dst_class().unwrap().as_str(), "b.B");
    assert_eq!(path.get_source(), Some("framework"));
    assert_eq!(path.must_get_src_method().name, "f");
    assert_eq!(path.must_get_dst_method().name, "g");
    assert_eq!(path.must_get_src_class().as_str(), "a.A");
    assert_eq!(path.must_get_dst_class().as_str(), "b.B");
    assert_eq!(path.must_get_source(), "framework");
}

#[test]
fn method_search_params_cases() {
    let class = ClassName::from("a.B");
    assert!(matches!(
        MethodSearchParams::new(Some("f"), Some(&class), Some("I")),
        Ok(MethodSearchParams::ByFullSpec { name: "f", signature: "I", .. })
    ));
    assert!(matches!(
        MethodSearchParams::new(Some("f"), Some(&class), None),
        Ok(MethodSearchParams::ByClassAndName { name: "f", .. })
    ));
    assert!(matches!(
        MethodSearchParams::new(Some("f"), None, Some("I")),
        Ok(MethodSearchParams::ByNameAndSignature { name: "f", signature: "I" })
    ));
    assert!(matches!(MethodSearchParams::new(Some("f"), None, None), Ok(MethodSearchParams::ByName { name: "f" })));
    assert!(matches!(MethodSearchParams::new(None, Some(&class), None), Ok(MethodSearchParams::ByClass { .. })));
    assert!(matches!(
        MethodSearchParams::new(None, Some(&class), Some("I")),
        Err("class and signature only currently unsupported")
    ));
    assert!(matches!(MethodSearchParams::new(None, None, Some("I")), Err("need name or class")));
    assert!(matches!(MethodSearchParams::new(None, None, None), Err("need name or class")));
}

#[test]
fn method_and_class_search() {
    let class = ClassName::from("a.B");
    let s = MethodSearch::new_from_opts(Some(&class), Some("f"), None, Some("src")).unwrap();
    assert_eq!(s.source, Some("src"));
    assert!(matches!(s.param, MethodSearchParams::ByClassAndName { name: "f", .. }));
    assert!(MethodSearch::new_from_opts(None, None, None, None).is_err());
    let m = MethodSearch::from(MethodSearchParams::ByName { name: "g" }).with_source("other");
    assert_eq!(m.source, Some("other"));
    let c = ClassSearch::from(&class);
    assert_eq!(c.source, None);
    let c = c.with_source("framework");
    assert_eq!(c.source, Some("framework"));
    assert_eq!(c.class.as_str(), "a.B");
}

#[test]
fn provider_methods() {
    let p = provider();
    assert_eq!(p.get_authorities(), vec!["com.example.one", "com.example.two", "", ""]);
    assert_eq!(p.get_permission_for_mode(PermissionMode::Read), Some("perm.READ"));
    assert_eq!(p.get_permission_for_mode(PermissionMode::Write), None);
    assert_eq!(p.get_permission_for_mode(PermissionMode::Generic), Some("perm.GENERIC"));
    assert_eq!(p.get_class_name().as_str(), "com.example.data.Provider");
    match p.get_package() {
        Cow::Owned(s) => assert_eq!(s, "com.example.data"),
        Cow::Borrowed(_) => panic!("package of a provider is computed"),
    }
    assert_eq!(p.get_kind(), ApkIPCKind::Provider);
    assert_eq!(p.get_apk_id(), 9);
    assert!(p.is_exported());
    assert!(!p.is_enabled());
    assert_eq!(p.to_display_string(), "com.example.data.Provider [com.example.one:com.example.two::]");
    let mut single = provider();
    single.authorities = String::from("only");
    assert_eq!(single.get_authorities(), vec!["only"]);
}

#[test]
fn diffed_provider_from() {
    let diff = ProviderDiff {
        id: 1,
        provider: 3,
        diff_source: 2,
        exists_in_diff: true,
        exported_matches_diff: false,
        permission_matches_diff: true,
        diff_permission: Some(String::from("p")),
        write_permission_matches_diff: false,
        diff_write_permission: Some(String::from("w")),
        read_permission_matches_diff: true,
        diff_read_permission: None,
    };
    let d = DiffedProvider::from((provider(), diff));
    assert_eq!(d.get_id(), 3);
    assert!(d.exists_in_diff);
    assert!(!d.exported_matches_diff);
    assert_eq!(d.diff_permission.as_deref(), Some("p"));
    assert_eq!(d.diff_write_permission.as_deref(), Some("w"));
    assert!(d.read_permission_matches_diff);
    assert_eq!(d.diff_read_permission, None);
}

#[test]
fn components_and_diffs() {
    let s = Service {
        id: 5,
        class_name: ClassName::from("Lcom/ex/Svc;"),
        permission: None,
        exported: true,
        enabled: true,
        pkg: String::from("com.ex"),
        apk_id: 2,
        returns_binder: UnknownBool::True,
    };
    assert_eq!(s.to_display_string(), "com.ex/com.ex.Svc");
    assert_eq!(s.get_kind(), ApkIPCKind::Service);
    assert_eq!(s.get_generic_permission(), None);
    assert_eq!(s.get_package().as_ref(), "com.ex");
    let diff = ServiceDiff {
        id: 1,
        service: 5,
        diff_source: 1,
        exists_in_diff: false,
        exported_matches_diff: true,
        permission_matches_diff: false,
        diff_permission: None,
    };
    let d = DiffedService::from((s, diff));
    assert_eq!(d.get_id(), 5);
    assert!(!d.exists_in_diff);
    assert_eq!(d.to_display_string(), "com.ex/com.ex.Svc");

    let r = Receiver {
        id: 6,
        class_name: ClassName::from("com.ex.Recv"),
        permission: Some(String::from("perm")),
        exported: false,
        enabled: true,
        pkg: String::from("com.ex"),
        apk_id: 2,
    };
    assert_eq!(r.get_generic_permission(), Some("perm"));
    assert_eq!(r.get_class_name().as_str(), "com.ex.Recv");
    assert_eq!(r.get_kind(), ApkIPCKind::Receiver);
}

#[test]
fn permissions_and_apks() {
    let perm = Permission {
        id: 4,
        name: String::from("android.permission.X"),
        protection_level: String::from("signature"),
        source_apk_id: 1,
    };
    assert_eq!(perm.to_display_string(), "android.permission.X - signature");
    let diff = PermissionDiff {
        id: 1,
        permission: 4,
        diff_source: 1,
        exists_in_diff: true,
        protection_level_matches_diff: false,
        diff_protection_level: Some(String::from("normal")),
    };
    let d = DiffedPermission::from((perm, diff));
    assert_eq!(d.get_id(), 4);
    assert_eq!(d.diff_protection_level.as_deref(), Some("normal"));

    let apk = Apk {
        id: 7,
        app_name: String::from("Framework"),
        name: String::from("android"),
        is_debuggable: false,
        is_priv: true,
        device_path: DevicePath::new("/system/framework/framework-res.apk"),
    };
    assert_eq!(apk.base_dir_name(), "framework");
    assert_eq!(apk.to_display_string(), "android [Framework]");
    let other = Apk { device_path: DevicePath::new("/system/app/Test.apk"), ..apk.clone() };
    assert_eq!(other.base_dir_name(), "decompiled");

    let perms = vec![
        ApkPermission { id: 1, name: String::from("a"), apk_id: 7 },
        ApkPermission { id: 2, name: String::from("b"), apk_id: 7 },
    ];
    let with = ApkWithPermissions::from((perms, apk.clone()));
    assert_eq!(with.permissions, vec![String::from("a"), String::from("b")]);
    assert_eq!(with.apk.id, 7);

    let diffed = DiffedApk::from((apk, ApkDiff { id: 1, apk: 7, diff_source: 1, exists_in_diff: true }));
    assert_eq!(diffed.get_id(), 7);
    assert!(diffed.exists_in_diff);
}

#[test]
fn system_service_values() {
    let i = SystemServiceImpl {
        id: 1,
        system_service_id: 2,
        source: String::from("framework"),
        class_name: ClassName::from("Lcom/android/server/Foo;"),
    };
    assert!(i.is_from_framework());
    assert!(!i.is_from_apk());
    assert_eq!(i.to_display_string(), "com.android.server.Foo in framework");
    let j = SystemServiceImpl { source: String::from("%system%app%X.apk"), ..i.clone() };
    assert!(j.is_from_apk());
    assert_eq!(j.apk_path().as_device_str(), "/system/app/X.apk");

    let m = SystemServiceMethod {
        id: 1,
        system_service_id: 2,
        transaction_id: 3,
        name: String::from("doIt"),
        signature: None,
        return_type: Some(String::from("V")),
        smalisa_hash: None,
    };
    assert_eq!(m.get_signature(), "?");
    assert_eq!(m.get_return_type(), "V");
    assert_eq!(m.to_display_string(), "doIt(?) -> V");

    let s = SystemService { id: 1, name: String::from("svc"), iface: None, can_get_binder: UnknownBool::Unknown };
    assert!(!s.has_iface());
    assert_eq!(s.to_display_string(), "svc []");
    let t = SystemService { iface: Some(ClassName::from("a.IFoo")), ..s };
    assert!(t.has_iface());
    assert_eq!(t.to_display_string(), "svc [a.IFoo]");
}

#[test]
fn provider_authorities_join_back() {
    for text in ["a:b:c", "", ":", "one", "x::y"] {
        let mut p = provider();
        p.authorities = String::from(text);
        let parts = p.get_authorities();
        assert_eq!(parts.join(":"), text);
        assert!(parts.iter().all(|part| !part.contains(':')));
    }
}
