use std::path::PathBuf;

use dtu::utils::device_path::path_file_name;
use dtu::utils::device_path::DevicePathError;
use dtu::utils::replace_char;
use dtu::utils::unreplace_char;
use dtu::utils::DevicePath;

#[test]
fn test_device_path_as_squashed_str() {
    let device_path = DevicePath::new("/system/priv-app/Test.apk");
    assert_eq!(device_path.as_squashed_str(), "%system%priv-app%Test.apk");
}

#[test]
fn test_device_path_as_device_str() {
    let device_path = DevicePath::new("/system/priv-app/Test.apk");
    assert_eq!(device_path.as_device_str(), "/system/priv-app/Test.apk");
}

#[test]
fn test_device_path_file_name() {
    let device_path = DevicePath::new("/system/priv-app/Test.apk");
    assert_eq!(device_path.device_file_name(), "Test.apk");
}

#[test]
fn test_device_path_extension() {
    let device_path = DevicePath::new("/system/priv-app/Test.apk");
    assert_eq!(device_path.extension(), Some("apk"));
    let device_path = DevicePath::new("/system/priv-app/Test");
    assert_eq!(device_path.extension(), None);
}

#[test]
fn test_device_path_from_path() {
    let path = PathBuf::from("test").join("%system%priv-app%Test.apk");
    let device_path = DevicePath::from_path(path.to_str().unwrap()).unwrap();
    assert_eq!(device_path.as_device_str(), "/system/priv-app/Test.apk");
    assert_eq!(device_path.as_squashed_str(), "%system%priv-app%Test.apk");
}

#[test]
fn test_device_path_from_squashed() {
    let device_path = DevicePath::from_squashed("%system%priv-app%Test\\%escape.apk");
    assert_eq!(device_path.as_device_str(), "/system/priv-app/Test%escape.apk");
    assert_eq!(device_path.as_squashed_str(), "%system%priv-app%Test\\%escape.apk");
}

#[test]
fn test_device_path_simple() {
    let device_path = DevicePath::new("/system/priv-app/Test.apk");
    let path = PathBuf::from("test").join(device_path.as_squashed_str());
    assert_eq!(path.file_name().unwrap(), "%system%priv-app%Test.apk");
}

#[test]
fn test_device_path_escaping() {
    let device_path = DevicePath::new("/system/priv-app/Test%contains%replacement.apk");
    assert_eq!(
        device_path.as_squashed_str(),
        "%system%priv-app%Test\\%contains\\%replacement.apk"
    );
    let path = PathBuf::from("test").join(device_path.as_squashed_str());
    assert_eq!(
        path.file_name().unwrap(),
        "%system%priv-app%Test\\%contains\\%replacement.apk"
    );
}

#[test]
fn test_device_path() {
    let device_path_str = "/path/to/thing.jar";
    let squashed = "%path%to%thing.jar";

    let device_path = DevicePath::new(device_path_str);

    assert_eq!(device_path.as_squashed_str(), squashed);
    assert_eq!(device_path.get_squashed_string(), String::from(squashed));
    assert_eq!(device_path.as_device_str(), device_path_str);
    assert_eq!(device_path.get_device_string(), String::from(device_path_str));
    assert_eq!(device_path.extension().expect("getting extension"), "jar");
    assert_eq!(device_path.device_file_name(), "thing.jar");

    let pb = PathBuf::from("test");
    let joined = pb.join(device_path.as_squashed_str());
    assert_eq!(joined.file_name().expect("getting filename"), squashed);

    let from_path = DevicePath::from_path(joined.to_str().unwrap()).expect("from_path");
    assert_eq!(from_path.as_device_str(), device_path_str);
    assert_eq!(from_path.as_squashed_str(), squashed);
}

#[test]
fn device_path_squash_roundtrip() {
    for raw in ["/a/b%c/d.e", "", "/", "%%", "no-sep", "/x\\y/z", "a\\%b"] {
        let squashed = DevicePath::squash(raw);
        assert!(!squashed.contains('/'));
        let back = DevicePath::from_squashed(&squashed);
        assert_eq!(back.as_device_str(), raw);
        assert!(back == DevicePath::new(raw));
    }
    // a backslash right before a separator does not read back
    assert_eq!(DevicePath::from_squashed(&DevicePath::squash("a\\/b")).as_device_str(), "a%b");
}

#[test]
fn device_path_replace_helpers() {
    assert_eq!(replace_char("a/b%c", '/', '%'), "a%b\\%c");
    assert_eq!(unreplace_char("a%b\\%c", '/', '%'), "a/b%c");
    assert_eq!(unreplace_char("a\\b\\", '/', '%'), "a\\b\\");
}

#[test]
fn device_path_parts() {
    let p = DevicePath::new("/data/app/base.apk.odex");
    assert_eq!(p.device_file_name(), "base.apk.odex");
    assert_eq!(p.extension(), Some("odex"));
    assert_eq!(p.as_squashed_str_no_ext(), "%data%app%base.apk");
    let q = DevicePath::new("relative");
    assert_eq!(q.device_file_name(), "relative");
    assert_eq!(q.extension(), None);
    assert_eq!(q.as_squashed_str_no_ext(), "relative");
    assert_eq!(q.clone().into_squashed(), "relative");
    assert_eq!(q.to_display_string(), "relative");
    let r: DevicePath = DevicePath::from(&p);
    assert!(r == p);
}

#[test]
fn device_path_from_path_errors() {
    match DevicePath::from_path("..") {
        Err(DevicePathError::BadPath(p)) => assert_eq!(p, ".."),
        Ok(_) => panic!("a path without a file name was accepted"),
    }
    match DevicePath::from_path_file_name("dir", None) {
        Err(DevicePathError::BadPath(p)) => assert_eq!(p, "dir"),
        Ok(_) => panic!("a missing file name was accepted"),
    }
    let ok = DevicePath::from_path_file_name("x", Some("%a%b")).unwrap();
    assert_eq!(ok.as_device_str(), "/a/b");
}

#[test]
fn device_path_no_ext_only_file_name() {
    assert_eq!(DevicePath::new("/path/to/thing.jar").as_squashed_str_no_ext(), "%path%to%thing");
    assert_eq!(
        DevicePath::new("/data/app/com.foo-1/base.apk").as_squashed_str_no_ext(),
        "%data%app%com.foo-1%base"
    );
    assert_eq!(DevicePath::new("/data/app.d/base").as_squashed_str_no_ext(), "%data%app.d%base");
    assert_eq!(DevicePath::new("/a/b.x%y").as_squashed_str_no_ext(), "%a%b");
    assert_eq!(DevicePath::new("/a/b%c").as_squashed_str_no_ext(), "%a%b\\%c");
}

#[test]
fn device_path_from_path_takes_last_component() {
    let d = DevicePath::from_path("dir/%x%y.apk").unwrap();
    assert_eq!(d.as_squashed_str(), "%x%y.apk");
    assert_eq!(d.as_device_str(), "/x/y.apk");
}

#[test]
fn device_path_file_name_matches_std_paths() {
    for p in [
        "", "/", ".", "..", "a", "a/b", "a/b/", "a//b", "a/b/.", "a/b/./", "a/..", "/a/b/..", "./a", "a/./.",
        "test/%system%priv-app%Test.apk", "x/\\%y", "/.a", "a/...",
    ] {
        let expected = std::path::Path::new(p).file_name().map(|f| f.to_str().unwrap());
        assert_eq!(path_file_name(p), expected, "file name of {:?}", p);
    }
}

#[test]
fn device_path_from_path_fails_without_file_name() {
    for p in ["/", "a/..", ".", ""] {
        match DevicePath::from_path(p) {
            Err(DevicePathError::BadPath(b)) => assert_eq!(b, p),
            Ok(_) => panic!("{:?} has no file name", p),
        }
    }
    let d = DevicePath::from_path("dir/sub/%a%b.apk/").unwrap();
    assert_eq!(d.as_device_str(), "/a/b.apk");
}
