use std::borrow::Cow;

use dtu::utils::class_name::java_name_to_smali;
use dtu::utils::class_name::smali_name_to_java;
use dtu::utils::ClassName;

#[test]
fn test_get_simple_class_name() {
    let class = ClassName::from("com.test.Class$Stub");
    assert_eq!(class.get_simple_class_name(), "Class$Stub");
    let class = ClassName::from("Lcom/test/Class$Stub;");
    assert_eq!(class.get_simple_class_name(), "Class$Stub");
    let class = ClassName::from("Class$Stub");
    assert_eq!(class.get_simple_class_name(), "Class$Stub");
    let class = ClassName::from("LClass$Stub;");
    assert_eq!(class.get_simple_class_name(), "Class$Stub");
}

#[test]
fn test_with_new_simple_class_name() {
    let base = ClassName::from("com.test.Class");
    let new = base.with_new_simple_class_name("Class$Stub");
    assert_eq!(new.get_java_name().as_ref(), "com.test.Class$Stub");
}

#[test]
fn test_has_package() {
    let has = ClassName::from("com.test.Class");
    assert!(has.has_pkg());
    let has = ClassName::from("Lcom/test/Class;");
    assert!(has.has_pkg());
    let doesnt = ClassName::from("Class");
    assert!(!doesnt.has_pkg());
    let doesnt = ClassName::from("LClass;");
    assert!(!doesnt.has_pkg());
}

#[test]
fn test_class_name_simple_name() {
    let java_name = ClassName::from("java.lang.String");
    assert_eq!(java_name.get_simple_class_name(), "String");
    let smali_name = ClassName::from("Ljava/lang/String;");
    assert_eq!(smali_name.get_simple_class_name(), "String");
}

#[test]
fn test_class_name_pkg() {
    let java_name = ClassName::from("java.lang.String");
    let smali_name = ClassName::from("Ljava/lang/String;");
    let java_name = java_name.pkg_as_java();
    match java_name {
        Cow::Borrowed(s) => assert_eq!(s, "java.lang", "bad java name for java class"),
        _ => panic!("wrong return type for pkg_as_java {:?}", java_name),
    };
    let java_name = smali_name.pkg_as_java();
    match java_name {
        Cow::Borrowed(s) => {
            assert_eq!(s, "java.lang", "bad java name for smali class")
        }
        _ => panic!("wrong return type for pkg_as_java {:?}", java_name),
    };
}

#[test]
fn test_class_name_eq() {
    let java_name = ClassName::from("java.lang.String");
    let smali_name = ClassName::from("Ljava/lang/String;");
    assert_eq!(java_name, smali_name);
}

#[test]
fn test_class_name_conversions() {
    let cn = ClassName::from("java.lang.String");
    assert_eq!(cn.get_java_name().as_ref(), "java.lang.String");
    assert_eq!(cn.get_smali_name().as_ref(), "Ljava/lang/String;");
    let cn = ClassName::from("Ljava/lang/String;");
    assert_eq!(cn.get_java_name().as_ref(), "java.lang.String");
    assert_eq!(cn.get_smali_name().as_ref(), "Ljava/lang/String;");
}

#[test]
fn test_smali_name_to_java() {
    let smali_name = "Ljava/lang/String;";
    assert_eq!(smali_name_to_java(smali_name), "java.lang.String");
    let smali_name = "La;";
    assert_eq!(smali_name_to_java(smali_name), "a");
}

#[test]
fn test_java_name_to_smali() {
    let java_name = "java.lang.String";
    assert_eq!(java_name_to_smali(java_name), "Ljava/lang/String;");
    let java_name = "a";
    assert_eq!(java_name_to_smali(java_name), "La;");
}

#[test]
fn test_class_name_display() {
    let java = "java.lang.String";
    let java_name = ClassName::from(java);
    let smali_name = ClassName::from("Ljava/lang/String;");
    assert_eq!(java_name.to_display_string().as_str(), java, "java class display");
    assert_eq!(smali_name.to_display_string().as_str(), java, "smali class display");
}

#[test]
fn class_name_stored_in_java_form() {
    assert_eq!(ClassName::from("Lcom/a/B;").as_str(), "com.a.B");
    assert_eq!(ClassName::from(String::from("com.a.B")).as_str(), "com.a.B");
    assert!(ClassName::from("com.a.B").is_java());
    assert!(!ClassName::from("com.a.B").is_smali());
    // a name that is still smali-looking after conversion stays in that form
    let odd = ClassName::from("LLa;;");
    assert_eq!(odd.as_str(), "La;");
    assert!(odd.is_smali());
    assert_eq!(odd.get_java_name().as_ref(), "a");
    assert_eq!(odd, ClassName::from("a"));
}

#[test]
fn class_name_from_split_manifest() {
    let c = ClassName::from_split_manifest("com.foo.bar", ".Baz");
    assert_eq!(c.as_str(), "com.foo.bar.Baz");
    let c = ClassName::from_split_manifest("com.foo.bar", "foo.bar.Baz");
    assert_eq!(c.as_str(), "foo.bar.Baz");
}

#[test]
fn class_name_with_new_package() {
    let c = ClassName::from("com.test.Class");
    assert_eq!(c.with_new_package("org.other").as_str(), "org.other.Class");
    assert_eq!(c.with_new_package("org.other.").as_str(), "org.other.Class");
    assert_eq!(c.with_new_package("org/other/").as_str(), "org.other.Class");
    let s = ClassName::from("Lcom/test/Class;");
    assert_eq!(s.with_new_package("x.y").get_smali_name().as_ref(), "Lx/y/Class;");
    let renamed = c.with_new_simple_class_name("Other");
    assert_eq!(renamed.pkg_as_java().as_ref(), "com.test");
    assert_eq!(renamed.get_simple_class_name(), "Other");
}

#[test]
fn class_name_has_pkg_manifest_style() {
    assert!(!ClassName::from(".Class").has_pkg());
    assert!(ClassName::from(".a.Class").has_pkg());
    assert_eq!(ClassName::from("Class").pkg_as_java().as_ref(), "");
}

#[test]
fn class_name_eq_str() {
    let c = ClassName::from("java.lang.String");
    assert!(c.eq_str("java.lang.String"));
    assert!(c.eq_str("Ljava/lang/String;"));
    assert!(!c.eq_str("java.lang.Object"));
    assert!(!c.eq_str("Ljava/lang/Object;"));
}

#[test]
fn class_name_non_ascii_smali() {
    assert_eq!(smali_name_to_java("Lcom/é;"), "com.é");
    assert_eq!(smali_name_to_java("Lé;"), "é");
    assert_eq!(ClassName::from("Lcom/é;").as_str(), "com.é");
    assert_eq!(ClassName::from("com.é"), ClassName::from("Lcom/é;"));
    assert_eq!(smali_name_to_java("é"), "");
}

#[test]
fn class_name_rename_without_package() {
    let c = ClassName::from("Class");
    let renamed = c.with_new_simple_class_name("Other");
    assert_eq!(renamed.as_str(), "Other");
    assert_eq!(renamed, ClassName::from("Other"));
    assert_eq!(renamed.pkg_as_java().as_ref(), "");
    let relative = ClassName::from(".Class").with_new_simple_class_name("Other");
    assert_eq!(relative.as_str(), ".Other");
}

#[test]
fn class_name_equal_forms_share_smali_name() {
    let java = ClassName::from("com.x.Y");
    let smali = ClassName::from("Lcom/x/Y;");
    assert_eq!(java, smali);
    assert_eq!(java.get_smali_name(), smali.get_smali_name());
    assert_eq!(java_name_to_smali("com.x.Y"), "Lcom/x/Y;");
    assert_eq!(smali_name_to_java(&java_name_to_smali("com.x.Y")), "com.x.Y");
}

#[test]
fn class_name_compares_with_text() {
    let c = ClassName::from("java.lang.String");
    assert!(c == "java.lang.String");
    assert!(c == "Ljava/lang/String;");
    assert!(c == String::from("java.lang.String"));
    assert!(c != "java.lang.Object");
    let parsed: ClassName = "Ljava/lang/String;".parse().unwrap();
    assert_eq!(parsed.as_str(), "java.lang.String");
}
