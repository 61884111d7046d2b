//! Rows of the device database (properties, permissions, APKs and their
//! components, system services, diffs against a baseline) and the values
//! that combine a row with its diff.

use vstd::prelude::*;
use vstd::std_specs::convert::FromSpec;
use vstd::std_specs::convert::FromSpecImpl;
use vstd::string::StringExecFns;
use std::borrow::Cow;
use std::ops::Deref;
use crate::db::common::ApkIPCKind;
use crate::db::common::PermissionMode;
use crate::db::graph::FRAMEWORK_SOURCE;
use crate::text::split_char;
use crate::text::split_on;
use crate::text::owned;
use crate::text::str_eq;
use crate::utils::class_name::cow_as_str;
use crate::utils::class_name::java_form;
use crate::utils::class_name::java_package;
use crate::utils::device_path::file_name_of;
use crate::utils::device_path::raw_form;
use crate::utils::ClassName;
use crate::utils::DevicePath;
use crate::UnknownBool;

verus! {

/// Whether an optional borrowed text is the text of an optional string.
pub open spec fn same_opt_text(r: Option<&str>, o: Option<String>) -> bool {
    match o {
        Some(s) => r matches Some(x) && x@ == s@,
        None => r is None,
    }
}

/// The text of an optional string, borrowed.
pub fn opt_as_str(o: &Option<String>) -> (r: Option<&str>)
    ensures
        same_opt_text(r, *o),
{
    match o {
        Some(s) => Some(s.as_str()),
        None => None,
    }
}

/// The text of an optional string, or `?` when there is none.
///
/// A present string is shown as it is, the empty one included.
pub open spec fn text_or_question(o: Option<String>) -> Seq<char> {
    match o {
        Some(s) => s@,
        None => "?"@,
    }
}

/// A system property of the device.
#[derive(Debug, Clone)]
pub struct DeviceProperty {
    pub id: i32,
    pub name: String,
    pub value: String,
}

impl DeviceProperty {
    /// The property as it is displayed: `name:[value]`.
    pub fn to_display_string(&self) -> (r: String)
        ensures
            r@ == self.name@ + ":["@ + self.value@ + "]"@,
    {
        let mut s = owned(self.name.as_str());
        s.append(":[");
        s.append(self.value.as_str());
        s.append("]");
        s
    }
}

/// A permission declared on the device.
#[derive(Debug, Clone)]
pub struct Permission {
    pub id: i32,
    pub name: String,
    pub protection_level: String,
    pub source_apk_id: i32,
}

impl Permission {
    /// The permission as it is displayed: `name - protection_level`.
    pub fn to_display_string(&self) -> (r: String)
        ensures
            r@ == self.name@ + " - "@ + self.protection_level@,
    {
        let mut s = owned(self.name.as_str());
        s.append(" - ");
        s.append(self.protection_level.as_str());
        s
    }
}

/// A permission that an APK uses.
#[derive(Debug, Clone)]
pub struct ApkPermission {
    pub id: i32,
    pub name: String,
    pub apk_id: i32,
}

/// How a permission compares with the baseline.
#[derive(Debug, Clone)]
pub struct PermissionDiff {
    pub id: i32,
    pub permission: i32,
    pub diff_source: i32,
    /// Present in baseline AOSP
    pub exists_in_diff: bool,
    /// Baseline AOSP protection level matches device
    pub protection_level_matches_diff: bool,
    /// Protection level in device (if different from baseline AOSP)
    pub diff_protection_level: Option<String>,
}

/// The result of combining a Permission with a PermissionDiff
#[derive(Debug, Clone)]
pub struct DiffedPermission {
    pub permission: Permission,
    /// Present in baseline AOSP
    pub exists_in_diff: bool,
    /// Baseline AOSP protection level matches device
    pub protection_level_matches_diff: bool,
    /// Protection level in device (if different from baseline AOSP)
    pub diff_protection_level: Option<String>,
}

impl DiffedPermission {
    /// The id of the permission.
    pub fn get_id(&self) -> (r: i32)
        ensures
            r == self.permission.id,
    {
        self.permission.id
    }

    /// Displayed as the permission.
    pub fn to_display_string(&self) -> (r: String)
        ensures
            r@ == self.permission.name@ + " - "@ + self.permission.protection_level@,
    {
        self.permission.to_display_string()
    }
}

impl AsRef<Permission> for DiffedPermission {
    fn as_ref(&self) -> (r: &Permission)
        ensures
            *r == self.permission,
    {
        &self.permission
    }
}

impl Deref for DiffedPermission {
    type Target = Permission;

    fn deref(&self) -> (r: &Permission)
        ensures
            *r == self.permission,
    {
        &self.permission
    }
}

impl From<(Permission, PermissionDiff)> for DiffedPermission {
    fn from(value: (Permission, PermissionDiff)) -> (r: DiffedPermission)
        ensures
            r.permission == value.0,
            r.exists_in_diff == value.1.exists_in_diff,
            r.protection_level_matches_diff == value.1.protection_level_matches_diff,
            r.diff_protection_level == value.1.diff_protection_level,
    {
        let (permission, diff) = value;
        DiffedPermission {
            permission,
            exists_in_diff: diff.exists_in_diff,
            protection_level_matches_diff: diff.protection_level_matches_diff,
            diff_protection_level: diff.diff_protection_level,
        }
    }
}

impl FromSpecImpl<(Permission, PermissionDiff)> for DiffedPermission {
    open spec fn obeys_from_spec() -> bool {
        true
    }

    open spec fn from_spec(v: (Permission, PermissionDiff)) -> DiffedPermission {
        DiffedPermission {
            permission: v.0,
            exists_in_diff: v.1.exists_in_diff,
            protection_level_matches_diff: v.1.protection_level_matches_diff,
            diff_protection_level: v.1.diff_protection_level,
        }
    }
}

/// A broadcast that only the system may send.
#[derive(Debug, Clone)]
pub struct ProtectedBroadcast {
    pub id: i32,
    pub name: String,
}

impl ProtectedBroadcast {
    /// Displayed as its name.
    pub fn to_display_string(&self) -> (r: String)
        ensures
            r@ == self.name@,
    {
        owned(self.name.as_str())
    }
}

/// A broadcast that is protected in the baseline but not on the device.
#[derive(Debug, Clone)]
pub struct UnprotectedBroadcast {
    pub id: i32,
    pub name: String,
    pub diff_source: i32,
}

impl UnprotectedBroadcast {
    /// Displayed as its name.
    pub fn to_display_string(&self) -> (r: String)
        ensures
            r@ == self.name@,
    {
        owned(self.name.as_str())
    }
}

/// The directory that an APK at `device_path` is decompiled into:
/// `framework` for `framework-res.apk`, `decompiled` otherwise.
pub open spec fn base_dir_name_of(device_path: Seq<char>) -> Seq<char> {
    if file_name_of(device_path) == "framework-res.apk"@ {
        "framework"@
    } else {
        "decompiled"@
    }
}

/// An APK found on the device.
#[derive(Clone)]
pub struct Apk {
    pub id: i32,
    pub app_name: String,
    pub name: String,
    pub is_debuggable: bool,
    pub is_priv: bool,
    pub device_path: DevicePath,
}

impl Apk {
    /// The name of the directory under the APKs directory that this APK was
    /// decompiled into.
    pub fn base_dir_name(&self) -> (r: &'static str)
        ensures
            r@ == base_dir_name_of(self.device_path@),
    {
        if str_eq(self.device_path.device_file_name(), "framework-res.apk") {
            "framework"
        } else {
            "decompiled"
        }
    }

    /// The APK as it is displayed: `name [app_name]`.
    pub fn to_display_string(&self) -> (r: String)
        ensures
            r@ == self.name@ + " ["@ + self.app_name@ + "]"@,
    {
        let mut s = owned(self.name.as_str());
        s.append(" [");
        s.append(self.app_name.as_str());
        s.append("]");
        s
    }
}

/// An APK with the names of the permissions that it uses.
#[derive(Clone)]
pub struct ApkWithPermissions {
    pub apk: Apk,
    pub permissions: Vec<String>,
}

impl From<(Vec<ApkPermission>, Apk)> for ApkWithPermissions {
    fn from(value: (Vec<ApkPermission>, Apk)) -> (r: ApkWithPermissions)
        ensures
            r.apk == value.1,
            r.permissions@.len() == value.0@.len(),
            forall|i: int| 0 <= i < value.0@.len() ==> #[trigger] r.permissions@[i]@ == value.0@[i].name@,
    {
        let (perms, apk) = value;
        let mut permissions: Vec<String> = Vec::new();
        let mut i: usize = 0;
        while i < perms.len()
            invariant
                i <= perms@.len(),
                permissions@.len() == i,
                forall|k: int| 0 <= k < i ==> #[trigger] permissions@[k]@ == perms@[k].name@,
            decreases perms@.len() - i,
        {
            permissions.push(perms[i].name.clone());
            i = i + 1;
        }
        ApkWithPermissions { apk, permissions }
    }
}

impl FromSpecImpl<(Vec<ApkPermission>, Apk)> for ApkWithPermissions {
    open spec fn obeys_from_spec() -> bool {
        false
    }

    open spec fn from_spec(v: (Vec<ApkPermission>, Apk)) -> ApkWithPermissions {
        arbitrary()
    }
}

/// The result of combining an Apk with an ApkDiff
#[derive(Clone)]
pub struct DiffedApk {
    pub apk: Apk,
    /// Present in baseline AOSP
    pub exists_in_diff: bool,
}

impl DiffedApk {
    /// The id of the APK.
    pub fn get_id(&self) -> (r: i32)
        ensures
            r == self.apk.id,
    {
        self.apk.id
    }

    /// Displayed as the APK.
    pub fn to_display_string(&self) -> (r: String)
        ensures
            r@ == self.apk.name@ + " ["@ + self.apk.app_name@ + "]"@,
    {
        self.apk.to_display_string()
    }
}

impl AsRef<Apk> for DiffedApk {
    fn as_ref(&self) -> (r: &Apk)
        ensures
            *r == self.apk,
    {
        &self.apk
    }
}

impl Deref for DiffedApk {
    type Target = Apk;

    fn deref(&self) -> (r: &Apk)
        ensures
            *r == self.apk,
    {
        &self.apk
    }
}

impl From<(Apk, ApkDiff)> for DiffedApk {
    fn from(value: (Apk, ApkDiff)) -> (r: DiffedApk)
        ensures
            r.apk == value.0,
            r.exists_in_diff == value.1.exists_in_diff,
    {
        let (apk, diff) = value;
        DiffedApk { apk, exists_in_diff: diff.exists_in_diff }
    }
}

impl FromSpecImpl<(Apk, ApkDiff)> for DiffedApk {
    open spec fn obeys_from_spec() -> bool {
        true
    }

    open spec fn from_spec(v: (Apk, ApkDiff)) -> DiffedApk {
        DiffedApk { apk: v.0, exists_in_diff: v.1.exists_in_diff }
    }
}

/// How an APK compares with the baseline.
#[derive(Debug, Clone)]
pub struct ApkDiff {
    pub id: i32,
    pub apk: i32,
    pub diff_source: i32,
    /// Present in baseline AOSP
    pub exists_in_diff: bool,
}

/// A broadcast receiver of an APK.
#[derive(Debug, Clone)]
pub struct Receiver {
    pub id: i32,
    pub class_name: ClassName,
    pub permission: Option<String>,
    pub exported: bool,
    pub enabled: bool,
    pub pkg: String,
    pub apk_id: i32,
}

impl Receiver {
    /// The component as it is displayed: `pkg/class` with the class in Java form.
    pub fn to_display_string(&self) -> (r: String)
        ensures
            r@ == self.pkg@ + "/"@ + java_form(self.class_name@),
    {
        let mut s = owned(self.pkg.as_str());
        s.append("/");
        s.append(self.class_name.to_display_string().as_str());
        s
    }

    /// The id of the APK that declares the component.
    pub fn get_apk_id(&self) -> (r: i32)
        ensures
            r == self.apk_id,
    {
        self.apk_id
    }

    /// The permission that protects the component, if any.
    pub fn get_generic_permission(&self) -> (r: Option<&str>)
        ensures
            same_opt_text(r, self.permission),
    {
        opt_as_str(&self.permission)
    }

    pub fn is_exported(&self) -> (r: bool)
        ensures
            r == self.exported,
    {
        self.exported
    }

    pub fn is_enabled(&self) -> (r: bool)
        ensures
            r == self.enabled,
    {
        self.enabled
    }

    /// The class of the component.
    pub fn get_class_name(&self) -> (r: ClassName)
        ensures
            r == self.class_name,
    {
        self.class_name.clone()
    }

    /// The package of the component, borrowed.
    pub fn get_package(&self) -> (r: Cow<'_, str>)
        ensures
            r@ == self.pkg@,
            r is Borrowed,
    {
        Cow::Borrowed(self.pkg.as_str())
    }

    pub fn get_kind(&self) -> (r: ApkIPCKind)
        ensures
            r == ApkIPCKind::Receiver,
    {
        ApkIPCKind::Receiver
    }
}

/// How a Receiver compares with the baseline.
#[derive(Debug, Clone)]
pub struct ReceiverDiff {
    pub id: i32,
    pub receiver: i32,
    pub diff_source: i32,
    /// Present in baseline AOSP
    pub exists_in_diff: bool,
    /// Baseline AOSP exported matches device
    pub exported_matches_diff: bool,
    /// Baseline AOSP permission matches device
    pub permission_matches_diff: bool,
    /// Permission in device (if different from baseline AOSP)
    pub diff_permission: Option<String>,
}

/// The result of combining a Receiver with a ReceiverDiff
#[derive(Debug, Clone)]
pub struct DiffedReceiver {
    pub receiver: Receiver,
    /// Present in baseline AOSP
    pub exists_in_diff: bool,
    /// Baseline AOSP exported matches device
    pub exported_matches_diff: bool,
    /// Baseline AOSP permission matches device
    pub permission_matches_diff: bool,
    /// Permission in device (if different from baseline AOSP)
    pub diff_permission: Option<String>,
}

impl DiffedReceiver {
    /// The id of the receiver.
    pub fn get_id(&self) -> (r: i32)
        ensures
            r == self.receiver.id,
    {
        self.receiver.id
    }

    /// Displayed as the receiver.
    pub fn to_display_string(&self) -> (r: String)
        ensures
            r@ == self.receiver.pkg@ + "/"@ + java_form(self.receiver.class_name@),
    {
        self.receiver.to_display_string()
    }
}

impl AsRef<Receiver> for DiffedReceiver {
    fn as_ref(&self) -> (r: &Receiver)
        ensures
            *r == self.receiver,
    {
        &self.receiver
    }
}

impl Deref for DiffedReceiver {
    type Target = Receiver;

    fn deref(&self) -> (r: &Receiver)
        ensures
            *r == self.receiver,
    {
        &self.receiver
    }
}

impl From<(Receiver, ReceiverDiff)> for DiffedReceiver {
    fn from(value: (Receiver, ReceiverDiff)) -> (r: DiffedReceiver)
        ensures
            r.receiver == value.0,
            r.exists_in_diff == value.1.exists_in_diff,
            r.exported_matches_diff == value.1.exported_matches_diff,
            r.permission_matches_diff == value.1.permission_matches_diff,
            r.diff_permission == value.1.diff_permission,
    {
        let (receiver, diff) = value;
        DiffedReceiver {
            receiver,
            exists_in_diff: diff.exists_in_diff,
            exported_matches_diff: diff.exported_matches_diff,
            permission_matches_diff: diff.permission_matches_diff,
            diff_permission: diff.diff_permission,
        }
    }
}

impl FromSpecImpl<(Receiver, ReceiverDiff)> for DiffedReceiver {
    open spec fn obeys_from_spec() -> bool {
        true
    }

    open spec fn from_spec(v: (Receiver, ReceiverDiff)) -> DiffedReceiver {
        DiffedReceiver {
            receiver: v.0,
            exists_in_diff: v.1.exists_in_diff,
            exported_matches_diff: v.1.exported_matches_diff,
            permission_matches_diff: v.1.permission_matches_diff,
            diff_permission: v.1.diff_permission,
        }
    }
}

/// A service of an APK.
#[derive(Debug, Clone)]
pub struct Service {
    pub id: i32,
    pub class_name: ClassName,
    pub permission: Option<String>,
    pub exported: bool,
    pub enabled: bool,
    pub pkg: String,
    pub apk_id: i32,
    pub returns_binder: UnknownBool,
}

impl Service {
    /// The component as it is displayed: `pkg/class` with the class in Java form.
    pub fn to_display_string(&self) -> (r: String)
        ensures
            r@ == self.pkg@ + "/"@ + java_form(self.class_name@),
    {
        let mut s = owned(self.pkg.as_str());
        s.append("/");
        s.append(self.class_name.to_display_string().as_str());
        s
    }

    /// The id of the APK that declares the component.
    pub fn get_apk_id(&self) -> (r: i32)
        ensures
            r == self.apk_id,
    {
        self.apk_id
    }

    /// The permission that protects the component, if any.
    pub fn get_generic_permission(&self) -> (r: Option<&str>)
        ensures
            same_opt_text(r, self.permission),
    {
        opt_as_str(&self.permission)
    }

    pub fn is_exported(&self) -> (r: bool)
        ensures
            r == self.exported,
    {
        self.exported
    }

    pub fn is_enabled(&self) -> (r: bool)
        ensures
            r == self.enabled,
    {
        self.enabled
    }

    /// The class of the component.
    pub fn get_class_name(&self) -> (r: ClassName)
        ensures
            r == self.class_name,
    {
        self.class_name.clone()
    }

    /// The package of the component, borrowed.
    pub fn get_package(&self) -> (r: Cow<'_, str>)
        ensures
            r@ == self.pkg@,
            r is Borrowed,
    {
        Cow::Borrowed(self.pkg.as_str())
    }

    pub fn get_kind(&self) -> (r: ApkIPCKind)
        ensures
            r == ApkIPCKind::Service,
    {
        ApkIPCKind::Service
    }
}

/// How a Service compares with the baseline.
#[derive(Debug, Clone)]
pub struct ServiceDiff {
    pub id: i32,
    pub service: i32,
    pub diff_source: i32,
    /// Present in baseline AOSP
    pub exists_in_diff: bool,
    /// Baseline AOSP exported matches device
    pub exported_matches_diff: bool,
    /// Baseline AOSP permission matches device
    pub permission_matches_diff: bool,
    /// Permission in device (if different from baseline AOSP)
    pub diff_permission: Option<String>,
}

/// The result of combining a Service with a ServiceDiff
#[derive(Debug, Clone)]
pub struct DiffedService {
    pub service: Service,
    /// Present in baseline AOSP
    pub exists_in_diff: bool,
    /// Baseline AOSP exported matches device
    pub exported_matches_diff: bool,
    /// Baseline AOSP permission matches device
    pub permission_matches_diff: bool,
    /// Permission in device (if different from baseline AOSP)
    pub diff_permission: Option<String>,
}

impl DiffedService {
    /// The id of the service.
    pub fn get_id(&self) -> (r: i32)
        ensures
            r == self.service.id,
    {
        self.service.id
    }

    /// Displayed as the service.
    pub fn to_display_string(&self) -> (r: String)
        ensures
            r@ == self.service.pkg@ + "/"@ + java_form(self.service.class_name@),
    {
        self.service.to_display_string()
    }
}

impl AsRef<Service> for DiffedService {
    fn as_ref(&self) -> (r: &Service)
        ensures
            *r == self.service,
    {
        &self.service
    }
}

impl Deref for DiffedService {
    type Target = Service;

    fn deref(&self) -> (r: &Service)
        ensures
            *r == self.service,
    {
        &self.service
    }
}

impl From<(Service, ServiceDiff)> for DiffedService {
    fn from(value: (Service, ServiceDiff)) -> (r: DiffedService)
        ensures
            r.service == value.0,
            r.exists_in_diff == value.1.exists_in_diff,
            r.exported_matches_diff == value.1.exported_matches_diff,
            r.permission_matches_diff == value.1.permission_matches_diff,
            r.diff_permission == value.1.diff_permission,
    {
        let (service, diff) = value;
        DiffedService {
            service,
            exists_in_diff: diff.exists_in_diff,
            exported_matches_diff: diff.exported_matches_diff,
            permission_matches_diff: diff.permission_matches_diff,
            diff_permission: diff.diff_permission,
        }
    }
}

impl FromSpecImpl<(Service, ServiceDiff)> for DiffedService {
    open spec fn obeys_from_spec() -> bool {
        true
    }

    open spec fn from_spec(v: (Service, ServiceDiff)) -> DiffedService {
        DiffedService {
            service: v.0,
            exists_in_diff: v.1.exists_in_diff,
            exported_matches_diff: v.1.exported_matches_diff,
            permission_matches_diff: v.1.permission_matches_diff,
            diff_permission: v.1.diff_permission,
        }
    }
}

/// An activity of an APK.
#[derive(Debug, Clone)]
pub struct Activity {
    pub id: i32,
    pub class_name: ClassName,
    pub permission: Option<String>,
    pub exported: bool,
    pub enabled: bool,
    pub pkg: String,
    pub apk_id: i32,
}

impl Activity {
    /// The component as it is displayed: `pkg/class` with the class in Java form.
    pub fn to_display_string(&self) -> (r: String)
        ensures
            r@ == self.pkg@ + "/"@ + java_form(self.class_name@),
    {
        let mut s = owned(self.pkg.as_str());
        s.append("/");
        s.append(self.class_name.to_display_string().as_str());
        s
    }

    /// The id of the APK that declares the component.
    pub fn get_apk_id(&self) -> (r: i32)
        ensures
            r == self.apk_id,
    {
        self.apk_id
    }

    /// The permission that protects the component, if any.
    pub fn get_generic_permission(&self) -> (r: Option<&str>)
        ensures
            same_opt_text(r, self.permission),
    {
        opt_as_str(&self.permission)
    }

    pub fn is_exported(&self) -> (r: bool)
        ensures
            r == self.exported,
    {
        self.exported
    }

    pub fn is_enabled(&self) -> (r: bool)
        ensures
            r == self.enabled,
    {
        self.enabled
    }

    /// The class of the component.
    pub fn get_class_name(&self) -> (r: ClassName)
        ensures
            r == self.class_name,
    {
        self.class_name.clone()
    }

    /// The package of the component, borrowed.
    pub fn get_package(&self) -> (r: Cow<'_, str>)
        ensures
            r@ == self.pkg@,
            r is Borrowed,
    {
        Cow::Borrowed(self.pkg.as_str())
    }

    pub fn get_kind(&self) -> (r: ApkIPCKind)
        ensures
            r == ApkIPCKind::Activity,
    {
        ApkIPCKind::Activity
    }
}

/// How an Activity compares with the baseline.
#[derive(Debug, Clone)]
pub struct ActivityDiff {
    pub id: i32,
    pub activity: i32,
    pub diff_source: i32,
    /// Present in baseline AOSP
    pub exists_in_diff: bool,
    /// Baseline AOSP exported matches device
    pub exported_matches_diff: bool,
    /// Baseline AOSP permission matches device
    pub permission_matches_diff: bool,
    /// Permission in device (if different from baseline AOSP)
    pub diff_permission: Option<String>,
}

/// The result of combining an Activity with an ActivityDiff
#[derive(Debug, Clone)]
pub struct DiffedActivity {
    pub activity: Activity,
    /// Present in baseline AOSP
    pub exists_in_diff: bool,
    /// Baseline AOSP exported matches device
    pub exported_matches_diff: bool,
    /// Baseline AOSP permission matches device
    pub permission_matches_diff: bool,
    /// Permission in device (if different from baseline AOSP)
    pub diff_permission: Option<String>,
}

impl DiffedActivity {
    /// The id of the activity.
    pub fn get_id(&self) -> (r: i32)
        ensures
            r == self.activity.id,
    {
        self.activity.id
    }

    /// Displayed as the activity.
    pub fn to_display_string(&self) -> (r: String)
        ensures
            r@ == self.activity.pkg@ + "/"@ + java_form(self.activity.class_name@),
    {
        self.activity.to_display_string()
    }
}

impl AsRef<Activity> for DiffedActivity {
    fn as_ref(&self) -> (r: &Activity)
        ensures
            *r == self.activity,
    {
        &self.activity
    }
}

impl Deref for DiffedActivity {
    type Target = Activity;

    fn deref(&self) -> (r: &Activity)
        ensures
            *r == self.activity,
    {
        &self.activity
    }
}

impl From<(Activity, ActivityDiff)> for DiffedActivity {
    fn from(value: (Activity, ActivityDiff)) -> (r: DiffedActivity)
        ensures
            r.activity == value.0,
            r.exists_in_diff == value.1.exists_in_diff,
            r.exported_matches_diff == value.1.exported_matches_diff,
            r.permission_matches_diff == value.1.permission_matches_diff,
            r.diff_permission == value.1.diff_permission,
    {
        let (activity, diff) = value;
        DiffedActivity {
            activity,
            exists_in_diff: diff.exists_in_diff,
            exported_matches_diff: diff.exported_matches_diff,
            permission_matches_diff: diff.permission_matches_diff,
            diff_permission: diff.diff_permission,
        }
    }
}

impl FromSpecImpl<(Activity, ActivityDiff)> for DiffedActivity {
    open spec fn obeys_from_spec() -> bool {
        true
    }

    open spec fn from_spec(v: (Activity, ActivityDiff)) -> DiffedActivity {
        DiffedActivity {
            activity: v.0,
            exists_in_diff: v.1.exists_in_diff,
            exported_matches_diff: v.1.exported_matches_diff,
            permission_matches_diff: v.1.permission_matches_diff,
            diff_permission: v.1.diff_permission,
        }
    }
}

/// A content provider of an APK.
#[derive(Debug, Clone)]
pub struct Provider {
    pub id: i32,
    pub name: String,
    /// A colon-separated list of authorities.
    pub authorities: String,
    pub permission: Option<String>,
    pub grant_uri_permissions: bool,
    pub read_permission: Option<String>,
    pub write_permission: Option<String>,
    pub exported: bool,
    pub enabled: bool,
    pub apk_id: i32,
}

impl Provider {
    /// The id of the APK that declares the provider.
    pub fn get_apk_id(&self) -> (r: i32)
        ensures
            r == self.apk_id,
    {
        self.apk_id
    }

    pub fn is_exported(&self) -> (r: bool)
        ensures
            r == self.exported,
    {
        self.exported
    }

    /// The permission that protects the provider, if any.
    pub fn get_generic_permission(&self) -> (r: Option<&str>)
        ensures
            same_opt_text(r, self.permission),
    {
        opt_as_str(&self.permission)
    }

    /// The permission asked for reading, for writing, or in general.
    pub fn get_permission_for_mode(&self, mode: PermissionMode) -> (r: Option<&str>)
        ensures
            same_opt_text(
                r,
                match mode {
                    PermissionMode::Read => self.read_permission,
                    PermissionMode::Write => self.write_permission,
                    PermissionMode::Generic => self.permission,
                },
            ),
    {
        match mode {
            PermissionMode::Read => opt_as_str(&self.read_permission),
            PermissionMode::Write => opt_as_str(&self.write_permission),
            PermissionMode::Generic => self.get_generic_permission(),
        }
    }

    pub fn is_enabled(&self) -> (r: bool)
        ensures
            r == self.enabled,
    {
        self.enabled
    }

    /// The class of the provider, named by `name`.
    pub fn get_class_name(&self) -> (r: ClassName)
        ensures
            r@ == java_form(self.name@),
    {
        ClassName::from(&self.name)
    }

    /// The package of the provider: the Java package of its class.
    pub fn get_package(&self) -> (r: Cow<'_, str>)
        ensures
            r@ == java_package(java_form(self.name@)),
            r is Owned,
    {
        let class_name = self.get_class_name();
        let pkg = class_name.pkg_as_java();
        Cow::Owned(owned(cow_as_str(&pkg)))
    }

    pub fn get_kind(&self) -> (r: ApkIPCKind)
        ensures
            r == ApkIPCKind::Provider,
    {
        ApkIPCKind::Provider
    }

    /// The provider as it is displayed: `name [authorities]`.
    pub fn to_display_string(&self) -> (r: String)
        ensures
            r@ == self.name@ + " ["@ + self.authorities@ + "]"@,
    {
        let mut s = owned(self.name.as_str());
        s.append(" [");
        s.append(self.authorities.as_str());
        s.append("]");
        s
    }

    /// The authorities of the provider, which are stored as a colon-separated list.
    pub fn get_authorities(&self) -> (r: Vec<&str>)
        ensures
            r@.map_values(|x: &str| x@) == split_on(self.authorities@, ':'),
    {
        split_char(self.authorities.as_str(), ':')
    }
}

/// How a provider compares with the baseline.
#[derive(Debug, Clone)]
pub struct ProviderDiff {
    pub id: i32,
    pub provider: i32,
    pub diff_source: i32,
    /// Present in baseline AOSP
    pub exists_in_diff: bool,
    /// Baseline AOSP exported matches device
    pub exported_matches_diff: bool,
    /// Baseline AOSP permission matches device
    pub permission_matches_diff: bool,
    /// Permission in device (if different from baseline AOSP)
    pub diff_permission: Option<String>,
    /// Baseline AOSP write permission matches device
    pub write_permission_matches_diff: bool,
    /// Write permission in device (if different from baseline AOSP)
    pub diff_write_permission: Option<String>,
    /// Baseline AOSP read permission matches device
    pub read_permission_matches_diff: bool,
    /// Read permission in device (if different from baseline AOSP)
    pub diff_read_permission: Option<String>,
}

/// The result of combining a Provider with a ProviderDiff
#[derive(Debug, Clone)]
pub struct DiffedProvider {
    pub provider: Provider,
    /// Present in baseline AOSP
    pub exists_in_diff: bool,
    /// Baseline AOSP exported matches device
    pub exported_matches_diff: bool,
    /// Baseline AOSP permission matches device
    pub permission_matches_diff: bool,
    /// Permission in device (if different from baseline AOSP)
    pub diff_permission: Option<String>,
    /// Baseline AOSP write permission matches device
    pub write_permission_matches_diff: bool,
    /// Write permission in device (if different from baseline AOSP)
    pub diff_write_permission: Option<String>,
    /// Baseline AOSP read permission matches device
    pub read_permission_matches_diff: bool,
    /// Read permission in device (if different from baseline AOSP)
    pub diff_read_permission: Option<String>,
}

impl DiffedProvider {
    /// The id of the provider.
    pub fn get_id(&self) -> (r: i32)
        ensures
            r == self.provider.id,
    {
        self.provider.id
    }

    /// Displayed as the provider.
    pub fn to_display_string(&self) -> (r: String)
        ensures
            r@ == self.provider.name@ + " ["@ + self.provider.authorities@ + "]"@,
    {
        self.provider.to_display_string()
    }
}

impl AsRef<Provider> for DiffedProvider {
    fn as_ref(&self) -> (r: &Provider)
        ensures
            *r == self.provider,
    {
        &self.provider
    }
}

impl Deref for DiffedProvider {
    type Target = Provider;

    fn deref(&self) -> (r: &Provider)
        ensures
            *r == self.provider,
    {
        &self.provider
    }
}

impl From<(Provider, ProviderDiff)> for DiffedProvider {
    fn from(value: (Provider, ProviderDiff)) -> (r: DiffedProvider)
        ensures
            r.provider == value.0,
            r.exists_in_diff == value.1.exists_in_diff,
            r.exported_matches_diff == value.1.exported_matches_diff,
            r.permission_matches_diff == value.1.permission_matches_diff,
            r.diff_permission == value.1.diff_permission,
            r.read_permission_matches_diff == value.1.read_permission_matches_diff,
            r.diff_read_permission == value.1.diff_read_permission,
            r.write_permission_matches_diff == value.1.write_permission_matches_diff,
            r.diff_write_permission == value.1.diff_write_permission,
    {
        let (provider, diff) = value;
        DiffedProvider {
            provider,
            exists_in_diff: diff.exists_in_diff,
            exported_matches_diff: diff.exported_matches_diff,
            permission_matches_diff: diff.permission_matches_diff,
            diff_permission: diff.diff_permission,
            read_permission_matches_diff: diff.read_permission_matches_diff,
            diff_read_permission: diff.diff_read_permission,
            write_permission_matches_diff: diff.write_permission_matches_diff,
            diff_write_permission: diff.diff_write_permission,
        }
    }
}

impl FromSpecImpl<(Provider, ProviderDiff)> for DiffedProvider {
    open spec fn obeys_from_spec() -> bool {
        true
    }

    open spec fn from_spec(v: (Provider, ProviderDiff)) -> DiffedProvider {
        DiffedProvider {
            provider: v.0,
            exists_in_diff: v.1.exists_in_diff,
            exported_matches_diff: v.1.exported_matches_diff,
            permission_matches_diff: v.1.permission_matches_diff,
            diff_permission: v.1.diff_permission,
            read_permission_matches_diff: v.1.read_permission_matches_diff,
            diff_read_permission: v.1.diff_read_permission,
            write_permission_matches_diff: v.1.write_permission_matches_diff,
            diff_write_permission: v.1.diff_write_permission,
        }
    }
}

/// A class that implements a system service, and where it comes from: the
/// framework, or the squashed path of an APK.
#[derive(Debug, Clone)]
pub struct SystemServiceImpl {
    pub id: i32,
    pub system_service_id: i32,
    pub source: String,
    pub class_name: ClassName,
}

impl SystemServiceImpl {
    /// Whether the implementation comes from the framework.
    pub fn is_from_framework(&self) -> (r: bool)
        ensures
            r == (self.source@ == FRAMEWORK_SOURCE@),
    {
        str_eq(self.source.as_str(), FRAMEWORK_SOURCE)
    }

    /// Whether the implementation comes from an APK.
    #[inline]
    pub fn is_from_apk(&self) -> (r: bool)
        ensures
            r == (self.source@ != FRAMEWORK_SOURCE@),
    {
        !self.is_from_framework()
    }

    /// The device path of the APK that the source names in squashed form.
    pub fn apk_path(&self) -> (r: DevicePath)
        ensures
            r.squashed_view() == self.source@,
            r@ == raw_form(self.source@),
    {
        DevicePath::from_squashed(self.source.as_str())
    }

    /// The implementation as it is displayed: `class in source`.
    pub fn to_display_string(&self) -> (r: String)
        ensures
            r@ == java_form(self.class_name@) + " in "@ + self.source@,
    {
        let mut s = self.class_name.to_display_string();
        s.append(" in ");
        s.append(self.source.as_str());
        s
    }
}

/// A method of a system service.
#[derive(Debug, Clone)]
pub struct SystemServiceMethod {
    pub id: i32,
    pub system_service_id: i32,
    pub transaction_id: i32,
    pub name: String,
    pub signature: Option<String>,
    pub return_type: Option<String>,
    pub smalisa_hash: Option<String>,
}

impl SystemServiceMethod {
    /// The signature if there is one, `?` otherwise.
    pub fn get_signature(&self) -> (r: &str)
        ensures
            r@ == text_or_question(self.signature),
            self.signature matches Some(s) ==> r@ == s@,
            self.signature is None ==> r@ == "?"@,
    {
        match &self.signature {
            Some(s) => s.as_str(),
            None => "?",
        }
    }

    /// The return type if there is one, `?` otherwise.
    pub fn get_return_type(&self) -> (r: &str)
        ensures
            r@ == text_or_question(self.return_type),
            self.return_type matches Some(s) ==> r@ == s@,
            self.return_type is None ==> r@ == "?"@,
    {
        match &self.return_type {
            Some(s) => s.as_str(),
            None => "?",
        }
    }

    /// The method as it is displayed: `name(signature) -> return_type`.
    pub fn to_display_string(&self) -> (r: String)
        ensures
            r@ == self.name@ + "("@ + text_or_question(self.signature) + ") -> "@ + text_or_question(
                self.return_type,
            ),
    {
        let mut s = owned(self.name.as_str());
        s.append("(");
        s.append(self.get_signature());
        s.append(") -> ");
        s.append(self.get_return_type());
        s
    }
}

/// How a system service method compares with the baseline.
#[derive(Debug, Clone)]
pub struct SystemServiceMethodDiff {
    pub id: i32,
    pub method: i32,
    pub diff_source: i32,
    /// Present in baseline AOSP
    pub exists_in_diff: bool,
    /// Baseline AOSP hash matches device
    pub hash_matches_diff: UnknownBool,
}

/// The result of combining a SystemServiceMethod with a SystemServiceMethodDiff
#[derive(Debug, Clone)]
pub struct DiffedSystemServiceMethod {
    pub method: SystemServiceMethod,
    /// Present in baseline AOSP
    pub exists_in_diff: bool,
    /// Baseline AOSP hash matches device
    pub hash_matches_diff: UnknownBool,
}

impl DiffedSystemServiceMethod {
    /// The id of the method.
    pub fn get_id(&self) -> (r: i32)
        ensures
            r == self.method.id,
    {
        self.method.id
    }

    /// Displayed as the method.
    pub fn to_display_string(&self) -> (r: String)
        ensures
            r@ == self.method.name@ + "("@ + text_or_question(self.method.signature) + ") -> "@
                + text_or_question(self.method.return_type),
    {
        self.method.to_display_string()
    }
}

impl AsRef<SystemServiceMethod> for DiffedSystemServiceMethod {
    fn as_ref(&self) -> (r: &SystemServiceMethod)
        ensures
            *r == self.method,
    {
        &self.method
    }
}

impl Deref for DiffedSystemServiceMethod {
    type Target = SystemServiceMethod;

    fn deref(&self) -> (r: &SystemServiceMethod)
        ensures
            *r == self.method,
    {
        &self.method
    }
}

impl From<(SystemServiceMethod, SystemServiceMethodDiff)> for DiffedSystemServiceMethod {
    fn from(value: (SystemServiceMethod, SystemServiceMethodDiff)) -> (r: DiffedSystemServiceMethod)
        ensures
            r.method == value.0,
            r.exists_in_diff == value.1.exists_in_diff,
            r.hash_matches_diff == value.1.hash_matches_diff,
    {
        let (method, diff) = value;
        DiffedSystemServiceMethod {
            method,
            exists_in_diff: diff.exists_in_diff,
            hash_matches_diff: diff.hash_matches_diff,
        }
    }
}

impl FromSpecImpl<(SystemServiceMethod, SystemServiceMethodDiff)> for DiffedSystemServiceMethod {
    open spec fn obeys_from_spec() -> bool {
        true
    }

    open spec fn from_spec(v: (SystemServiceMethod, SystemServiceMethodDiff)) -> DiffedSystemServiceMethod {
        DiffedSystemServiceMethod {
            method: v.0,
            exists_in_diff: v.1.exists_in_diff,
            hash_matches_diff: v.1.hash_matches_diff,
        }
    }
}

/// The text of an optional interface name: its stored name, or nothing.
pub open spec fn iface_text(iface: Option<ClassName>) -> Seq<char> {
    match iface {
        Some(c) => c@,
        None => Seq::empty(),
    }
}

/// A system service registered on the device.
#[derive(Debug, Clone)]
pub struct SystemService {
    pub id: i32,
    pub name: String,
    /// The Java interface that clients interact with. May be null if the
    /// interface is inaccessible (i.e. hidden by selinux)
    pub iface: Option<ClassName>,
    /// Whether a binder interface can be obtained.
    pub can_get_binder: UnknownBool,
}

impl SystemService {
    pub fn has_iface(&self) -> (r: bool)
        ensures
            r == self.iface is Some,
    {
        self.iface.is_some()
    }

    /// The service as it is displayed: `name [iface]`, with an empty
    /// interface when there is none.
    pub fn to_display_string(&self) -> (r: String)
        ensures
            r@ == self.name@ + " ["@ + iface_text(self.iface) + "]"@,
    {
        let mut s = owned(self.name.as_str());
        s.append(" [");
        match &self.iface {
            Some(c) => s.append(c.as_str()),
            None => {},
        }
        s.append("]");
        s
    }
}

/// How a system service compares with the baseline.
#[derive(Debug, Clone)]
pub struct SystemServiceDiff {
    pub id: i32,
    pub system_service: i32,
    pub diff_source: i32,
    /// Present in baseline AOSP
    pub exists_in_diff: bool,
}

/// The result of combining a SystemService with a SystemServiceDiff
#[derive(Debug, Clone)]
pub struct DiffedSystemService {
    pub service: SystemService,
    /// Present in baseline AOSP
    pub exists_in_diff: bool,
}

impl DiffedSystemService {
    /// The id of the service.
    pub fn get_id(&self) -> (r: i32)
        ensures
            r == self.service.id,
    {
        self.service.id
    }

    /// Displayed as the service.
    pub fn to_display_string(&self) -> (r: String)
        ensures
            r@ == self.service.name@ + " ["@ + iface_text(self.service.iface) + "]"@,
    {
        self.service.to_display_string()
    }
}

impl AsRef<SystemService> for DiffedSystemService {
    fn as_ref(&self) -> (r: &SystemService)
        ensures
            *r == self.service,
    {
        &self.service
    }
}

impl Deref for DiffedSystemService {
    type Target = SystemService;

    fn deref(&self) -> (r: &SystemService)
        ensures
            *r == self.service,
    {
        &self.service
    }
}

impl From<(SystemService, SystemServiceDiff)> for DiffedSystemService {
    fn from(value: (SystemService, SystemServiceDiff)) -> (r: DiffedSystemService)
        ensures
            r.service == value.0,
            r.exists_in_diff == value.1.exists_in_diff,
    {
        let (service, diff) = value;
        DiffedSystemService { service, exists_in_diff: diff.exists_in_diff }
    }
}

impl FromSpecImpl<(SystemService, SystemServiceDiff)> for DiffedSystemService {
    open spec fn obeys_from_spec() -> bool {
        true
    }

    open spec fn from_spec(v: (SystemService, SystemServiceDiff)) -> DiffedSystemService {
        DiffedSystemService { service: v.0, exists_in_diff: v.1.exists_in_diff }
    }
}

/// A baseline that the device is compared with.
#[derive(Debug, Clone)]
pub struct DiffSource {
    pub id: i32,
    pub name: String,
}

impl DiffSource {
    /// Displayed as its name.
    pub fn to_display_string(&self) -> (r: String)
        ensures
            r@ == self.name@,
    {
        owned(self.name.as_str())
    }
}

/// The outcome of fuzzing one method of a system service.
#[derive(Debug, Clone)]
pub struct FuzzResult {
    pub id: i32,
    pub service_name: String,
    pub method_name: String,
    pub exception_thrown: bool,
    pub security_exception_thrown: bool,
}

/// Combining a Permission row with its diff keeps the row and copies each field
/// of the diff into the field of the same name.
pub proof fn lemma_diffed_permission_copies_diff(v: (Permission, PermissionDiff))
    ensures
        ({
            let d = <DiffedPermission as FromSpec<(Permission, PermissionDiff)>>::from_spec(v);
            &&& d.permission == v.0
            &&& d.exists_in_diff == v.1.exists_in_diff
            &&& d.protection_level_matches_diff == v.1.protection_level_matches_diff
            &&& d.diff_protection_level == v.1.diff_protection_level
        }),
{
}

/// Combining a Apk row with its diff keeps the row and copies each field
/// of the diff into the field of the same name.
pub proof fn lemma_diffed_apk_copies_diff(v: (Apk, ApkDiff))
    ensures
        ({
            let d = <DiffedApk as FromSpec<(Apk, ApkDiff)>>::from_spec(v);
            &&& d.apk == v.0
            &&& d.exists_in_diff == v.1.exists_in_diff
        }),
{
}

/// Combining a Receiver row with its diff keeps the row and copies each field
/// of the diff into the field of the same name.
pub proof fn lemma_diffed_receiver_copies_diff(v: (Receiver, ReceiverDiff))
    ensures
        ({
            let d = <DiffedReceiver as FromSpec<(Receiver, ReceiverDiff)>>::from_spec(v);
            &&& d.receiver == v.0
            &&& d.exists_in_diff == v.1.exists_in_diff
            &&& d.exported_matches_diff == v.1.exported_matches_diff
            &&& d.permission_matches_diff == v.1.permission_matches_diff
            &&& d.diff_permission == v.1.diff_permission
        }),
{
}

/// Combining a Service row with its diff keeps the row and copies each field
/// of the diff into the field of the same name.
pub proof fn lemma_diffed_service_copies_diff(v: (Service, ServiceDiff))
    ensures
        ({
            let d = <DiffedService as FromSpec<(Service, ServiceDiff)>>::from_spec(v);
            &&& d.service == v.0
            &&& d.exists_in_diff == v.1.exists_in_diff
            &&& d.exported_matches_diff == v.1.exported_matches_diff
            &&& d.permission_matches_diff == v.1.permission_matches_diff
            &&& d.diff_permission == v.1.diff_permission
        }),
{
}

/// Combining a Activity row with its diff keeps the row and copies each field
/// of the diff into the field of the same name.
pub proof fn lemma_diffed_activity_copies_diff(v: (Activity, ActivityDiff))
    ensures
        ({
            let d = <DiffedActivity as FromSpec<(Activity, ActivityDiff)>>::from_spec(v);
            &&& d.activity == v.0
            &&& d.exists_in_diff == v.1.exists_in_diff
            &&& d.exported_matches_diff == v.1.exported_matches_diff
            &&& d.permission_matches_diff == v.1.permission_matches_diff
            &&& d.diff_permission == v.1.diff_permission
        }),
{
}

/// Combining a Provider row with its diff keeps the row and copies each field
/// of the diff into the field of the same name.
pub proof fn lemma_diffed_provider_copies_diff(v: (Provider, ProviderDiff))
    ensures
        ({
            let d = <DiffedProvider as FromSpec<(Provider, ProviderDiff)>>::from_spec(v);
            &&& d.provider == v.0
            &&& d.exists_in_diff == v.1.exists_in_diff
            &&& d.exported_matches_diff == v.1.exported_matches_diff
            &&& d.permission_matches_diff == v.1.permission_matches_diff
            &&& d.diff_permission == v.1.diff_permission
            &&& d.read_permission_matches_diff == v.1.read_permission_matches_diff
            &&& d.diff_read_permission == v.1.diff_read_permission
            &&& d.write_permission_matches_diff == v.1.write_permission_matches_diff
            &&& d.diff_write_permission == v.1.diff_write_permission
        }),
{
}

/// Combining a SystemServiceMethod row with its diff keeps the row and copies each field
/// of the diff into the field of the same name.
pub proof fn lemma_diffed_system_service_method_copies_diff(v: (SystemServiceMethod, SystemServiceMethodDiff))
    ensures
        ({
            let d = <DiffedSystemServiceMethod as FromSpec<(SystemServiceMethod, SystemServiceMethodDiff)>>::from_spec(v);
            &&& d.method == v.0
            &&& d.exists_in_diff == v.1.exists_in_diff
            &&& d.hash_matches_diff == v.1.hash_matches_diff
        }),
{
}

/// Combining a SystemService row with its diff keeps the row and copies each field
/// of the diff into the field of the same name.
pub proof fn lemma_diffed_system_service_copies_diff(v: (SystemService, SystemServiceDiff))
    ensures
        ({
            let d = <DiffedSystemService as FromSpec<(SystemService, SystemServiceDiff)>>::from_spec(v);
            &&& d.service == v.0
            &&& d.exists_in_diff == v.1.exists_in_diff
        }),
{
}

/// A present text is shown as it is, whatever it holds (the empty text
/// included); `?` stands only for a missing one.
pub proof fn lemma_text_or_question(o: Option<String>)
    ensures
        o matches Some(s) ==> text_or_question(o) == s@,
        o is None ==> text_or_question(o) == "?"@,
        o matches Some(s) ==> text_or_question(o).len() == s@.len(),
{
}

/// An APK is decompiled under `framework` exactly when its file name is
/// `framework-res.apk`, and under `decompiled` otherwise.
pub proof fn lemma_base_dir_name(device_path: Seq<char>)
    ensures
        base_dir_name_of(device_path) == "framework"@ <==> file_name_of(device_path)
            == "framework-res.apk"@,
        base_dir_name_of(device_path) == "decompiled"@ <==> file_name_of(device_path)
            != "framework-res.apk"@,
{
    reveal_strlit("framework");
    reveal_strlit("decompiled");
    assert("framework"@ != "decompiled"@) by {
        assert("framework"@[0] != "decompiled"@[0]);
    }
}

/// A present interface shows as its stored name; a missing one shows as
/// nothing.
pub proof fn lemma_iface_text(iface: Option<ClassName>)
    ensures
        iface matches Some(c) ==> iface_text(iface) == c@,
        iface is None ==> iface_text(iface).len() == 0,
{
}

/// A borrowed text stands for an optional string exactly when both are
/// present with the same characters or both are missing.
pub proof fn lemma_same_opt_text(r: Option<&str>, o: Option<String>)
    ensures
        same_opt_text(r, o) <==> (r is Some == o is Some && (r matches Some(x) ==> x@ == o->0@)),
{
}

} // verus!
