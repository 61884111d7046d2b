//! Kinds shared by the IPC components of an APK.

use vstd::prelude::*;

verus! {

/// The kind of an IPC component of an APK.
#[derive(PartialEq, Eq, Structural, Debug, Clone, Copy)]
pub enum ApkIPCKind {
    Receiver,
    Activity,
    Service,
    Provider,
}

/// Which permission of a component is asked for.
#[derive(PartialEq, Eq, Structural, Debug, Clone, Copy)]
pub enum PermissionMode {
    Read,
    Write,
    Generic,
}

} // verus!
