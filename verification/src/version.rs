//! Versions of stored data, and which version of the program may take over
//! data that another version wrote.

use vstd::prelude::*;

verus! {

/// A version number of three parts.
#[derive(Clone, Copy, Debug, PartialEq, Eq, Structural)]
pub struct StorageVersion {
    pub major: u64,
    pub minor: u64,
    pub patch: u64,
}

impl StorageVersion {
    /// Data stored by version `self` can be taken over by version `app`: the
    /// two agree in their major and minor parts, and `app` is at most one
    /// patch ahead.
    pub open spec fn upgradable_to(self, app: StorageVersion) -> bool {
        self.major == app.major && self.minor == app.minor && app.patch <= self.patch + 1
    }

    /// The version with the given parts.
    pub fn new(major: u64, minor: u64, patch: u64) -> (r: Self)
        ensures
            r == (StorageVersion { major, minor, patch }),
    {
        StorageVersion { major, minor, patch }
    }
}

/// Whether data stored by version `stored` can be taken over by version
/// `app`. Versions that differ in their major or minor part are not
/// compatible, nor are versions more than one patch apart.
pub fn can_upgrade_storage(stored: &StorageVersion, app: &StorageVersion) -> (r: bool)
    ensures
        r == stored.upgradable_to(*app),
{
    if stored.major != app.major {
        return false;
    }
    if stored.minor != app.minor {
        return false;
    }
    if app.patch > stored.patch && app.patch - stored.patch > 1 {
        return false;
    }
    true
}

} // verus!
