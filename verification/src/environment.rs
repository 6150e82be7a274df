//! The root paths the library computes against. The surrounding program
//! resolves them once (from the system layout or from a test double rooted
//! anywhere) and hands them in as plain strings; every path the library
//! derives from them is stated exactly in its contract.

use vstd::prelude::*;

verus! {

/// The five path-providing capabilities: the kernel device-tree root, the
/// parent-device registry root, the persisted-definition root, and the two
/// hook-script directories.
pub struct EnvPaths {
    pub mdev_base: String,
    pub parent_base: String,
    pub persist_base: String,
    pub callout_script_base: String,
    pub callout_notification_base: String,
}

impl EnvPaths {
    pub fn new(
        mdev_base: String,
        parent_base: String,
        persist_base: String,
        callout_script_base: String,
        callout_notification_base: String,
    ) -> (r: EnvPaths)
        ensures
            r.mdev_base == mdev_base,
            r.parent_base == parent_base,
            r.persist_base == persist_base,
            r.callout_script_base == callout_script_base,
            r.callout_notification_base == callout_notification_base,
    {
        EnvPaths { mdev_base, parent_base, persist_base, callout_script_base, callout_notification_base }
    }

    /// A field-wise copy, equal to the original.
    pub fn duplicate(&self) -> (r: EnvPaths)
        ensures
            r == *self,
    {
        let r = EnvPaths {
            mdev_base: self.mdev_base.clone(),
            parent_base: self.parent_base.clone(),
            persist_base: self.persist_base.clone(),
            callout_script_base: self.callout_script_base.clone(),
            callout_notification_base: self.callout_notification_base.clone(),
        };
        r
    }
}

} // verus!
