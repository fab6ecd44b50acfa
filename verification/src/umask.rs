//! The file-creation mask of the process: setting it for a while and putting
//! it back.
//!
//! Setting the mask is one call that installs the new mask and hands back the
//! old one. A switch names the mask to install for the work, takes note of
//! what the installation handed back, and names that as the mask to install
//! when the work is over.

use vstd::prelude::*;

verus! {

/// The permission bits. A file-creation mask holds no other bit.
pub const PERMISSION_BITS: u32 = 0o777;

/// The mask that is in force after `mask` was asked for: its permission bits.
pub open spec fn installed(mask: u32) -> u32 {
    mask & 0o777
}

/// Setting the mask to `mask` when it is `current`: the mask afterwards, and
/// the mask handed back.
pub open spec fn set_mask(current: u32, mask: u32) -> (u32, u32) {
    (installed(mask), current)
}

/// A file-creation mask set for a while.
///
/// The steps are: install `enter_mask()`; tell the switch with `entered`
/// what that handed back; do the work; install `restore_mask()`, whether the
/// work succeeded or not.
#[derive(Clone, Copy, Debug, PartialEq, Eq)]
pub struct UmaskSwitch {
    enter: u32,
    saved: Option<u32>,
}

impl UmaskSwitch {
    #[verifier::type_invariant]
    spec fn inv(self) -> bool {
        self.enter <= 0o777
    }

    /// The mask that the work runs under.
    pub closed spec fn enter(&self) -> u32 {
        self.enter
    }

    /// The mask to come back to, once it is known.
    pub closed spec fn saved(&self) -> Option<u32> {
        self.saved
    }

    /// Plans work under the permission bits of `mask`.
    pub(crate) fn new(mask: u32) -> (switch: UmaskSwitch)
        ensures
            switch.enter() == installed(mask),
            switch.saved() is None,
    {
        assert(mask & 0o777 <= 0o777) by (bit_vector);
        UmaskSwitch { enter: mask & PERMISSION_BITS, saved: None }
    }

    /// The mask to install for the work. It holds permission bits only, so
    /// that it is in force exactly as it is installed.
    pub fn enter_mask(&self) -> (enter: u32)
        ensures
            enter == self.enter(),
            enter <= 0o777,
            installed(enter) == enter,
    {
        proof {
            use_type_invariant(self);
            let enter = self.enter;
            assert(enter <= 0o777 ==> enter & 0o777 == enter) by (bit_vector);
        }
        self.enter
    }

    /// Takes note of the mask that the installation of `enter_mask()` handed
    /// back. Only the first note counts: what a later installation hands
    /// back is no longer the mask from before the switch.
    pub fn entered(&mut self, previous: u32)
        ensures
            final(self).enter() == old(self).enter(),
            final(self).saved() == match old(self).saved() {
                Some(saved) => Some(saved),
                None => Some(previous),
            },
    {
        proof {
            use_type_invariant(&*self);
        }
        if self.saved.is_none() {
            self.saved = Some(previous);
        }
    }

    /// The mask to install when the work is over: the one that was in force
    /// before; none as long as `entered` has not been told it. Installing it
    /// brings that mask back whatever the mask is then.
    pub fn restore_mask(&self) -> (restore: Option<u32>)
        ensures
            restore == self.saved(),
            restore matches Some(mask) ==> forall|during: u32|
                mask <= 0o777 ==> (#[trigger] set_mask(during, mask)).0 == mask,
    {
        proof {
            if let Some(saved) = self.saved {
                assert(saved <= 0o777 ==> saved & 0o777 == saved) by (bit_vector);
            }
        }
        self.saved
    }
}

/// Running work under another mask and coming back leaves the mask of the
/// process exactly as it was, whatever the work did to it in between: the
/// installation for the work hands back the mask from before, and installing
/// what it handed back brings that mask back from any mask.
pub proof fn lemma_umask_restored(before: u32, mask: u32, during: u32)
    requires
        before <= 0o777,
    ensures
        set_mask(before, mask).1 == before,
        set_mask(before, mask).0 == installed(mask),
        set_mask(during, set_mask(before, mask).1).0 == before,
{
    assert(before <= 0o777 ==> before & 0o777 == before) by (bit_vector);
}

} // verus!
