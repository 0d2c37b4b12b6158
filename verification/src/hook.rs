//! Inline-hook bookkeeping.
//!
//! The state machine that guards patching: at most one record per hooked
//! function, installing twice never patches twice, and enabling is
//! idempotent. The actual byte patching of the live image is the
//! collaborator around the library; it acts only when a transition here
//! says so.

use vstd::prelude::*;

use crate::offsets::ModuleImage;

verus! {

/// Hook install or enable failure: fatal to instrumentation, never retried.
#[derive(Debug, PartialEq, Eq, Structural, Clone, Copy)]
pub enum InstallError {
    AlreadyInstalled,
    NotInstalled,
}

/// One installed hook: the absolute target address and whether interception
/// is switched on.
#[derive(Debug, PartialEq, Eq, Structural, Clone, Copy)]
pub struct HookRecord {
    pub target: u64,
    pub enabled: bool,
}

/// The hook slot for one intercepted function; empty until installed.
pub struct Hook {
    pub record: Option<HookRecord>,
}

/// What installing at `target` does to a hook slot: fills an empty slot with
/// a disabled record, and refuses a filled one untouched.
pub open spec fn spec_install(h: Hook, target: u64) -> (Hook, Result<(), InstallError>) {
    match h.record {
        Some(_) => (h, Err(InstallError::AlreadyInstalled)),
        None => (
            Hook { record: Some(HookRecord { target, enabled: false }) },
            Ok(()),
        ),
    }
}

/// What enabling does: marks an installed record enabled (again, harmlessly,
/// if it already was), and refuses an empty slot.
pub open spec fn spec_enable(h: Hook) -> (Hook, Result<(), InstallError>) {
    match h.record {
        None => (h, Err(InstallError::NotInstalled)),
        Some(r) => (
            Hook { record: Some(HookRecord { target: r.target, enabled: true }) },
            Ok(()),
        ),
    }
}

/// What disabling does: marks an installed record disabled, and refuses an
/// empty slot.
pub open spec fn spec_disable(h: Hook) -> (Hook, Result<(), InstallError>) {
    match h.record {
        None => (h, Err(InstallError::NotInstalled)),
        Some(r) => (
            Hook { record: Some(HookRecord { target: r.target, enabled: false }) },
            Ok(()),
        ),
    }
}

/// What one call of the hooked function observes: the original always runs
/// exactly once, first; the observation logic runs only when the hook is
/// installed and enabled.
#[derive(Debug, PartialEq, Eq, Structural, Clone, Copy)]
pub struct CallEffect {
    pub original_calls: u64,
    pub observe: bool,
}

impl Hook {
    /// An empty slot: nothing installed.
    pub fn new() -> (h: Hook)
        ensures
            h.record is None,
    {
        Hook { record: None }
    }

    /// Installs the hook at the live address of `relative_offset`, once:
    /// a second install is refused and changes nothing.
    pub fn install(&mut self, image: &ModuleImage, relative_offset: u64) -> (r: Result<
        (),
        InstallError,
    >)
        requires
            image.base + relative_offset <= u64::MAX,
        ensures
            (*final(self), r) == spec_install(*old(self), (image.base + relative_offset) as u64),
    {
        let target = image.resolve(relative_offset);
        match self.record {
            Some(_) => Err(InstallError::AlreadyInstalled),
            None => {
                self.record = Some(HookRecord { target, enabled: false });
                Ok(())
            },
        }
    }

    /// Switches interception on; idempotent.
    pub fn enable(&mut self) -> (r: Result<(), InstallError>)
        ensures
            (*final(self), r) == spec_enable(*old(self)),
    {
        match self.record {
            None => Err(InstallError::NotInstalled),
            Some(rec) => {
                self.record = Some(HookRecord { target: rec.target, enabled: true });
                Ok(())
            },
        }
    }

    /// Switches interception off; idempotent.
    pub fn disable(&mut self) -> (r: Result<(), InstallError>)
        ensures
            (*final(self), r) == spec_disable(*old(self)),
    {
        match self.record {
            None => Err(InstallError::NotInstalled),
            Some(rec) => {
                self.record = Some(HookRecord { target: rec.target, enabled: false });
                Ok(())
            },
        }
    }

    /// The effect of one call through the hooked address: the original
    /// implementation runs exactly once, whatever the hook state; the
    /// observation logic runs only behind an enabled hook.
    pub fn on_call(&self) -> (e: CallEffect)
        ensures
            e.original_calls == 1,
            e.observe == (self.record matches Some(r) && r.enabled),
    {
        let observe = match self.record {
            Some(rec) => rec.enabled,
            None => false,
        };
        CallEffect { original_calls: 1, observe }
    }
}

/// Install and enable are idempotent as a pair: running install+enable a
/// second time is refused by install, tolerated by enable, and leaves the
/// hook in exactly the state the first pass established — so a call through
/// the hook still runs the original exactly once, with one observation, not
/// two.
pub proof fn lemma_install_enable_idempotent(h0: Hook, target: u64)
    requires
        h0.record is None,
    ensures
        ({
            let (h1, r1) = spec_install(h0, target);
            let (h2, r2) = spec_enable(h1);
            let (h3, r3) = spec_install(h2, target);
            let (h4, r4) = spec_enable(h3);
            &&& r1 is Ok
            &&& r2 is Ok
            &&& r3 is Err
            &&& r4 is Ok
            &&& h3 == h2
            &&& h4 == h2
            &&& h2.record == Some(HookRecord { target, enabled: true })
        }),
{
}

/// Enabling twice in succession is the same as enabling once.
pub proof fn lemma_enable_idempotent(h: Hook)
    requires
        h.record is Some,
    ensures
        spec_enable(spec_enable(h).0).0 == spec_enable(h).0,
{
}

} // verus!
