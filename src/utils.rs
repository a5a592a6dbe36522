use vstd::prelude::*;

verus! {

/// The signed syscall number held in a saved 64-bit register: the same bits,
/// read as two's complement.
pub open spec fn signed_of_register(reg: u64) -> int {
    if reg <= i64::MAX {
        reg as int
    } else {
        reg as int - 0x1_0000_0000_0000_0000
    }
}

/// Reads the bits of a saved register as a signed syscall number.
pub fn syscall_number_of_register(reg: u64) -> (r: i64)
    ensures
        r as int == signed_of_register(reg),
{
    if reg <= 0x7fff_ffff_ffff_ffff {
        reg as i64
    } else {
        let high: i64 = (reg - 0x8000_0000_0000_0000) as i64;
        high - 0x7fff_ffff_ffff_ffff - 1
    }
}

/// A guard that holds a cleanup action until it is fired.
pub struct DeferWrapper<F> where F: FnOnce() {
    action: Option<F>,
}

impl<F> DeferWrapper<F> where F: FnOnce() {
    /// The action that is still to run.
    pub closed spec fn pending(&self) -> Option<F> {
        self.action
    }

    pub fn new(action: F) -> (r: Self)
        ensures
            r.pending() == Some(action),
    {
        DeferWrapper { action: Some(action) }
    }
}

impl<F> DeferWrapper<F> where F: FnOnce() {
    /// Runs the pending action, if any; afterwards none is pending, so the
    /// action runs exactly once whatever the number of calls.
    pub fn fire(&mut self)
        requires
            old(self).pending() matches Some(f) ==> f.requires(()),
        ensures
            old(self).pending() matches Some(f) ==> f.ensures((), ()),
            final(self).pending() is None,
    {
        match self.action.take() {
            Some(f) => f(),
            None => {},
        }
    }
}

/// A guard holding `action`, to be fired on every way out of a scope.
pub fn defer<F>(action: F) -> (r: DeferWrapper<F>) where F: FnOnce()
    ensures
        r.pending() == Some(action),
{
    DeferWrapper::new(action)
}

} // verus!
