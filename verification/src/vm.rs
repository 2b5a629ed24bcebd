//! The VM control tool's decisions around the virtualization service.

use vstd::prelude::*;

verus! {

/// Why stopping a VM failed after the service answered.
#[derive(Clone, Copy, Debug, PartialEq, Eq, Structural)]
pub enum StopError {
    /// The CID does not correspond to a running background VM.
    NoSuchVm,
}

/// The CID as the service takes it: the same 32 bits, read as signed.
pub fn service_cid(cid: u32) -> (r: i32)
    ensures
        cid <= i32::MAX ==> r == cid,
        cid > i32::MAX ==> r == cid - 0x1_0000_0000,
{
    if cid <= 0x7fff_ffff {
        cid as i32
    } else {
        (cid as i64 - 0x1_0000_0000i64) as i32
    }
}

/// The end of `vm stop`, from whether the service held a reference to a VM
/// with that CID.
pub fn command_stop(vm_found: bool) -> (r: Result<(), StopError>)
    ensures
        vm_found ==> r is Ok,
        !vm_found ==> r == Err::<(), StopError>(StopError::NoSuchVm),
{
    if vm_found {
        Ok(())
    } else {
        Err(StopError::NoSuchVm)
    }
}

} // verus!
