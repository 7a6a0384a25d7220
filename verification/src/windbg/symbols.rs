use vstd::prelude::*;

use crate::state::value::RelativeAddress;
use crate::windbg::error::{WinDbgError, failed, check_succeeded};

verus! {

/// The address `addr` as an offset into the module that starts at `base`,
/// where the engine looked the module up with result code `res`. The offset
/// keeps the low 32 bits of the distance.
pub fn relative_address(res: i32, addr: u64, base: u64) -> (r: Result<RelativeAddress, WinDbgError>)
    requires
        !failed(res) ==> base <= addr,
    ensures
        r is Ok <==> !failed(res),
        r matches Err(e) ==> e == WinDbgError::FfiError("Unable to get module by offset", res),
        r matches Ok(ra) ==> ra.base == base && ra.displacement == (addr - base) as u32,
{
    check_succeeded(res, "Unable to get module by offset")?;
    Ok(RelativeAddress { base, displacement: (addr - base) as u32 })
}

/// An address within 4 GiB of its module's base is recovered from its
/// relative form.
pub proof fn lemma_relative_address_recovers(addr: u64, base: u64)
    requires
        base <= addr,
        addr - base <= u32::MAX,
    ensures
        base + ((addr - base) as u32) == addr,
{
}

} // verus!
