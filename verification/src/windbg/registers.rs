use vstd::prelude::*;
use vstd::string::StringSliceAdditionalSpecFns;
use vstd::utf8::{valid_utf8, encode_utf8};

use crate::state::registers::Register;
use crate::state::value::Value;
use crate::windbg::error::{WinDbgError, S_OK, failed, check_ok, check_succeeded};

verus! {

/// The room the engine is given for a register's name, in bytes.
pub const REGISTER_NAME_CAPACITY: usize = 64;

/// `bytes` is a C string: it ends with its only zero byte.
pub open spec fn is_c_string(bytes: Seq<u8>) -> bool {
    &&& bytes.len() > 0
    &&& bytes.last() == 0
    &&& forall|i: int| 0 <= i < bytes.len() - 1 ==> bytes[i] != 0
}

/// A byte run is a C string exactly when it is non-empty, ends in a zero
/// byte, and holds no other zero byte; any non-zero byte may stand before
/// the end.
pub proof fn lemma_c_string_exactly(bytes: Seq<u8>)
    ensures
        is_c_string(bytes) <==> {
            &&& bytes.len() > 0
            &&& bytes[bytes.len() - 1] == 0u8
            &&& !bytes.drop_last().contains(0u8)
        },
{
    if bytes.len() > 0 && bytes[bytes.len() - 1] == 0u8 && !bytes.drop_last().contains(0u8) {
        assert forall|i: int| 0 <= i < bytes.len() - 1 implies bytes[i] != 0 by {
            assert(bytes.drop_last()[i] == bytes[i]);
        }
    }
    if is_c_string(bytes) {
        assert forall|i: int| 0 <= i < bytes.drop_last().len() implies bytes.drop_last()[i] != 0u8 by {
            assert(bytes.drop_last()[i] == bytes[i]);
        }
    }
}

/// `std::str::from_utf8`: the text that `bytes` encode in UTF-8, or `None`
/// when they are not valid UTF-8.
#[verifier::external_body]
fn str_from_utf8(bytes: &[u8]) -> (s: Option<&str>)
    ensures
        s is Some <==> valid_utf8(bytes@),
        s matches Some(t) ==> t.spec_bytes() == bytes@,
{
    std::str::from_utf8(bytes).ok()
}

/// The text of the C string formed by the first `len` bytes of `buf`, without
/// its terminating zero, or `None` when those bytes are no C string.
fn c_string_text(buf: &[u8], len: u32) -> (t: Option<&[u8]>)
    requires
        len <= buf@.len(),
    ensures
        t is Some <==> is_c_string(buf@.take(len as int)),
        t matches Some(text) ==> text@ == buf@.take(len - 1),
{
    let n = len as usize;
    if n == 0 || buf[n - 1] != 0 {
        return None;
    }
    let mut i: usize = 0;
    while i < n - 1
        invariant
            0 < n <= buf@.len(),
            n == len,
            buf@[n - 1] == 0,
            i <= n - 1,
            forall|j: int| 0 <= j < i ==> buf@[j] != 0,
        decreases n - 1 - i,
    {
        if buf[i] == 0 {
            assert(buf@.take(len as int)[i as int] == 0);
            return None;
        }
        i = i + 1;
    }
    assert(is_c_string(buf@.take(len as int))) by {
        let b = buf@.take(len as int);
        assert forall|k: int| 0 <= k < b.len() - 1 implies b[k] != 0 by {
            assert(b[k] == buf@[k]);
        }
    }
    let text = &buf[0..n - 1];
    assert(text@ =~= buf@.take(len - 1));
    Some(text)
}

/// The name a register description carries: the first `name_len` bytes of
/// `name_buf`, which must form a C string. Any other byte run is reported as
/// `UnknownError`.
pub fn register_name(name_buf: &[u8], name_len: u32) -> (r: Result<String, WinDbgError>)
    requires
        name_len <= name_buf@.len(),
        is_c_string(name_buf@.take(name_len as int)) ==> valid_utf8(
            name_buf@.take(name_len - 1),
        ),
    ensures
        r is Ok <==> is_c_string(name_buf@.take(name_len as int)),
        r is Ok <==> {
            &&& name_len > 0
            &&& name_buf@[name_len - 1] == 0
            &&& forall|i: int| 0 <= i < name_len - 1 ==> name_buf@[i] != 0
        },
        r matches Err(e) ==> e == WinDbgError::UnknownError,
        r matches Ok(name) ==> encode_utf8(name@) == name_buf@.take(name_len - 1),
{
    proof {
        let b = name_buf@.take(name_len as int);
        if is_c_string(b) {
            assert(b[b.len() - 1] == name_buf@[name_len - 1]);
            assert forall|i: int| 0 <= i < name_len - 1 implies name_buf@[i] != 0 by {
                assert(b[i] == name_buf@[i]);
            }
        }
        if name_len > 0 && name_buf@[name_len - 1] == 0 && (forall|i: int|
            0 <= i < name_len - 1 ==> name_buf@[i] != 0) {
            assert(b[b.len() - 1] == name_buf@[name_len - 1]);
            assert forall|k: int| 0 <= k < b.len() - 1 implies b[k] != 0 by {
                assert(b[k] == name_buf@[k]);
            }
        }
    }
    match c_string_text(name_buf, name_len) {
        None => Err(WinDbgError::UnknownError),
        Some(text) => {
            let name = str_from_utf8(text).unwrap();
            Ok(name.to_owned())
        },
    }
}

/// Whether the name record's text can be read: a record that is a C string
/// must hold UTF-8 before its terminating zero.
pub fn is_name_text_valid(name_buf: &[u8], name_len: u32) -> (b: bool)
    requires
        name_len <= name_buf@.len(),
    ensures
        b == (is_c_string(name_buf@.take(name_len as int)) ==> valid_utf8(
            name_buf@.take(name_len - 1),
        )),
{
    match c_string_text(name_buf, name_len) {
        None => true,
        Some(text) => str_from_utf8(text).is_some(),
    }
}

/// Whether a register whose description was read with result code `res` is
/// reported: descriptions must read with `S_OK`, and a sub-register (one with
/// a master register) is skipped.
pub fn register_is_reported(res: i32, subreg_master: u32) -> (r: Result<bool, WinDbgError>)
    ensures
        res != S_OK ==> r == Err::<bool, WinDbgError>(
            WinDbgError::FfiError("Unable to get register information", res),
        ),
        res == S_OK ==> r == Ok::<bool, WinDbgError>(subreg_master == 0),
{
    check_ok(res, "Unable to get register information")?;
    Ok(subreg_master == 0)
}

/// The register at position `index`, from its value read with result code
/// `value_res`, the bytes `raw_value` of that value, and its name record.
pub fn register_from_raw(
    value_res: i32,
    name_buf: &[u8],
    name_len: u32,
    index: u32,
    raw_value: &[u8],
) -> (r: Result<Register, WinDbgError>)
    requires
        !failed(value_res) ==> name_len <= name_buf@.len(),
        !failed(value_res) && is_c_string(name_buf@.take(name_len as int)) ==> valid_utf8(
            name_buf@.take(name_len - 1),
        ),
    ensures
        failed(value_res) ==> r == Err::<Register, WinDbgError>(
            WinDbgError::FfiError("Unable to get register value", value_res),
        ),
        !failed(value_res) ==> (r is Ok <==> is_c_string(name_buf@.take(name_len as int))),
        !failed(value_res) && r is Err ==> r == Err::<Register, WinDbgError>(
            WinDbgError::UnknownError,
        ),
        r matches Ok(reg) ==> {
            &&& encode_utf8(reg.name@) == name_buf@.take(name_len - 1)
            &&& reg.index == index
            &&& reg.value@ == raw_value@
        },
{
    check_succeeded(value_res, "Unable to get register value")?;
    let name = register_name(name_buf, name_len)?;
    Ok(Register { name, index, value: Value::new(raw_value) })
}

/// The positions, in order, of the registers whose flag in `reported` is set:
/// the registers that a listing holds once the engine has described
/// `reported.len()` of them.
pub open spec fn reported_indices(reported: Seq<bool>) -> Seq<u32>
    decreases reported.len(),
{
    if reported.len() == 0 {
        Seq::empty()
    } else {
        let before = reported_indices(reported.drop_last());
        if reported.last() {
            before.push((reported.len() - 1) as u32)
        } else {
            before
        }
    }
}

/// The positions of the registers in `regs`, in order.
pub open spec fn register_indices(regs: Seq<Register>) -> Seq<u32> {
    regs.map_values(|r: Register| r.index)
}

/// A listing holds, in increasing order, exactly the positions whose flag is
/// set: each listed position is below the number described and flagged, and
/// each flagged position is listed.
pub proof fn lemma_reported_indices(reported: Seq<bool>)
    requires
        reported.len() <= u32::MAX + 1,
    ensures
        forall|k: int|
            0 <= k < reported_indices(reported).len() ==> {
                &&& #[trigger] reported_indices(reported)[k] < reported.len()
                &&& reported[reported_indices(reported)[k] as int]
            },
        forall|k: int, l: int|
            0 <= k < l < reported_indices(reported).len() ==> #[trigger] reported_indices(
                reported,
            )[k] < #[trigger] reported_indices(reported)[l],
        forall|i: int|
            0 <= i < reported.len() && #[trigger] reported[i] ==> reported_indices(
                reported,
            ).contains(i as u32),
    decreases reported.len(),
{
    if reported.len() > 0 {
        let rest = reported.drop_last();
        lemma_reported_indices(rest);
        let before = reported_indices(rest);
        let all = reported_indices(reported);
        let last = (reported.len() - 1) as u32;
        assert forall|i: int| 0 <= i < reported.len() && #[trigger] reported[i] implies all.contains(
            i as u32,
        ) by {
            if i < reported.len() - 1 {
                assert(rest[i]);
                let k = choose|k: int| 0 <= k < before.len() && before[k] == i as u32;
                assert(all[k] == i as u32);
            } else {
                assert(all[all.len() - 1] == last);
            }
        }
        assert forall|k: int| 0 <= k < all.len() implies {
            &&& #[trigger] all[k] < reported.len()
            &&& reported[all[k] as int]
        } by {
            if k < before.len() {
                assert(all[k] == before[k]);
                assert(rest[before[k] as int] == reported[before[k] as int]);
            }
        }
        assert forall|k: int, l: int| 0 <= k < l < all.len() implies #[trigger] all[k] < #[trigger] all[l] by {
            if l < before.len() {
                assert(all[k] == before[k] && all[l] == before[l]);
            } else {
                assert(all[k] == before[k]);
            }
        }
    }
}

/// A finished listing holds the registers in increasing order of position,
/// only reported ones, and every reported one.
pub proof fn lemma_finished_listing(l: RegisterListing)
    requires
        l.wf(),
        l.spec_next() == l.spec_count(),
    ensures
        forall|k: int|
            0 <= k < l.spec_registers().len() ==> {
                &&& (#[trigger] l.spec_registers()[k]).index < l.spec_count()
                &&& l.spec_reported()[l.spec_registers()[k].index as int]
            },
        forall|k: int, m: int|
            0 <= k < m < l.spec_registers().len() ==> (#[trigger] l.spec_registers()[k]).index
                < (#[trigger] l.spec_registers()[m]).index,
        forall|i: int|
            0 <= i < l.spec_count() && #[trigger] l.spec_reported()[i] ==> register_indices(
                l.spec_registers(),
            ).contains(i as u32),
{
    let regs = l.spec_registers();
    lemma_reported_indices(l.spec_reported());
    assert forall|k: int| 0 <= k < regs.len() implies #[trigger] register_indices(regs)[k]
        == regs[k].index by {}
    assert forall|k: int| 0 <= k < regs.len() implies {
        &&& (#[trigger] regs[k]).index < l.spec_count()
        &&& l.spec_reported()[regs[k].index as int]
    } by {
        assert(register_indices(regs)[k] == regs[k].index);
    }
    assert forall|k: int, m: int| 0 <= k < m < regs.len() implies (#[trigger] regs[k]).index < (
    #[trigger] regs[m]).index by {
        assert(register_indices(regs)[k] == regs[k].index);
        assert(register_indices(regs)[m] == regs[m].index);
    }
}

/// The register list being read from the engine, one register at a time: how
/// many registers the engine has, how many it has described so far, which of
/// those were reported, and the registers built from them.
pub struct RegisterListing {
    count: u32,
    next: u32,
    awaiting_value: bool,
    registers: Vec<Register>,
    reported: Ghost<Seq<bool>>,
}

impl RegisterListing {
    /// The number of registers the engine has.
    pub closed spec fn spec_count(&self) -> u32 {
        self.count
    }

    /// The position of the register that is read next.
    pub closed spec fn spec_next(&self) -> u32 {
        self.next
    }

    /// Whether the register at `spec_next` was described and reported, and
    /// its value is read next.
    pub closed spec fn spec_awaiting_value(&self) -> bool {
        self.awaiting_value
    }

    /// The registers listed so far, in order.
    pub closed spec fn spec_registers(&self) -> Seq<Register> {
        self.registers@
    }

    /// For each register read so far, whether it is reported.
    pub closed spec fn spec_reported(&self) -> Seq<bool> {
        self.reported@
    }

    /// The listing's parts agree: the registers listed are exactly those at
    /// the reported positions, in order.
    pub open spec fn wf(&self) -> bool {
        &&& self.spec_next() <= self.spec_count()
        &&& self.spec_reported().len() == self.spec_next()
        &&& self.spec_awaiting_value() ==> self.spec_next() < self.spec_count()
        &&& register_indices(self.spec_registers()) == reported_indices(self.spec_reported())
    }

    /// A listing of the `count` registers that the engine reported with
    /// result code `res`.
    pub fn start(res: i32, count: u32) -> (r: Result<Self, WinDbgError>)
        ensures
            r is Ok <==> !failed(res),
            r matches Err(e) ==> e == WinDbgError::FfiError(
                "Unable to determine nmber of registers",
                res,
            ),
            r matches Ok(l) ==> {
                &&& l.wf()
                &&& l.spec_count() == count
                &&& l.spec_next() == 0
                &&& !l.spec_awaiting_value()
                &&& l.spec_registers().len() == 0
            },
    {
        check_succeeded(res, "Unable to determine nmber of registers")?;
        let ghost none: Seq<bool> = Seq::empty();
        let l = RegisterListing {
            count,
            next: 0,
            awaiting_value: false,
            registers: Vec::new(),
            reported: Ghost(none),
        };
        assert(register_indices(l.registers@) =~= reported_indices(none));
        Ok(l)
    }

    /// The position of the register to describe next, or `None` when all are
    /// read.
    pub fn next_register(&self) -> (r: Option<u32>)
        requires
            self.wf(),
            !self.spec_awaiting_value(),
        ensures
            r == (if self.spec_next() < self.spec_count() {
                Some(self.spec_next())
            } else {
                None::<u32>
            }),
    {
        if self.next < self.count {
            Some(self.next)
        } else {
            None
        }
    }

    /// Takes in the description of the register at `spec_next`, read with
    /// result code `res`; returns whether the register is reported. A
    /// sub-register is skipped, and a reported register awaits its value.
    pub fn describe(&mut self, res: i32, subreg_master: u32) -> (r: Result<bool, WinDbgError>)
        requires
            old(self).wf(),
            !old(self).spec_awaiting_value(),
            old(self).spec_next() < old(self).spec_count(),
        ensures
            final(self).wf(),
            final(self).spec_count() == old(self).spec_count(),
            final(self).spec_registers() == old(self).spec_registers(),
            res != S_OK ==> {
                &&& r == Err::<bool, WinDbgError>(
                    WinDbgError::FfiError("Unable to get register information", res),
                )
                &&& final(self).spec_next() == old(self).spec_next()
                &&& final(self).spec_reported() == old(self).spec_reported()
                &&& !final(self).spec_awaiting_value()
            },
            res == S_OK && subreg_master != 0 ==> {
                &&& r == Ok::<bool, WinDbgError>(false)
                &&& final(self).spec_next() == old(self).spec_next() + 1
                &&& final(self).spec_reported() == old(self).spec_reported().push(false)
                &&& !final(self).spec_awaiting_value()
            },
            res == S_OK && subreg_master == 0 ==> {
                &&& r == Ok::<bool, WinDbgError>(true)
                &&& final(self).spec_next() == old(self).spec_next()
                &&& final(self).spec_reported() == old(self).spec_reported()
                &&& final(self).spec_awaiting_value()
            },
    {
        let reported = register_is_reported(res, subreg_master)?;
        if reported {
            self.awaiting_value = true;
        } else {
            let ghost before = self.reported@;
            self.reported = Ghost(before.push(false));
            self.next = self.next + 1;
            proof {
                assert(self.reported@.drop_last() =~= before);
            }
        }
        Ok(reported)
    }

    /// Takes in the value of the reported register at `spec_next`, read with
    /// result code `value_res` as the bytes `raw_value`, and lists the
    /// register with the name from its description record.
    pub fn add_value(&mut self, value_res: i32, name_buf: &[u8], name_len: u32, raw_value: &[u8]) -> (r:
        Result<(), WinDbgError>)
        requires
            old(self).wf(),
            old(self).spec_awaiting_value(),
            !failed(value_res) ==> name_len <= name_buf@.len(),
            !failed(value_res) && is_c_string(name_buf@.take(name_len as int)) ==> valid_utf8(
                name_buf@.take(name_len - 1),
            ),
        ensures
            final(self).spec_count() == old(self).spec_count(),
            failed(value_res) ==> r == Err::<(), WinDbgError>(
                WinDbgError::FfiError("Unable to get register value", value_res),
            ),
            !failed(value_res) ==> (r is Ok <==> is_c_string(name_buf@.take(name_len as int))),
            !failed(value_res) && r is Err ==> r == Err::<(), WinDbgError>(
                WinDbgError::UnknownError,
            ),
            r is Err ==> *final(self) == *old(self),
            r is Ok ==> {
                &&& final(self).wf()
                &&& !final(self).spec_awaiting_value()
                &&& final(self).spec_next() == old(self).spec_next() + 1
                &&& final(self).spec_reported() == old(self).spec_reported().push(true)
                &&& final(self).spec_registers().len() == old(self).spec_registers().len() + 1
                &&& final(self).spec_registers().drop_last() == old(self).spec_registers()
                &&& encode_utf8(final(self).spec_registers().last().name@) == name_buf@.take(
                    name_len - 1,
                )
                &&& final(self).spec_registers().last().index == old(self).spec_next()
                &&& final(self).spec_registers().last().value@ == raw_value@
            },
    {
        let register = register_from_raw(value_res, name_buf, name_len, self.next, raw_value)?;
        let ghost before_regs = self.registers@;
        let ghost before = self.reported@;
        self.registers.push(register);
        self.reported = Ghost(before.push(true));
        self.next = self.next + 1;
        self.awaiting_value = false;
        proof {
            assert(self.reported@.drop_last() =~= before);
            assert(self.registers@.drop_last() =~= before_regs);
            assert(register_indices(self.registers@) =~= register_indices(before_regs).push(
                (self.next - 1) as u32,
            ));
        }
        Ok(())
    }

    /// The registers listed, once every register has been read.
    pub fn finish(self) -> (regs: Vec<Register>)
        requires
            self.wf(),
            !self.spec_awaiting_value(),
            self.spec_next() == self.spec_count(),
        ensures
            regs@ == self.spec_registers(),
            register_indices(regs@) == reported_indices(self.spec_reported()),
            self.spec_reported().len() == self.spec_count(),
    {
        self.registers
    }
}

} // verus!
