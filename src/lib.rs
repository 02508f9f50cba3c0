use vstd::prelude::*;

pub mod code;
pub mod exception;
pub mod registers;

pub use code::ExceptionCode;
pub use exception::Exception;
pub use registers::{Arch, Registers};

use code::classification;

verus! {

/// Status of the handler stub: the procedure ran to completion, and the
/// exception record was left untouched.
pub const MS_SUCCEEDED: u32 = 0x0;

/// Status of the handler stub: a hardware fault was caught, and the exception
/// record was filled.
pub const MS_CAUGHT: u32 = 0x1;

/// What one guarded call reported, read from the handler stub's status and
/// the record it was handed; `None` where the two break the stub's protocol
/// (an undefined status, or a caught fault with an unfilled record).
pub open spec fn guard_outcome(status: u32, record: Exception) -> Option<Result<(), Exception>> {
    if status == MS_SUCCEEDED {
        Some(Ok(()))
    } else if status == MS_CAUGHT && record.is_filled() {
        Some(Err(record))
    } else {
        None
    }
}

/// The outcome of a guarded call, given the stub's report and the slot that
/// the procedure's return value was written to; `None` where the report
/// breaks the protocol or a success left the slot empty.
pub open spec fn settled<R>(status: u32, record: Exception, slot: Option<R>) -> Option<Result<R, Exception>> {
    match guard_outcome(status, record) {
        Some(Ok(_)) => match slot {
            Some(v) => Some(Ok(v)),
            None => None,
        },
        Some(Err(e)) => Some(Err(e)),
        None => None,
    }
}

/// Reads the handler stub's status for one guarded call. A caught fault hands
/// back the record the stub filled; any status but the two defined ones is a
/// protocol violation and gives `None`.
pub fn call_outcome(status: u32, record: Exception) -> (r: Option<Result<(), Exception>>)
    ensures
        r == guard_outcome(status, record),
{
    if status == MS_SUCCEEDED {
        Some(Ok(()))
    } else if status == MS_CAUGHT && record.filled() {
        Some(Err(record))
    } else {
        None
    }
}

/// Settles a guarded call: on success the procedure's return value is moved
/// out of its slot; on a caught fault the slot is dropped unread and the
/// exception comes back.
pub fn settle<R>(status: u32, record: Exception, slot: Option<R>) -> (r: Option<Result<R, Exception>>)
    ensures
        r == settled(status, record, slot),
{
    match call_outcome(status, record) {
        Some(Ok(())) => match slot {
            Some(v) => Some(Ok(v)),
            None => None,
        },
        Some(Err(e)) => Some(Err(e)),
        None => None,
    }
}

/// A call that completes without a fault yields exactly the procedure's return
/// value, whatever the placeholder record held.
pub proof fn lemma_success_returns_value<R>(record: Exception, v: R)
    ensures
        settled(MS_SUCCEEDED, record, Some(v)) == Some(Ok::<R, Exception>(v)),
{
}

/// A procedure that returns no data yields a success with the unit value.
pub proof fn lemma_unit_round_trip(record: Exception)
    ensures
        settled(MS_SUCCEEDED, record, Some(())) == Some(Ok::<(), Exception>(())),
{
    lemma_success_returns_value(record, ());
}

/// A caught fault yields the record built from the delivered code, with the
/// classification of that code and the snapshot it was filled with; the
/// return-value slot is never read.
pub proof fn lemma_fault_reported<R>(raw: u32, registers: Option<Registers>, record: Exception, slot: Option<R>)
    requires
        record.kind() == classification(raw),
        record.snapshot() == registers,
    ensures
        settled(MS_CAUGHT, record, slot) matches Some(Err(e)) && e.kind() == classification(raw)
            && e.kind().raw_value() == raw && e.snapshot() == registers,
{
    code::lemma_classification_of(raw);
}

/// The codes of an invalid memory access, an undefined instruction and a
/// breakpoint trap are classified as those kinds.
pub proof fn lemma_fault_kinds()
    ensures
        classification(0xC000_0005) == ExceptionCode::AccessViolation,
        classification(0xC000_001D) == ExceptionCode::IllegalInstruction,
        classification(0x8000_0003) == ExceptionCode::Breakpoint,
{
    code::lemma_classification_of(0xC000_0005);
    code::lemma_classification_of(0xC000_001D);
    code::lemma_classification_of(0x8000_0003);
    code::lemma_classification_unique(classification(0xC000_0005), ExceptionCode::AccessViolation);
    code::lemma_classification_unique(classification(0xC000_001D), ExceptionCode::IllegalInstruction);
    code::lemma_classification_unique(classification(0x8000_0003), ExceptionCode::Breakpoint);
}

/// A guarded call that succeeds, around an inner guarded call that caught a
/// fault, yields the inner failure as an ordinary value.
pub proof fn lemma_nested_fault_is_value<R>(
    outer: Exception,
    inner_status: u32,
    inner_record: Exception,
    inner_slot: Option<R>,
)
    requires
        settled(inner_status, inner_record, inner_slot) matches Some(Err(_)),
    ensures
        settled(MS_SUCCEEDED, outer, Some(settled(inner_status, inner_record, inner_slot)->0))
            == Some(Ok::<Result<R, Exception>, Exception>(Err(inner_record))),
{
}

} // verus!
