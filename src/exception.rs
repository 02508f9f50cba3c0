use vstd::prelude::*;

use crate::code::{classification, ExceptionCode};
use crate::registers::Registers;

verus! {

/// A hardware exception caught during a guarded call, with its
/// classification and, where the architecture supports it, the registers at
/// the fault site.
#[derive(Debug, Clone, PartialEq, Eq, Hash)]
pub struct Exception {
    code: ExceptionCode,
    registers: Option<Registers>,
}

impl Exception {
    /// The classification held by the record.
    pub closed spec fn kind(self) -> ExceptionCode {
        self.code
    }

    /// The register snapshot held by the record, if any.
    pub closed spec fn snapshot(self) -> Option<Registers> {
        self.registers
    }

    /// Whether the record was filled by a fault rather than left as the
    /// placeholder.
    pub open spec fn is_filled(self) -> bool {
        !(self.kind() is Invalid)
    }

    /// Creates a placeholder record, to be filled only if a fault occurs.
    /// Such a record is never handed to a caller as an exception.
    pub fn empty() -> (r: Exception)
        ensures
            r.kind() is Invalid,
            r.snapshot() is None,
    {
        Exception { code: ExceptionCode::Invalid, registers: None }
    }

    /// Fills a record from the fault code that the operating system delivered
    /// and the registers captured at the fault site.
    pub fn from_fault(raw: u32, registers: Option<Registers>) -> (r: Exception)
        ensures
            r.kind() == classification(raw),
            r.kind().raw_value() == raw,
            r.is_filled(),
            r.snapshot() == registers,
    {
        Exception { code: ExceptionCode::classify(raw), registers }
    }

    /// The classification of the exception.
    pub fn code(&self) -> (r: ExceptionCode)
        ensures
            r == self.kind(),
    {
        self.code
    }

    /// The registers at the fault site, where they were captured.
    pub fn registers(&self) -> (r: Option<&Registers>)
        ensures
            r is Some <==> self.snapshot() is Some,
            r matches Some(s) ==> self.snapshot() == Some(*s),
    {
        self.registers.as_ref()
    }

    /// Whether the record was filled by a fault.
    pub fn filled(&self) -> (r: bool)
        ensures
            r == self.is_filled(),
    {
        match self.code {
            ExceptionCode::Invalid => false,
            _ => true,
        }
    }
}

} // verus!
