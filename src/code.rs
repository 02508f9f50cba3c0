use vstd::prelude::*;

verus! {

/// The portable classification of a hardware exception.
///
/// Each named variant stands for one fault code that the operating system
/// documents for hardware exceptions; `Unknown` carries any other code as it
/// was delivered, and `Invalid` marks a record that was never filled.
#[derive(Debug, Clone, Copy, PartialEq, Eq, Hash, Structural)]
pub enum ExceptionCode {
    Invalid,
    AccessViolation,
    ArrayBoundsExceeded,
    Breakpoint,
    DataTypeMisalignment,
    FltDenormalOperand,
    FltDivideByZero,
    FltInexactResult,
    FltInvalidOperation,
    FltOverflow,
    FltStackCheck,
    FltUnderflow,
    GuardPage,
    IllegalInstruction,
    InPageError,
    IntDivideByZero,
    IntOverflow,
    InvalidDisposition,
    InvalidHandle,
    NonContinuableException,
    PrivilegedInstruction,
    SingleStep,
    StackOverflow,
    UnwindConsolidate,
    Unknown(u32),
}

/// The classification of an operating-system fault code: the one
/// classified variant whose code it is.
pub open spec fn classification(raw: u32) -> ExceptionCode {
    choose|k: ExceptionCode| k.is_classified() && k.raw_value() == raw
}

impl ExceptionCode {
    /// The operating system's code for this classification. The placeholder
    /// `Invalid` stands on zero, which no fault carries.
    pub open spec fn raw_value(self) -> u32 {
        match self {
            ExceptionCode::Invalid => 0x0,
            ExceptionCode::AccessViolation => 0xC000_0005,
            ExceptionCode::ArrayBoundsExceeded => 0xC000_008C,
            ExceptionCode::Breakpoint => 0x8000_0003,
            ExceptionCode::DataTypeMisalignment => 0x8000_0002,
            ExceptionCode::FltDenormalOperand => 0xC000_008D,
            ExceptionCode::FltDivideByZero => 0xC000_008E,
            ExceptionCode::FltInexactResult => 0xC000_008F,
            ExceptionCode::FltInvalidOperation => 0xC000_0090,
            ExceptionCode::FltOverflow => 0xC000_0091,
            ExceptionCode::FltStackCheck => 0xC000_0092,
            ExceptionCode::FltUnderflow => 0xC000_0093,
            ExceptionCode::GuardPage => 0x8000_0001,
            ExceptionCode::IllegalInstruction => 0xC000_001D,
            ExceptionCode::InPageError => 0xC000_0006,
            ExceptionCode::IntDivideByZero => 0xC000_0094,
            ExceptionCode::IntOverflow => 0xC000_0095,
            ExceptionCode::InvalidDisposition => 0xC000_0026,
            ExceptionCode::InvalidHandle => 0xC000_0008,
            ExceptionCode::NonContinuableException => 0xC000_0025,
            ExceptionCode::PrivilegedInstruction => 0xC000_0096,
            ExceptionCode::SingleStep => 0x8000_0004,
            ExceptionCode::StackOverflow => 0xC000_00FD,
            ExceptionCode::UnwindConsolidate => 0x8000_0029,
            ExceptionCode::Unknown(c) => c,
        }
    }

    /// A variant of the fixed table: neither the placeholder nor the catch-all.
    pub open spec fn is_named(self) -> bool {
        !(self is Invalid) && !(self is Unknown)
    }

    /// Whether some named variant stands for `raw`.
    pub open spec fn is_named_raw(raw: u32) -> bool {
        exists|k: ExceptionCode| k.is_named() && #[trigger] k.raw_value() == raw
    }

    /// A classification that can describe a delivered fault: never the
    /// placeholder, and the catch-all only for codes that the table lacks.
    pub open spec fn is_classified(self) -> bool {
        &&& !(self is Invalid)
        &&& (self is Unknown ==> !Self::is_named_raw(self->Unknown_0))
    }

    /// Maps an operating-system fault code to its classification. Total: an
    /// unrecognised code comes back as `Unknown`, carrying the code.
    pub fn classify(raw: u32) -> (r: ExceptionCode)
        ensures
            r == classification(raw),
            r.is_classified(),
            r.raw_value() == raw,
    {
        let r = match raw {
            0xC000_0005 => ExceptionCode::AccessViolation,
            0xC000_008C => ExceptionCode::ArrayBoundsExceeded,
            0x8000_0003 => ExceptionCode::Breakpoint,
            0x8000_0002 => ExceptionCode::DataTypeMisalignment,
            0xC000_008D => ExceptionCode::FltDenormalOperand,
            0xC000_008E => ExceptionCode::FltDivideByZero,
            0xC000_008F => ExceptionCode::FltInexactResult,
            0xC000_0090 => ExceptionCode::FltInvalidOperation,
            0xC000_0091 => ExceptionCode::FltOverflow,
            0xC000_0092 => ExceptionCode::FltStackCheck,
            0xC000_0093 => ExceptionCode::FltUnderflow,
            0x8000_0001 => ExceptionCode::GuardPage,
            0xC000_001D => ExceptionCode::IllegalInstruction,
            0xC000_0006 => ExceptionCode::InPageError,
            0xC000_0094 => ExceptionCode::IntDivideByZero,
            0xC000_0095 => ExceptionCode::IntOverflow,
            0xC000_0026 => ExceptionCode::InvalidDisposition,
            0xC000_0008 => ExceptionCode::InvalidHandle,
            0xC000_0025 => ExceptionCode::NonContinuableException,
            0xC000_0096 => ExceptionCode::PrivilegedInstruction,
            0x8000_0004 => ExceptionCode::SingleStep,
            0xC000_00FD => ExceptionCode::StackOverflow,
            0x8000_0029 => ExceptionCode::UnwindConsolidate,
            _ => ExceptionCode::Unknown(raw),
        };
        proof {
            if r is Unknown {
                assert forall|k: ExceptionCode| k.is_named() implies #[trigger] k.raw_value() != raw by {
                    match k {
                        ExceptionCode::Unknown(_) => {},
                        _ => {},
                    }
                }
            }
            let k = classification(raw);
            assert(r.is_classified() && r.raw_value() == raw);
            lemma_classification_unique(r, k);
        }
        r
    }

    /// The operating system's code for this classification.
    pub fn raw(&self) -> (r: u32)
        ensures
            r == self.raw_value(),
    {
        match self {
            ExceptionCode::Invalid => 0x0,
            ExceptionCode::AccessViolation => 0xC000_0005,
            ExceptionCode::ArrayBoundsExceeded => 0xC000_008C,
            ExceptionCode::Breakpoint => 0x8000_0003,
            ExceptionCode::DataTypeMisalignment => 0x8000_0002,
            ExceptionCode::FltDenormalOperand => 0xC000_008D,
            ExceptionCode::FltDivideByZero => 0xC000_008E,
            ExceptionCode::FltInexactResult => 0xC000_008F,
            ExceptionCode::FltInvalidOperation => 0xC000_0090,
            ExceptionCode::FltOverflow => 0xC000_0091,
            ExceptionCode::FltStackCheck => 0xC000_0092,
            ExceptionCode::FltUnderflow => 0xC000_0093,
            ExceptionCode::GuardPage => 0x8000_0001,
            ExceptionCode::IllegalInstruction => 0xC000_001D,
            ExceptionCode::InPageError => 0xC000_0006,
            ExceptionCode::IntDivideByZero => 0xC000_0094,
            ExceptionCode::IntOverflow => 0xC000_0095,
            ExceptionCode::InvalidDisposition => 0xC000_0026,
            ExceptionCode::InvalidHandle => 0xC000_0008,
            ExceptionCode::NonContinuableException => 0xC000_0025,
            ExceptionCode::PrivilegedInstruction => 0xC000_0096,
            ExceptionCode::SingleStep => 0x8000_0004,
            ExceptionCode::StackOverflow => 0xC000_00FD,
            ExceptionCode::UnwindConsolidate => 0x8000_0029,
            ExceptionCode::Unknown(c) => *c,
        }
    }
}

/// Every code has a classification, and it carries that code.
pub proof fn lemma_classification_of(raw: u32)
    ensures
        classification(raw).is_classified(),
        classification(raw).raw_value() == raw,
{
    let k = if ExceptionCode::is_named_raw(raw) {
        choose|k: ExceptionCode| k.is_named() && #[trigger] k.raw_value() == raw
    } else {
        ExceptionCode::Unknown(raw)
    };
    assert(k.is_classified() && k.raw_value() == raw);
}

/// Classification is determined by the code: two classifications of one
/// code are the same variant.
pub proof fn lemma_classification_unique(a: ExceptionCode, b: ExceptionCode)
    requires
        a.is_classified(),
        b.is_classified(),
        a.raw_value() == b.raw_value(),
    ensures
        a == b,
{
    match a {
        ExceptionCode::Unknown(_) => {
            if b.is_named() {
                assert(ExceptionCode::is_named_raw(a->Unknown_0));
            }
        },
        _ => {
            if b is Unknown {
                assert(ExceptionCode::is_named_raw(b->Unknown_0));
            }
        },
    }
}

} // verus!
