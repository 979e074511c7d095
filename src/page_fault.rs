//! Decoding of the error code that the processor pushes on a page fault.

use vstd::prelude::*;

verus! {

/// Whether the faulting access came from supervisor or user mode.
#[derive(Debug, Clone, Copy, PartialEq, Eq, Structural)]
pub enum AccessMode {
    Supervisor,
    User,
    Unknown,
}

impl AccessMode {
    pub open spec fn spec_name(&self) -> &'static str {
        match self {
            AccessMode::Supervisor => "Supervisor",
            AccessMode::User => "User",
            AccessMode::Unknown => "Unknown",
        }
    }

    /// The variant's name as text.
    pub fn name(&self) -> (r: &'static str)
        ensures
            r == self.spec_name(),
    {
        match self {
            AccessMode::Supervisor => "Supervisor",
            AccessMode::User => "User",
            AccessMode::Unknown => "Unknown",
        }
    }
}

/// Cause of a page fault: the page was absent or the access violated its
/// protection, and the access was a read or a write.
#[derive(Debug, Clone, Copy, PartialEq, Eq, Structural)]
pub enum PageFaultErrorCode {
    NonPresentRead,
    ProtectionViolationRead,
    NonPresentWrite,
    ProtectionViolationWrite,
    Unknown,
}

impl PageFaultErrorCode {
    pub open spec fn spec_name(&self) -> &'static str {
        match self {
            PageFaultErrorCode::NonPresentRead => "NonPresentRead",
            PageFaultErrorCode::ProtectionViolationRead => "ProtectionViolationRead",
            PageFaultErrorCode::NonPresentWrite => "NonPresentWrite",
            PageFaultErrorCode::ProtectionViolationWrite => "ProtectionViolationWrite",
            PageFaultErrorCode::Unknown => "Unknown",
        }
    }

    /// The variant's name as text.
    pub fn name(&self) -> (r: &'static str)
        ensures
            r == self.spec_name(),
    {
        match self {
            PageFaultErrorCode::NonPresentRead => "NonPresentRead",
            PageFaultErrorCode::ProtectionViolationRead => "ProtectionViolationRead",
            PageFaultErrorCode::NonPresentWrite => "NonPresentWrite",
            PageFaultErrorCode::ProtectionViolationWrite => "ProtectionViolationWrite",
            PageFaultErrorCode::Unknown => "Unknown",
        }
    }
}

/// Masks selecting the fields of a page-fault error code.
pub struct PageFaultBitMasks;

impl PageFaultBitMasks {
    /// Bit 0 (protection violation) and bit 1 (write).
    pub const ERROR_CODE: usize = 0x3;
    /// Bit 2: the access came from user mode.
    pub const ACCES_MODE: usize = 0x4;
    /// Bit 4: the fault was caused by an instruction fetch.
    pub const INSTRUCTION_FETCH: usize = 0x10;
    /// Bit 3: a reserved bit was set in a paging-structure entry.
    pub const RESERVED: usize = 0x8;
}

/// A decoded page fault.
#[derive(Debug, Clone, Copy, PartialEq, Eq, Structural)]
pub struct PageFault {
    /// The linear address whose access faulted.
    pub addr: usize,
    pub error_code_description: PageFaultErrorCode,
    pub access_mode: AccessMode,
    pub caused_by_instruction_fetch: bool,
    pub reserved: bool,
}

/// Bit `i` of an error code.
pub open spec fn code_bit(code: usize, i: usize) -> bool {
    (code >> i) & 1 == 1
}

/// Presence/protection and read/write cause: bit 0 and bit 1.
pub open spec fn error_code_of(code: usize) -> PageFaultErrorCode {
    if !code_bit(code, 0) {
        if !code_bit(code, 1) {
            PageFaultErrorCode::NonPresentRead
        } else {
            PageFaultErrorCode::NonPresentWrite
        }
    } else {
        if !code_bit(code, 1) {
            PageFaultErrorCode::ProtectionViolationRead
        } else {
            PageFaultErrorCode::ProtectionViolationWrite
        }
    }
}

/// Supervisor or user access: bit 2.
pub open spec fn access_mode_of(code: usize) -> AccessMode {
    if code_bit(code, 2) {
        AccessMode::User
    } else {
        AccessMode::Supervisor
    }
}

/// The page fault that `code` describes, at faulting address `addr`.
pub open spec fn page_fault_of(code: usize, addr: usize) -> PageFault {
    PageFault {
        addr,
        error_code_description: error_code_of(code),
        access_mode: access_mode_of(code),
        caused_by_instruction_fetch: code_bit(code, 4),
        reserved: code_bit(code, 3),
    }
}

/// Relies on `x86_64::registers::control::Cr2::read_raw`, which reads the
/// fault-address register; its value depends on the machine alone.
#[verifier::external_body]
fn read_fault_address() -> (r: usize) {
    x86_64::registers::control::Cr2::read_raw() as usize
}

/// Builds page-fault descriptions from error codes.
pub struct PageFaultBuilder;

impl PageFaultBuilder {
    /// Decodes `code` and captures the faulting address from the processor's
    /// fault-address register.
    pub fn build(code: usize) -> (r: PageFault)
        ensures
            r == page_fault_of(code, r.addr),
    {
        let addr = read_fault_address();
        Self::build_with_address(code, addr)
    }

    /// Decodes `code` for a fault at `addr`. Every code decodes to a known
    /// cause and access mode; bits above bit 4 are ignored.
    pub fn build_with_address(code: usize, addr: usize) -> (r: PageFault)
        ensures
            r == page_fault_of(code, addr),
            r.error_code_description != PageFaultErrorCode::Unknown,
            r.access_mode != AccessMode::Unknown,
    {
        let cause = code & PageFaultBitMasks::ERROR_CODE;
        let page_fault_error = if cause == 0 {
            PageFaultErrorCode::NonPresentRead
        } else if cause == 1 {
            PageFaultErrorCode::ProtectionViolationRead
        } else if cause == 2 {
            PageFaultErrorCode::NonPresentWrite
        } else {
            PageFaultErrorCode::ProtectionViolationWrite
        };
        let access_mode = if code & PageFaultBitMasks::ACCES_MODE == 0 {
            AccessMode::Supervisor
        } else {
            AccessMode::User
        };
        let fetch = code & PageFaultBitMasks::INSTRUCTION_FETCH != 0;
        let reserved = code & PageFaultBitMasks::RESERVED != 0;
        proof {
            assert(cause == code & 3);
            lemma_code_fields(code);
        }
        PageFault {
            addr,
            error_code_description: page_fault_error,
            access_mode,
            caused_by_instruction_fetch: fetch,
            reserved,
        }
    }
}

proof fn lemma_code_fields(code: usize)
    ensures
        (code & 3 == 0) == (!code_bit(code, 0) && !code_bit(code, 1)),
        (code & 3 == 1) == (code_bit(code, 0) && !code_bit(code, 1)),
        (code & 3 == 2) == (!code_bit(code, 0) && code_bit(code, 1)),
        (code & 3 == 3) == (code_bit(code, 0) && code_bit(code, 1)),
        (code & 4 == 0) == !code_bit(code, 2),
        (code & 8 != 0) == code_bit(code, 3),
        (code & 0x10 != 0) == code_bit(code, 4),
{
    assert((code & 3 == 0) == (((code >> 0usize) & 1 != 1) && ((code >> 1usize) & 1 != 1))) by (bit_vector);
    assert((code & 3 == 1) == (((code >> 0usize) & 1 == 1) && ((code >> 1usize) & 1 != 1))) by (bit_vector);
    assert((code & 3 == 2) == (((code >> 0usize) & 1 != 1) && ((code >> 1usize) & 1 == 1))) by (bit_vector);
    assert((code & 3 == 3) == (((code >> 0usize) & 1 == 1) && ((code >> 1usize) & 1 == 1))) by (bit_vector);
    assert((code & 4 == 0) == ((code >> 2usize) & 1 != 1)) by (bit_vector);
    assert((code & 8 != 0) == ((code >> 3usize) & 1 == 1)) by (bit_vector);
    assert((code & 0x10 != 0) == ((code >> 4usize) & 1 == 1)) by (bit_vector);
}

} // verus!
