//! The register save layout of the exception entry stubs.
//!
//! On a trap the processor pushes its return frame (and, for some vectors, an
//! error code) and jumps to the stub. The stub pushes every general-purpose
//! register in `save_order`, passes the stack pointer (the start of the saved
//! block) as the handler's first argument and the error code, found just above
//! the saved block, as its second, pads the stack to the call alignment,
//! calls the handler, and then pops the registers in the reverse order before
//! returning from the interrupt. This module fixes that order and the offsets
//! that follow from it; the stack-frame model reads the saved block by them.

use vstd::prelude::*;

verus! {

/// Number of registers the stub saves.
pub const SAVED_REGISTERS: usize = 15;

/// Number of words of the processor's return frame: instruction pointer, code
/// segment, flags, stack pointer and stack segment.
pub const RETURN_FRAME_WORDS: usize = 5;

/// Size of a stack word in bytes.
pub const WORD_SIZE: usize = 8;

/// Stack alignment that the calling convention demands at a call.
pub const CALL_ALIGNMENT: usize = 16;

/// A general-purpose register that the stub saves.
#[derive(Debug, Clone, Copy, PartialEq, Eq, Structural)]
pub enum Register {
    Rax,
    Rcx,
    Rdx,
    Rdi,
    Rsi,
    R8,
    R9,
    R10,
    R11,
    Rbx,
    Rbp,
    R12,
    R13,
    R14,
    R15,
}

/// The order in which the stub pushes the registers: the scratch registers,
/// then the preserved ones.
pub open spec fn save_order() -> Seq<Register> {
    seq![
        Register::Rax,
        Register::Rcx,
        Register::Rdx,
        Register::Rdi,
        Register::Rsi,
        Register::R8,
        Register::R9,
        Register::R10,
        Register::R11,
        Register::Rbx,
        Register::Rbp,
        Register::R12,
        Register::R13,
        Register::R14,
        Register::R15,
    ]
}

/// The position of a register in `save_order`.
pub open spec fn push_position(r: Register) -> int {
    match r {
        Register::Rax => 0,
        Register::Rcx => 1,
        Register::Rdx => 2,
        Register::Rdi => 3,
        Register::Rsi => 4,
        Register::R8 => 5,
        Register::R9 => 6,
        Register::R10 => 7,
        Register::R11 => 8,
        Register::Rbx => 9,
        Register::Rbp => 10,
        Register::R12 => 11,
        Register::R13 => 12,
        Register::R14 => 13,
        Register::R15 => 14,
    }
}

/// The word, counted from the stack pointer after the last push, that holds
/// a saved register: the stack grows down, so the last register pushed is at
/// word 0.
pub open spec fn saved_word(r: Register) -> int {
    SAVED_REGISTERS - 1 - push_position(r)
}

/// The word at which the processor's return frame starts: just above the
/// saved registers, or above the error code when the vector pushes one.
pub open spec fn return_frame_word(has_error_code: bool) -> int {
    SAVED_REGISTERS + if has_error_code { 1int } else { 0int }
}

/// The number of words from the stack pointer after the last push up to the
/// end of the processor's return frame.
pub open spec fn frame_words(has_error_code: bool) -> int {
    return_frame_word(has_error_code) + RETURN_FRAME_WORDS
}

/// Each register has one position in the save order, and each position one
/// register.
pub proof fn lemma_save_order_positions()
    ensures
        save_order().len() == SAVED_REGISTERS,
        forall|r: Register|
            0 <= #[trigger] push_position(r) < SAVED_REGISTERS && save_order()[push_position(r)]
                == r,
        forall|i: int, j: int|
            0 <= i < j < SAVED_REGISTERS ==> save_order()[i] != save_order()[j],
{
}

/// The registers in the order the stub pushes them.
pub fn saved_registers() -> (r: Vec<Register>)
    ensures
        r@ == save_order(),
{
    let r = vec![
        Register::Rax,
        Register::Rcx,
        Register::Rdx,
        Register::Rdi,
        Register::Rsi,
        Register::R8,
        Register::R9,
        Register::R10,
        Register::R11,
        Register::Rbx,
        Register::Rbp,
        Register::R12,
        Register::R13,
        Register::R14,
        Register::R15,
    ];
    proof {
        assert(r@ =~= save_order());
    }
    r
}

/// The registers in the order the stub pops them: exactly the reverse of the
/// order it pushes them in.
pub fn restored_registers() -> (r: Vec<Register>)
    ensures
        r@ == save_order().reverse(),
{
    let saved = saved_registers();
    let mut r: Vec<Register> = Vec::new();
    let mut i: usize = saved.len();
    while i > 0
        invariant
            i <= saved@.len(),
            saved@ == save_order(),
            r@ == saved@.subrange(i as int, saved@.len() as int).reverse(),
        decreases i,
    {
        i = i - 1;
        r.push(saved[i]);
        proof {
            assert(r@ =~= saved@.subrange(i as int, saved@.len() as int).reverse());
        }
    }
    proof {
        assert(saved@.subrange(0, saved@.len() as int) =~= saved@);
    }
    r
}

/// The word of the saved block that holds register `reg`.
pub fn saved_word_of(reg: Register) -> (r: usize)
    ensures
        r == saved_word(reg),
        r < SAVED_REGISTERS,
{
    let position: usize = match reg {
        Register::Rax => 0,
        Register::Rcx => 1,
        Register::Rdx => 2,
        Register::Rdi => 3,
        Register::Rsi => 4,
        Register::R8 => 5,
        Register::R9 => 6,
        Register::R10 => 7,
        Register::R11 => 8,
        Register::Rbx => 9,
        Register::Rbp => 10,
        Register::R12 => 11,
        Register::R13 => 12,
        Register::R14 => 13,
        Register::R15 => 14,
    };
    SAVED_REGISTERS - 1 - position
}

/// Byte offset of the error code from the stack pointer after the last push:
/// it lies just above the saved registers.
pub fn error_code_offset() -> (r: usize)
    ensures
        r == SAVED_REGISTERS * WORD_SIZE,
{
    SAVED_REGISTERS * WORD_SIZE
}

/// The word at which the processor's return frame starts.
pub fn return_frame_offset_words(has_error_code: bool) -> (r: usize)
    ensures
        r == return_frame_word(has_error_code),
{
    if has_error_code {
        SAVED_REGISTERS + 1
    } else {
        SAVED_REGISTERS
    }
}

/// The number of words from the stack pointer after the last push up to the
/// end of the processor's return frame.
pub fn frame_len_words(has_error_code: bool) -> (r: usize)
    ensures
        r == frame_words(has_error_code),
{
    return_frame_offset_words(has_error_code) + RETURN_FRAME_WORDS
}

/// Bytes the stub subtracts from the stack pointer before calling the
/// handler. The processor aligns the stack to 16 bytes before it pushes its
/// frame, so the words pushed since then, plus this padding, must be a
/// multiple of the call alignment.
pub fn call_padding(has_error_code: bool) -> (r: usize)
    ensures
        r < CALL_ALIGNMENT,
        r % WORD_SIZE == 0,
        (frame_words(has_error_code) * WORD_SIZE + r) % (CALL_ALIGNMENT as int) == 0,
{
    let pushed = frame_len_words(has_error_code) * WORD_SIZE;
    let rem = pushed % CALL_ALIGNMENT;
    if rem == 0 {
        0
    } else {
        CALL_ALIGNMENT - rem
    }
}

} // verus!
