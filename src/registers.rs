//! The stack frame that an exception entry stub leaves for its handler: the
//! saved general-purpose registers followed by the processor's return frame.
//! The word of each saved register is the one that `trampoline::save_order`
//! puts it in.

use vstd::prelude::*;
use vstd::string::StringSliceAdditionalSpecFns;
use crate::print::{put_text, Writer};
use crate::text::{hex_fixed, push_hex_fixed, push_str};
use crate::trampoline::{
    frame_len_words, frame_words, return_frame_offset_words, return_frame_word, saved_word,
    saved_word_of, Register, WORD_SIZE,
};

verus! {

/// The caller-saved registers, in stack order.
#[derive(Debug, Default, Clone, Copy, PartialEq, Eq, Structural)]
pub struct ScratchRegisters {
    pub r11: u64,
    pub r10: u64,
    pub r9: u64,
    pub r8: u64,
    pub rsi: u64,
    pub rdi: u64,
    pub rdx: u64,
    pub rcx: u64,
    pub rax: u64,
}

/// The callee-saved registers, in stack order.
#[derive(Debug, Default, Clone, Copy, PartialEq, Eq, Structural)]
pub struct PreservedRegisters {
    pub r15: u64,
    pub r14: u64,
    pub r13: u64,
    pub r12: u64,
    pub rbp: u64,
    pub rbx: u64,
}

/// The frame the processor pushes on a trap, in stack order.
#[derive(Debug, Default, Clone, Copy, PartialEq, Eq, Structural)]
pub struct IretRegisters {
    pub rip: u64,
    pub cs: u64,
    pub rflags: u64,
    pub rsp: u64,
    pub ss: u64,
}

/// Every register saved on a trap.
#[derive(Debug, Default, Clone, Copy, PartialEq, Eq, Structural)]
pub struct StackFrame {
    pub preserved: PreservedRegisters,
    pub scratch: ScratchRegisters,
    pub iret: IretRegisters,
}

/// One line of a register dump: the label, sixteen hexadecimal digits, a
/// space and a newline.
pub open spec fn reg_line(label: &str, v: u64) -> Seq<u8> {
    label.spec_bytes() + hex_fixed(v as nat, 16) + " \n".spec_bytes()
}

/// The frame that the stub leaves, read from the words starting at the stack
/// pointer after its last push.
pub open spec fn frame_of(words: Seq<u64>, has_error_code: bool) -> StackFrame {
    let f = return_frame_word(has_error_code);
    StackFrame {
        preserved: PreservedRegisters {
            r15: words[saved_word(Register::R15)],
            r14: words[saved_word(Register::R14)],
            r13: words[saved_word(Register::R13)],
            r12: words[saved_word(Register::R12)],
            rbp: words[saved_word(Register::Rbp)],
            rbx: words[saved_word(Register::Rbx)],
        },
        scratch: ScratchRegisters {
            r11: words[saved_word(Register::R11)],
            r10: words[saved_word(Register::R10)],
            r9: words[saved_word(Register::R9)],
            r8: words[saved_word(Register::R8)],
            rsi: words[saved_word(Register::Rsi)],
            rdi: words[saved_word(Register::Rdi)],
            rdx: words[saved_word(Register::Rdx)],
            rcx: words[saved_word(Register::Rcx)],
            rax: words[saved_word(Register::Rax)],
        },
        iret: IretRegisters {
            rip: words[f],
            cs: words[f + 1],
            rflags: words[f + 2],
            rsp: words[f + 3],
            ss: words[f + 4],
        },
    }
}

/// The little-endian word of eight bytes at `offset`.
pub open spec fn le64_at(bytes: Seq<u8>, offset: int) -> u64 {
    (bytes[offset] as u64) | ((bytes[offset + 1] as u64) << 8u64) | ((bytes[offset + 2] as u64)
        << 16u64) | ((bytes[offset + 3] as u64) << 24u64) | ((bytes[offset + 4] as u64) << 32u64)
        | ((bytes[offset + 5] as u64) << 40u64) | ((bytes[offset + 6] as u64) << 48u64) | ((
    bytes[offset + 7] as u64) << 56u64)
}

/// The whole words that `bytes` holds.
pub open spec fn words_of(bytes: Seq<u8>) -> Seq<u64> {
    Seq::new(bytes.len() / 8, |i: int| le64_at(bytes, 8 * i))
}

fn push_reg_line(out: &mut Vec<u8>, label: &str, v: u64)
    ensures
        final(out)@ == old(out)@ + reg_line(label, v),
{
    push_str(out, label);
    push_hex_fixed(out, v, 16);
    push_str(out, " \n");
    proof {
        assert(final(out)@ =~= old(out)@ + reg_line(label, v));
    }
}

impl ScratchRegisters {
    /// The dump of the scratch registers.
    pub open spec fn spec_text(&self) -> Seq<u8> {
        reg_line("RAX = 0x", self.rax) + reg_line("RCX = 0x", self.rcx) + reg_line(
            "RDX = 0x",
            self.rdx,
        ) + reg_line("RDI = 0x", self.rdi) + reg_line("RSI = 0x", self.rsi) + reg_line(
            "R8  = 0x",
            self.r8,
        ) + reg_line("R9  = 0x", self.r9) + reg_line("R10 = 0x", self.r10) + reg_line(
            "R11 = 0x",
            self.r11,
        )
    }

    /// The dump of the scratch registers, one line each.
    pub fn text(&self) -> (r: Vec<u8>)
        ensures
            r@ == self.spec_text(),
    {
        let mut out: Vec<u8> = Vec::new();
        push_reg_line(&mut out, "RAX = 0x", self.rax);
        push_reg_line(&mut out, "RCX = 0x", self.rcx);
        push_reg_line(&mut out, "RDX = 0x", self.rdx);
        push_reg_line(&mut out, "RDI = 0x", self.rdi);
        push_reg_line(&mut out, "RSI = 0x", self.rsi);
        push_reg_line(&mut out, "R8  = 0x", self.r8);
        push_reg_line(&mut out, "R9  = 0x", self.r9);
        push_reg_line(&mut out, "R10 = 0x", self.r10);
        push_reg_line(&mut out, "R11 = 0x", self.r11);
        proof {
            assert(out@ =~= self.spec_text());
        }
        out
    }

    /// Writes the dump of the scratch registers.
    pub fn dump(&self, writer: &mut Writer)
        requires
            old(writer).wf(),
        ensures
            final(writer).wf(),
            final(writer)@ == put_text(old(writer)@, self.spec_text()),
    {
        let t = self.text();
        writer.write_bytes(t.as_slice());
    }
}

impl PreservedRegisters {
    /// The dump of the preserved registers.
    pub open spec fn spec_text(&self) -> Seq<u8> {
        reg_line("RBX = 0x", self.rbx) + reg_line("RBP = 0x", self.rbp) + reg_line(
            "R12 = 0x",
            self.r12,
        ) + reg_line("R13 = 0x", self.r13) + reg_line("R14 = 0x", self.r14) + reg_line(
            "R15 = 0x",
            self.r15,
        )
    }

    /// The dump of the preserved registers, one line each.
    pub fn text(&self) -> (r: Vec<u8>)
        ensures
            r@ == self.spec_text(),
    {
        let mut out: Vec<u8> = Vec::new();
        push_reg_line(&mut out, "RBX = 0x", self.rbx);
        push_reg_line(&mut out, "RBP = 0x", self.rbp);
        push_reg_line(&mut out, "R12 = 0x", self.r12);
        push_reg_line(&mut out, "R13 = 0x", self.r13);
        push_reg_line(&mut out, "R14 = 0x", self.r14);
        push_reg_line(&mut out, "R15 = 0x", self.r15);
        proof {
            assert(out@ =~= self.spec_text());
        }
        out
    }

    /// Writes the dump of the preserved registers.
    pub fn dump(&self, writer: &mut Writer)
        requires
            old(writer).wf(),
        ensures
            final(writer).wf(),
            final(writer)@ == put_text(old(writer)@, self.spec_text()),
    {
        let t = self.text();
        writer.write_bytes(t.as_slice());
    }
}

impl IretRegisters {
    /// The dump of the return frame: flags, code segment, instruction
    /// pointer, stack pointer, stack segment.
    pub open spec fn spec_text(&self) -> Seq<u8> {
        reg_line("RFLAG = 0x", self.rflags) + reg_line("CS    = 0x", self.cs) + reg_line(
            "RIP   = 0x",
            self.rip,
        ) + reg_line("RSP   = 0x", self.rsp) + reg_line("SS    = 0x", self.ss)
    }

    /// The dump of the return frame, one line each.
    pub fn text(&self) -> (r: Vec<u8>)
        ensures
            r@ == self.spec_text(),
    {
        let mut out: Vec<u8> = Vec::new();
        push_reg_line(&mut out, "RFLAG = 0x", self.rflags);
        push_reg_line(&mut out, "CS    = 0x", self.cs);
        push_reg_line(&mut out, "RIP   = 0x", self.rip);
        push_reg_line(&mut out, "RSP   = 0x", self.rsp);
        push_reg_line(&mut out, "SS    = 0x", self.ss);
        proof {
            assert(out@ =~= self.spec_text());
        }
        out
    }

    /// Writes the dump of the return frame.
    pub fn dump(&self, writer: &mut Writer)
        requires
            old(writer).wf(),
        ensures
            final(writer).wf(),
            final(writer)@ == put_text(old(writer)@, self.spec_text()),
    {
        let t = self.text();
        writer.write_bytes(t.as_slice());
    }
}

impl StackFrame {
    /// The full dump: scratch registers, preserved registers, return frame.
    pub open spec fn spec_text(&self) -> Seq<u8> {
        self.scratch.spec_text() + self.preserved.spec_text() + self.iret.spec_text()
    }

    /// The saved value of a general-purpose register.
    pub open spec fn spec_register(&self, reg: Register) -> u64 {
        match reg {
            Register::Rax => self.scratch.rax,
            Register::Rcx => self.scratch.rcx,
            Register::Rdx => self.scratch.rdx,
            Register::Rdi => self.scratch.rdi,
            Register::Rsi => self.scratch.rsi,
            Register::R8 => self.scratch.r8,
            Register::R9 => self.scratch.r9,
            Register::R10 => self.scratch.r10,
            Register::R11 => self.scratch.r11,
            Register::Rbx => self.preserved.rbx,
            Register::Rbp => self.preserved.rbp,
            Register::R12 => self.preserved.r12,
            Register::R13 => self.preserved.r13,
            Register::R14 => self.preserved.r14,
            Register::R15 => self.preserved.r15,
        }
    }

    /// The saved value of a general-purpose register.
    pub fn register(&self, reg: Register) -> (r: u64)
        ensures
            r == self.spec_register(reg),
    {
        match reg {
            Register::Rax => self.scratch.rax,
            Register::Rcx => self.scratch.rcx,
            Register::Rdx => self.scratch.rdx,
            Register::Rdi => self.scratch.rdi,
            Register::Rsi => self.scratch.rsi,
            Register::R8 => self.scratch.r8,
            Register::R9 => self.scratch.r9,
            Register::R10 => self.scratch.r10,
            Register::R11 => self.scratch.r11,
            Register::Rbx => self.preserved.rbx,
            Register::Rbp => self.preserved.rbp,
            Register::R12 => self.preserved.r12,
            Register::R13 => self.preserved.r13,
            Register::R14 => self.preserved.r14,
            Register::R15 => self.preserved.r15,
        }
    }

    /// Reads the frame from the words starting at the stack pointer after the
    /// stub's last push. `has_error_code` tells whether the processor pushed
    /// an error code between the saved registers and its return frame.
    pub fn from_words(words: &[u64], has_error_code: bool) -> (r: StackFrame)
        requires
            words@.len() >= frame_words(has_error_code),
        ensures
            r == frame_of(words@, has_error_code),
    {
        let f = return_frame_offset_words(has_error_code);
        StackFrame {
            preserved: PreservedRegisters {
                r15: words[saved_word_of(Register::R15)],
                r14: words[saved_word_of(Register::R14)],
                r13: words[saved_word_of(Register::R13)],
                r12: words[saved_word_of(Register::R12)],
                rbp: words[saved_word_of(Register::Rbp)],
                rbx: words[saved_word_of(Register::Rbx)],
            },
            scratch: ScratchRegisters {
                r11: words[saved_word_of(Register::R11)],
                r10: words[saved_word_of(Register::R10)],
                r9: words[saved_word_of(Register::R9)],
                r8: words[saved_word_of(Register::R8)],
                rsi: words[saved_word_of(Register::Rsi)],
                rdi: words[saved_word_of(Register::Rdi)],
                rdx: words[saved_word_of(Register::Rdx)],
                rcx: words[saved_word_of(Register::Rcx)],
                rax: words[saved_word_of(Register::Rax)],
            },
            iret: IretRegisters {
                rip: words[f],
                cs: words[f + 1],
                rflags: words[f + 2],
                rsp: words[f + 3],
                ss: words[f + 4],
            },
        }
    }

    /// Reads the frame from its bytes, eight little-endian bytes per word.
    pub fn from_bytes(bytes: &[u8], has_error_code: bool) -> (r: StackFrame)
        requires
            bytes@.len() >= frame_words(has_error_code) * WORD_SIZE,
        ensures
            r == frame_of(words_of(bytes@), has_error_code),
    {
        let n = frame_len_words(has_error_code);
        let mut words: Vec<u64> = Vec::new();
        let mut i: usize = 0;
        while i < n
            invariant
                n == frame_words(has_error_code),
                i <= n,
                bytes@.len() >= n * 8,
                words@.len() == i,
                forall|k: int| 0 <= k < i ==> words@[k] == le64_at(bytes@, 8 * k),
            decreases n - i,
        {
            let o = 8 * i;
            let w = (bytes[o] as u64) | ((bytes[o + 1] as u64) << 8u64) | ((bytes[o + 2] as u64)
                << 16u64) | ((bytes[o + 3] as u64) << 24u64) | ((bytes[o + 4] as u64) << 32u64)
                | ((bytes[o + 5] as u64) << 40u64) | ((bytes[o + 6] as u64) << 48u64) | ((bytes[o
                + 7] as u64) << 56u64);
            words.push(w);
            i = i + 1;
        }
        let r = StackFrame::from_words(words.as_slice(), has_error_code);
        proof {
            let ws = words_of(bytes@);
            assert(forall|k: int| 0 <= k < n ==> words@[k] == ws[k]);
        }
        r
    }

    /// The full dump: scratch registers, preserved registers, return frame.
    pub fn text(&self) -> (r: Vec<u8>)
        ensures
            r@ == self.spec_text(),
    {
        let mut out = self.scratch.text();
        let p = self.preserved.text();
        let i = self.iret.text();
        let mut k: usize = 0;
        while k < p.len()
            invariant
                k <= p@.len(),
                out@ == self.scratch.spec_text() + p@.take(k as int),
            decreases p@.len() - k,
        {
            out.push(p[k]);
            k = k + 1;
            proof {
                assert(out@ =~= self.scratch.spec_text() + p@.take(k as int));
            }
        }
        proof {
            assert(p@.take(k as int) =~= p@);
        }
        let mut k: usize = 0;
        while k < i.len()
            invariant
                k <= i@.len(),
                out@ == self.scratch.spec_text() + self.preserved.spec_text() + i@.take(k as int),
            decreases i@.len() - k,
        {
            out.push(i[k]);
            k = k + 1;
            proof {
                assert(out@ =~= self.scratch.spec_text() + self.preserved.spec_text() + i@.take(
                    k as int,
                ));
            }
        }
        proof {
            assert(i@.take(k as int) =~= i@);
        }
        out
    }

    /// Writes the full dump: scratch registers, preserved registers, return
    /// frame.
    pub fn dump(&self, writer: &mut Writer)
        requires
            old(writer).wf(),
        ensures
            final(writer).wf(),
            final(writer)@ == put_text(old(writer)@, self.spec_text()),
    {
        let t = self.text();
        writer.write_bytes(t.as_slice());
    }
}

/// A frame read from the stub's stack holds each saved register in the word
/// that the stub's push order gives it, whether or not an error code lies
/// between the saved registers and the return frame.
pub proof fn lemma_frame_reads_saved_words(words: Seq<u64>, has_error_code: bool, reg: Register)
    requires
        words.len() >= frame_words(has_error_code),
    ensures
        frame_of(words, has_error_code).spec_register(reg) == words[saved_word(reg)],
{
}

} // verus!
