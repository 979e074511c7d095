//! Interrupt and exception machinery of a small x86-64 kernel: encoding of
//! gate descriptors and the dispatch table, the register save layout shared
//! by the entry stubs and the stack-frame model, page-fault error-code
//! decoding, the text-mode screen writer and the diagnostic reports of the
//! exception handlers.

pub mod exception;
pub mod idt;
pub mod page_fault;
pub mod print;
pub mod registers;
pub mod text;
pub mod trampoline;
