//! x86_64 interrupt stack frame
use vstd::prelude::*;

verus! {

/// x86_64 interrupt stack frame: the general purpose registers saved by the
/// service routines, then the fields that the CPU pushes
#[derive(Clone, Copy, PartialEq, Eq, Structural, Debug)]
pub struct IntrStackFrame {
    pub m_r15: u64,
    pub m_r14: u64,
    pub m_r13: u64,
    pub m_r12: u64,
    pub m_r11: u64,
    pub m_r10: u64,
    pub m_r9: u64,
    pub m_r8: u64,
    pub m_rbp: u64,
    pub m_rsi: u64,
    pub m_rdi: u64,
    pub m_rdx: u64,
    pub m_rcx: u64,
    pub m_rbx: u64,
    pub m_rax: u64,
    pub m_intr_num: u64,
    pub m_error_code: u64,
    pub m_rip: u64,
    pub m_cs: u64,
    pub m_rflags: u64,
    pub m_usr_sp: u64,
    pub m_usr_ss: u64,
    pub _unused_alignment: u64,
}

impl IntrStackFrame {
    /// Returns whether the interrupt came from user space: the interrupt
    /// number 0, or the interrupt flag (bit 9) set in the saved RFLAGS
    pub fn is_from_user_space(&self) -> (r: bool)
        ensures
            r == (self.m_intr_num == 0 || self.m_rflags & (1u64 << 9u64) != 0),
    {
        self.m_intr_num == 0 || self.m_rflags & (1u64 << 9u64) != 0
    }
}

} // verus!
