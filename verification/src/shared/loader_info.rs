//! Information that the loader hands to the kernel core
use vstd::prelude::*;
use crate::hhloader::mem::vm_layout::VMLayout;

verus! {

/// Size in bytes of the bootloader name stored into `LoaderInfo`
pub const BOOTLOADER_NAME_LEN_MAX: usize = 64;

/// Inclusive range of 2 MiB virtual frames, by their first addresses
#[derive(Clone, Copy, PartialEq, Eq, Structural, Debug)]
pub struct VirtFrameRangeIncl {
    pub m_first_frame: u64,
    pub m_last_frame: u64,
}

/// What the loader shares with the kernel core when it starts it
pub struct LoaderInfo {
    pub m_cmdline_args: String,
    pub m_vm_layout: VMLayout,
    pub m_bitmap_allocated_bits: u64,
    pub m_loader_reserved_range: VirtFrameRangeIncl,
    pub m_loader_mapped_range: VirtFrameRangeIncl,
    pub m_kern_symbols: String,
    pub m_bootloader_name: [u8; 64],
    pub m_bootloader_name_len: usize,
}

impl LoaderInfo {
    /// Constructs a `LoaderInfo`: the bootloader name is copied into the
    /// fixed buffer
    pub fn new(
        cmdline_args: String,
        vm_layout: VMLayout,
        bitmap_allocated_bits: u64,
        loader_reserved_range: VirtFrameRangeIncl,
        loader_mapped_range: VirtFrameRangeIncl,
        kern_symbols: String,
        bootloader_name: &[u8],
    ) -> (r: Self)
        requires
            bootloader_name@.len() <= BOOTLOADER_NAME_LEN_MAX,
        ensures
            r.m_cmdline_args@ == cmdline_args@,
            r.m_vm_layout == vm_layout,
            r.m_bitmap_allocated_bits == bitmap_allocated_bits,
            r.m_loader_reserved_range == loader_reserved_range,
            r.m_loader_mapped_range == loader_mapped_range,
            r.m_kern_symbols@ == kern_symbols@,
            r.m_bootloader_name_len == bootloader_name@.len(),
            r.m_bootloader_name@.subrange(0, bootloader_name@.len() as int) == bootloader_name@,
            forall|i: int|
                bootloader_name@.len() <= i < BOOTLOADER_NAME_LEN_MAX ==> #[trigger] r.m_bootloader_name@[i]
                    == 0,
    {
        let mut name_buffer = [0u8; 64];
        let n = bootloader_name.len();
        let mut k: usize = 0;
        while k < n
            invariant
                n == bootloader_name@.len(),
                n <= BOOTLOADER_NAME_LEN_MAX,
                k <= n,
                name_buffer@.len() == BOOTLOADER_NAME_LEN_MAX,
                forall|i: int| 0 <= i < k ==> name_buffer@[i] == bootloader_name@[i],
                forall|i: int| k <= i < BOOTLOADER_NAME_LEN_MAX ==> #[trigger] name_buffer@[i] == 0,
            decreases n - k,
        {
            name_buffer[k] = bootloader_name[k];
            k = k + 1;
        }
        assert(name_buffer@.subrange(0, n as int) =~= bootloader_name@);
        Self {
            m_cmdline_args: cmdline_args,
            m_vm_layout: vm_layout,
            m_bitmap_allocated_bits: bitmap_allocated_bits,
            m_loader_reserved_range: loader_reserved_range,
            m_loader_mapped_range: loader_mapped_range,
            m_kern_symbols: kern_symbols,
            m_bootloader_name: name_buffer,
            m_bootloader_name_len: n,
        }
    }

    /// Returns the kernel's command line
    pub fn cmdline_args(&self) -> (r: &String)
        ensures
            r@ == self.m_cmdline_args@,
    {
        &self.m_cmdline_args
    }

    /// Returns the virtual memory layout of the kernel core
    pub fn vm_layout(&self) -> (r: &VMLayout)
        ensures
            *r == self.m_vm_layout,
    {
        &self.m_vm_layout
    }

    /// Returns the amount of bits allocated into the bitmap area
    pub fn bitmap_allocated_bits(&self) -> (r: u64)
        ensures
            r == self.m_bitmap_allocated_bits,
    {
        self.m_bitmap_allocated_bits
    }

    /// Returns the virtual range on which the loader physically resides,
    /// whose physical pages can be made available again
    pub fn loader_reserved_range(&self) -> (r: VirtFrameRangeIncl)
        ensures
            r == self.m_loader_reserved_range,
    {
        self.m_loader_reserved_range
    }

    /// Returns the range of virtual memory mapped at first, which must be
    /// unmapped
    pub fn loader_mapped_range(&self) -> (r: VirtFrameRangeIncl)
        ensures
            r == self.m_loader_mapped_range,
    {
        self.m_loader_mapped_range
    }

    /// Returns the kernel symbols
    pub fn kernel_symbols_slice(&self) -> (r: &str)
        ensures
            r@ == self.m_kern_symbols@,
    {
        self.m_kern_symbols.as_str()
    }

    /// Returns the bytes of the bootloader's name
    pub fn bootloader_name(&self) -> (r: &[u8])
        requires
            self.m_bootloader_name_len <= BOOTLOADER_NAME_LEN_MAX,
        ensures
            r@ == self.m_bootloader_name@.subrange(0, self.m_bootloader_name_len as int),
    {
        slice_prefix(&self.m_bootloader_name, self.m_bootloader_name_len)
    }
}

/// Returns the first `len` bytes of `bytes`
fn slice_prefix(bytes: &[u8; 64], len: usize) -> (r: &[u8])
    requires
        len <= 64,
    ensures
        r@ == bytes@.subrange(0, len as int),
{
    vstd::slice::slice_subrange(bytes.as_slice(), 0, len)
}

} // verus!
