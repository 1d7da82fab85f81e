//! x86_64 hardware page table entry
use vstd::prelude::*;
use crate::boot_info::chars_of;

verus! {

/// Mask of the physical frame address in an entry
pub const ENTRY_FRAME_MASK: u64 = 0x000f_ffff_ffff_f000;

/// Mask of the flag bits in an entry
pub const ENTRY_FLAGS_MASK: u64 = 0xfff0_0000_0000_0fff;

/// The bit `bit` of `value` is set
pub open spec fn bit_of(value: u64, bit: u64) -> bool {
    value & (1u64 << bit) != 0
}

/// `value` with the bit `bit` set to `on`
pub open spec fn with_bit(value: u64, bit: u64, on: bool) -> u64 {
    if on {
        value | (1u64 << bit)
    } else {
        value & !(1u64 << bit)
    }
}

/// x86_64 page table entry
#[derive(Clone, Copy, PartialEq, Eq, Structural, Debug)]
pub struct HwPageTableEntry {
    pub m_entry_value: u64,
}

impl HwPageTableEntry {
    /// Constructs an unused entry
    pub fn new() -> (r: Self)
        ensures
            r.m_entry_value == 0,
    {
        Self { m_entry_value: 0 }
    }

    /// Returns the physical frame address
    pub fn raw_phys_frame(&self) -> (r: u64)
        ensures
            r == self.m_entry_value & ENTRY_FRAME_MASK,
    {
        self.m_entry_value & ENTRY_FRAME_MASK
    }

    fn bit_at(&self, bit: u64) -> (r: bool)
        requires
            bit < 64,
        ensures
            r == bit_of(self.m_entry_value, bit),
    {
        self.m_entry_value & (1u64 << bit) != 0
    }

    fn set_bit(&mut self, bit: u64, on: bool)
        requires
            bit < 64,
        ensures
            final(self).m_entry_value == with_bit(old(self).m_entry_value, bit, on),
    {
        if on {
            self.m_entry_value = self.m_entry_value | (1u64 << bit);
        } else {
            self.m_entry_value = self.m_entry_value & !(1u64 << bit);
        }
    }

    /// The entry maps something (bit 0)
    pub fn is_present(&self) -> (r: bool)
        ensures
            r == bit_of(self.m_entry_value, 0),
    {
        self.bit_at(0)
    }

    /// Every mapping of this architecture is readable
    pub fn is_readable(&self) -> (r: bool)
        ensures
            r,
    {
        true
    }

    /// Writes are allowed (bit 1)
    pub fn is_writeable(&self) -> (r: bool)
        ensures
            r == bit_of(self.m_entry_value, 1),
    {
        self.bit_at(1)
    }

    /// Caching is allowed: the cache disable bit (4) is clear
    pub fn is_cacheable(&self) -> (r: bool)
        ensures
            r == !bit_of(self.m_entry_value, 4),
    {
        !self.bit_at(4)
    }

    /// The mapping is global (bit 8)
    pub fn is_global(&self) -> (r: bool)
        ensures
            r == bit_of(self.m_entry_value, 8),
    {
        self.bit_at(8)
    }

    /// The entry maps a huge page (bit 7)
    pub fn is_huge_page(&self) -> (r: bool)
        ensures
            r == bit_of(self.m_entry_value, 7),
    {
        self.bit_at(7)
    }

    /// The mapping was accessed (bit 5)
    pub fn is_accessed(&self) -> (r: bool)
        ensures
            r == bit_of(self.m_entry_value, 5),
    {
        self.bit_at(5)
    }

    /// The mapping was written (bit 6)
    pub fn is_dirty(&self) -> (r: bool)
        ensures
            r == bit_of(self.m_entry_value, 6),
    {
        self.bit_at(6)
    }

    /// Instruction fetches are not allowed (bit 63)
    pub fn is_no_execute(&self) -> (r: bool)
        ensures
            r == bit_of(self.m_entry_value, 63),
    {
        self.bit_at(63)
    }

    /// User mode accesses are allowed (bit 2)
    pub fn is_user(&self) -> (r: bool)
        ensures
            r == bit_of(self.m_entry_value, 2),
    {
        self.bit_at(2)
    }

    /// The entry is all zero
    pub fn is_unused(&self) -> (r: bool)
        ensures
            r == (self.m_entry_value == 0),
    {
        self.m_entry_value == 0
    }

    /// Sets the physical frame address, keeping the flags
    pub fn set_raw_phys_frame(&mut self, raw_phys_frame: u64)
        ensures
            final(self).m_entry_value == raw_phys_frame | (old(self).m_entry_value
                & ENTRY_FLAGS_MASK),
    {
        self.m_entry_value = raw_phys_frame | (self.m_entry_value & ENTRY_FLAGS_MASK);
    }

    /// Sets the present bit
    pub fn set_present(&mut self, is_present: bool)
        ensures
            final(self).m_entry_value == with_bit(old(self).m_entry_value, 0, is_present),
    {
        self.set_bit(0, is_present);
    }

    /// This architecture has no readable bit: the entry is unchanged
    pub fn set_readable(&mut self, _is_readable: bool)
        ensures
            final(self).m_entry_value == old(self).m_entry_value,
    {
    }

    /// Sets the writeable bit
    pub fn set_writeable(&mut self, is_writeable: bool)
        ensures
            final(self).m_entry_value == with_bit(old(self).m_entry_value, 1, is_writeable),
    {
        self.set_bit(1, is_writeable);
    }

    /// Sets the cache disable bit to the opposite of `is_cacheable`
    pub fn set_cacheable(&mut self, is_cacheable: bool)
        ensures
            final(self).m_entry_value == with_bit(old(self).m_entry_value, 4, !is_cacheable),
    {
        self.set_bit(4, !is_cacheable);
    }

    /// Sets the global bit
    pub fn set_global(&mut self, is_global: bool)
        ensures
            final(self).m_entry_value == with_bit(old(self).m_entry_value, 8, is_global),
    {
        self.set_bit(8, is_global);
    }

    /// Sets the huge page bit
    pub fn set_huge_page(&mut self, is_huge_page: bool)
        ensures
            final(self).m_entry_value == with_bit(old(self).m_entry_value, 7, is_huge_page),
    {
        self.set_bit(7, is_huge_page);
    }

    /// Sets the accessed bit
    pub fn set_accessed(&mut self, is_accessed: bool)
        ensures
            final(self).m_entry_value == with_bit(old(self).m_entry_value, 5, is_accessed),
    {
        self.set_bit(5, is_accessed);
    }

    /// Sets the dirty bit
    pub fn set_dirty(&mut self, is_dirty: bool)
        ensures
            final(self).m_entry_value == with_bit(old(self).m_entry_value, 6, is_dirty),
    {
        self.set_bit(6, is_dirty);
    }

    /// Sets the no execute bit
    pub fn set_no_execute(&mut self, is_no_execute: bool)
        ensures
            final(self).m_entry_value == with_bit(old(self).m_entry_value, 63, is_no_execute),
    {
        self.set_bit(63, is_no_execute);
    }

    /// Sets the user bit
    pub fn set_user(&mut self, is_user: bool)
        ensures
            final(self).m_entry_value == with_bit(old(self).m_entry_value, 2, is_user),
    {
        self.set_bit(2, is_user);
    }

    /// Clears the whole entry
    pub fn set_unused(&mut self)
        ensures
            final(self).m_entry_value == 0,
    {
        self.m_entry_value = 0;
    }

    /// Returns the names of the flags that are set, in the order in which the
    /// entry is described: present, readable, writeable, cacheable, global,
    /// huge page, accessed, dirty, no execute, user
    pub fn flag_names(&self) -> (r: Vec<&'static str>)
        ensures
            r@ == spec_flag_names(self.m_entry_value),
    {
        let flags = [
            self.is_present(),
            self.is_readable(),
            self.is_writeable(),
            self.is_cacheable(),
            self.is_global(),
            self.is_huge_page(),
            self.is_accessed(),
            self.is_dirty(),
            self.is_no_execute(),
            self.is_user(),
        ];
        let names = [
            "is_present",
            "is_readable",
            "is_writeable",
            "is_cacheable",
            "is_global",
            "is_huge_page",
            "is_accessed",
            "is_dirty",
            "is_no_execute",
            "is_user",
        ];
        let mut out: Vec<&'static str> = Vec::new();
        let mut i: usize = 0;
        while i < 10
            invariant
                i <= 10,
                flags@ == spec_flags(self.m_entry_value),
                names@ == spec_names(),
                out@ == select_names(spec_flags(self.m_entry_value), spec_names(), i as int),
            decreases 10 - i,
        {
            if flags[i] {
                out.push(names[i]);
            }
            i = i + 1;
        }
        out
    }
}

/// The flags of `value` in the described order
pub open spec fn spec_flags(value: u64) -> Seq<bool> {
    seq![
        bit_of(value, 0),
        true,
        bit_of(value, 1),
        !bit_of(value, 4),
        bit_of(value, 8),
        bit_of(value, 7),
        bit_of(value, 5),
        bit_of(value, 6),
        bit_of(value, 63),
        bit_of(value, 2),
    ]
}

/// The names of the flags in the described order
pub open spec fn spec_names() -> Seq<&'static str> {
    seq![
        "is_present",
        "is_readable",
        "is_writeable",
        "is_cacheable",
        "is_global",
        "is_huge_page",
        "is_accessed",
        "is_dirty",
        "is_no_execute",
        "is_user",
    ]
}

/// The names among the first `n` whose flag is set
pub open spec fn select_names(flags: Seq<bool>, names: Seq<&'static str>, n: int) -> Seq<
    &'static str,
>
    decreases n,
{
    if n <= 0 {
        Seq::empty()
    } else if flags[n - 1] {
        select_names(flags, names, n - 1).push(names[n - 1])
    } else {
        select_names(flags, names, n - 1)
    }
}

/// The names of the flags of `value` that are set
pub open spec fn spec_flag_names(value: u64) -> Seq<&'static str> {
    select_names(spec_flags(value), spec_names(), 10)
}

/// Setting a flag bit then reading it gives what was set, and leaves the
/// other bits as they were
pub proof fn lemma_set_then_read_bit(value: u64, bit: u64, other: u64, on: bool)
    requires
        bit < 64,
        other < 64,
        other != bit,
    ensures
        bit_of(with_bit(value, bit, on), bit) == on,
        bit_of(with_bit(value, bit, on), other) == bit_of(value, other),
{
    assert(((value | (1u64 << bit)) & (1u64 << bit) != 0) && ((value & !(1u64 << bit)) & (1u64
        << bit) == 0)) by (bit_vector)
        requires
            bit < 64,
    ;
    assert(((value | (1u64 << bit)) & (1u64 << other) != 0) == (value & (1u64 << other) != 0)
        && ((value & !(1u64 << bit)) & (1u64 << other) != 0) == (value & (1u64 << other) != 0))
        by (bit_vector)
        requires
            bit < 64,
            other < 64,
            other != bit,
    ;
}

/// Setting the frame address of an entry keeps its flags, and reading the
/// frame back gives the address when it is page aligned and fits 52 bits
pub proof fn lemma_set_frame_keeps_flags(value: u64, frame: u64)
    requires
        frame & !ENTRY_FRAME_MASK == 0,
    ensures
        (frame | (value & ENTRY_FLAGS_MASK)) & ENTRY_FRAME_MASK == frame,
        (frame | (value & ENTRY_FLAGS_MASK)) & ENTRY_FLAGS_MASK == value & ENTRY_FLAGS_MASK,
{
    assert((frame | (value & 0xfff0_0000_0000_0fffu64)) & 0x000f_ffff_ffff_f000u64 == frame && (
    frame | (value & 0xfff0_0000_0000_0fffu64)) & 0xfff0_0000_0000_0fffu64 == value
        & 0xfff0_0000_0000_0fffu64) by (bit_vector)
        requires
            frame & !0x000f_ffff_ffff_f000u64 == 0,
    ;
}

/// The lower case hexadecimal digit of `d`
pub open spec fn hex_digit(d: u64) -> char {
    if d < 10 {
        ((48 + d) as u8) as char
    } else {
        ((87 + d) as u8) as char
    }
}

/// The four hexadecimal digits of the 16 bit value `v`
pub open spec fn hex4(v: u64) -> Seq<char> {
    seq![
        hex_digit((v / 4096) % 16),
        hex_digit((v / 256) % 16),
        hex_digit((v / 16) % 16),
        hex_digit(v % 16),
    ]
}

/// The text of a physical address: `0x` and four groups of four hexadecimal
/// digits, from the highest, separated by `_`
pub open spec fn spec_addr_text(a: u64) -> Seq<char> {
    seq!['0', 'x'] + hex4(a / 0x1_0000_0000_0000) + seq!['_'] + hex4((a / 0x1_0000_0000) % 0x1_0000)
        + seq!['_'] + hex4((a / 0x1_0000) % 0x1_0000) + seq!['_'] + hex4(a % 0x1_0000)
}

/// The names joined with ` | `
pub open spec fn join_names(names: Seq<&'static str>) -> Seq<char>
    decreases names.len(),
{
    if names.len() == 0 {
        Seq::empty()
    } else if names.len() == 1 {
        names[0]@
    } else {
        join_names(names.drop_last()) + seq![' ', '|', ' '] + names.last()@
    }
}

/// The debugging text of the entry `value`: its frame address, then the
/// names of its set flags joined with ` | `, or `0` when none is set
pub open spec fn spec_debug_text(value: u64) -> Seq<char> {
    let names = spec_flag_names(value);
    "HwPageTableEntry { m_phys_addr: "@ + spec_addr_text(value & ENTRY_FRAME_MASK) + ", m_flags: "@
        + join_names(names) + if names.len() == 0 {
        "0 }"@
    } else {
        " }"@
    }
}

/// Returns the lower case hexadecimal digit of `d`
fn hex_digit_exec(d: u64) -> (r: char)
    requires
        d < 16,
    ensures
        r == hex_digit(d),
{
    if d < 10 {
        ((48 + d) as u8) as char
    } else {
        ((87 + d) as u8) as char
    }
}

/// Appends the four hexadecimal digits of `v` to `out`
fn push_hex4(out: &mut Vec<char>, v: u64)
    ensures
        final(out)@ == old(out)@ + hex4(v),
{
    out.push(hex_digit_exec((v / 4096) % 16));
    out.push(hex_digit_exec((v / 256) % 16));
    out.push(hex_digit_exec((v / 16) % 16));
    out.push(hex_digit_exec(v % 16));
}

/// Returns the text of the physical address `a`
pub fn addr_text(a: u64) -> (r: Vec<char>)
    ensures
        r@ == spec_addr_text(a),
{
    let mut out: Vec<char> = Vec::new();
    out.push('0');
    out.push('x');
    push_hex4(&mut out, a / 0x1_0000_0000_0000);
    out.push('_');
    push_hex4(&mut out, (a / 0x1_0000_0000) % 0x1_0000);
    out.push('_');
    push_hex4(&mut out, (a / 0x1_0000) % 0x1_0000);
    out.push('_');
    push_hex4(&mut out, a % 0x1_0000);
    assert(out@ =~= spec_addr_text(a));
    out
}

impl HwPageTableEntry {
    /// Returns the debugging text of the entry: its frame address and the
    /// names of its set flags
    pub fn debug_text(&self) -> (r: Vec<char>)
        ensures
            r@ == spec_debug_text(self.m_entry_value),
    {
        let mut out = chars_of("HwPageTableEntry { m_phys_addr: ");
        let mut addr = addr_text(self.raw_phys_frame());
        out.append(&mut addr);
        let mut flags_label = chars_of(", m_flags: ");
        out.append(&mut flags_label);
        let ghost prefix = out@;
        let names = self.flag_names();
        let n = names.len();
        let mut j: usize = 0;
        while j < n
            invariant
                n == names@.len(),
                j <= n,
                out@ == prefix + join_names(names@.take(j as int)),
            decreases n - j,
        {
            proof {
                assert(names@.take(j + 1).drop_last() =~= names@.take(j as int));
            }
            if j > 0 {
                out.push(' ');
                out.push('|');
                out.push(' ');
            }
            let mut name = chars_of(names[j]);
            out.append(&mut name);
            proof {
                if j == 0 {
                    assert(join_names(names@.take(1)) == names@[0]@);
                }
                assert(out@ =~= prefix + join_names(names@.take(j + 1)));
            }
            j = j + 1;
        }
        assert(names@.take(n as int) =~= names@);
        if n == 0 {
            let mut end = chars_of("0 }");
            out.append(&mut end);
        } else {
            let mut end = chars_of(" }");
            out.append(&mut end);
        }
        out
    }
}

} // verus!
