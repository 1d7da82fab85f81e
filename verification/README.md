# kernel

The verified core of a small x86_64 kernel and of its higher half loader,
written in Verus.

- `src/` is the library. Every function there carries a contract that Verus
  proves: addresses and alignment, the frame bitmap allocator, the loader's
  early frame allocator and its randomized virtual memory layout, the
  descriptor tables (GDT, TSS, IDT), the PIC, PIT and APIC programming, the
  ACPI table walk over an image of the physical memory, the boot information
  and its command line, the speed calibration of a core, the serial port and
  the logger. Hardware accesses are not made there: the functions return the
  port, register and MSR writes to perform, or take the values read.
- `app/` is the hardware side: the instructions that touch ports, MSRs and
  control registers, the multiboot2 information, the 16550 serial port, the
  global logger, and the loops that feed the library's state machines
  (layout randomization, speed calibration) with random numbers and
  measures.
- `tests/` runs the library on concrete values.

The only trusted items are two wrappers of the `log` crate: the setting of
its maximum level and the parsing of a level name.
