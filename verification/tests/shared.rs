use kernel::hhloader::mem::vm_layout::{VMLayout, VMLayoutArea};
use kernel::mem::frame::PhysFrame;
use kernel::addr::phys::PhysAddr;
use kernel::shared::loader_info::{LoaderInfo, VirtFrameRangeIncl};
use kernel::shared::logger::{cmdline_logging_level, LogLevel, LogLevelFilter, Logger, LoggerWriter};
use kernel::shared::paging_dir::HwPageDirSupport;
use kernel::shared::uart::{HwUartBase, UartWriteError, UartWriterInner};
use kernel::vm::page_table::PageTableLevel;

struct FakeUart {
    accepts_init: bool,
    inits: u32,
    written: String,
}

impl HwUartBase for FakeUart {
    fn new() -> Self {
        FakeUart { accepts_init: true, inits: 0, written: String::new() }
    }

    fn init_hw(&mut self) -> bool {
        self.inits += 1;
        self.accepts_init
    }

    fn write_str(&mut self, s: &str) -> Result<(), UartWriteError> {
        self.written.push_str(s);
        Ok(())
    }
}

fn send(uart: &mut UartWriterInner<FakeUart>, text: &str) -> Result<(), UartWriteError> {
    let to_send = uart.write_str(text)?;
    uart.m_inner.write_str(to_send)
}

#[test]
fn uart_writer_needs_init() {
    let mut uart: UartWriterInner<FakeUart> = UartWriterInner::new();
    assert!(!uart.m_inited);
    assert_eq!(uart.write_str("lost"), Err(UartWriteError));
    assert_eq!(send(&mut uart, "lost"), Err(UartWriteError));
    assert!(uart.m_inner.written.is_empty());
    assert!(uart.init());
    assert!(uart.init());
    /* the hardware is initialized once */
    assert_eq!(uart.m_inner.inits, 1);
    assert_eq!(uart.write_str("hello"), Ok("hello"));
    assert_eq!(send(&mut uart, "hello"), Ok(()));
    assert_eq!(uart.m_inner.written, "hello");
}

#[test]
fn uart_writer_failed_init() {
    let mut uart: UartWriterInner<FakeUart> = UartWriterInner::new();
    uart.m_inner.accepts_init = false;
    assert!(!uart.init());
    assert!(!uart.m_inited);
    assert!(uart.m_init_attempted);
    assert_eq!(uart.write_str("x"), Err(UartWriteError));
    /* the failed attempt is recorded: the hardware is not initialized again */
    uart.m_inner.accepts_init = true;
    assert!(!uart.init());
    assert_eq!(uart.m_inner.inits, 1);
    assert!(!uart.m_inited);
}

struct NullWriter;

impl LoggerWriter for NullWriter {
    fn new() -> Self {
        NullWriter
    }
}

#[test]
fn logger_init_and_colors() {
    let mut logger: Logger<NullWriter> = Logger::new_uninitialized();
    assert!(!logger.is_initialized());
    logger.init();
    assert!(logger.is_initialized());
    assert_eq!(Logger::<NullWriter>::color_escape(LogLevel::Error), 31);
    assert_eq!(Logger::<NullWriter>::color_escape(LogLevel::Warn), 33);
    assert_eq!(Logger::<NullWriter>::color_escape(LogLevel::Info), 32);
    assert_eq!(Logger::<NullWriter>::color_escape(LogLevel::Debug), 35);
    assert_eq!(Logger::<NullWriter>::color_escape(LogLevel::Trace), 37);
}

#[test]
fn logging_level_from_cmdline() {
    assert_eq!(cmdline_logging_level("quiet -log-level=trace", LogLevelFilter::Info), LogLevelFilter::Trace);
    assert_eq!(cmdline_logging_level("-log-level=WaRn", LogLevelFilter::Info), LogLevelFilter::Warn);
    assert_eq!(cmdline_logging_level("-log-level=off", LogLevelFilter::Info), LogLevelFilter::Off);
    assert_eq!(cmdline_logging_level("-log-level=loud", LogLevelFilter::Info), LogLevelFilter::Info);
    assert_eq!(cmdline_logging_level("-log-level", LogLevelFilter::Debug), LogLevelFilter::Debug);
    assert_eq!(cmdline_logging_level("", LogLevelFilter::Error), LogLevelFilter::Error);
}

#[test]
fn logger_sets_the_log_max_level() {
    let logger: Logger<NullWriter> = Logger::new_uninitialized();
    logger.set_max_logging_level(LogLevelFilter::Warn);
    assert_eq!(log::max_level(), log::LevelFilter::Warn);
    logger.set_max_logging_level_from_cmdline("-log-level=debug", LogLevelFilter::Info);
    assert_eq!(log::max_level(), log::LevelFilter::Debug);
    logger.set_max_logging_level_from_cmdline("nothing", LogLevelFilter::Error);
    assert_eq!(log::max_level(), log::LevelFilter::Error);
}

#[test]
fn loader_info_keeps_its_parts() {
    let area = VMLayoutArea::new(0x1000, 0x2000);
    let layout = VMLayout {
        m_kern_text_area: area,
        m_kern_heap_area: area,
        m_kern_stack_area: area,
        m_phys_mem_bitmap_area: area,
        m_phys_mem_mapping_area: area,
        m_page_cache_area: area,
        m_tmp_map_area: area,
    };
    let reserved = VirtFrameRangeIncl { m_first_frame: 0x20_0000, m_last_frame: 0x40_0000 };
    let mapped = VirtFrameRangeIncl { m_first_frame: 0, m_last_frame: 0x60_0000 };
    let info = LoaderInfo::new(
        String::from("quiet"),
        layout,
        42,
        reserved,
        mapped,
        String::from("ffff0000 T start"),
        b"GRUB",
    );
    assert_eq!(info.cmdline_args().as_str(), "quiet");
    assert_eq!(*info.vm_layout(), layout);
    assert_eq!(info.bitmap_allocated_bits(), 42);
    assert_eq!(info.loader_reserved_range(), reserved);
    assert_eq!(info.loader_mapped_range(), mapped);
    assert_eq!(info.kernel_symbols_slice(), "ffff0000 T start");
    assert_eq!(info.bootloader_name(), b"GRUB");
    assert_eq!(info.m_bootloader_name[4], 0);
}

#[test]
fn page_dir_support() {
    let frame = HwPageDirSupport::active_page_dir_frame(0x8000_0000_0123_4fff);
    assert_eq!(frame.start_addr().as_usize(), 0x123_4000);
    assert_eq!(HwPageDirSupport::activate_page_dir_value(frame), 0x123_4000);
    let other: PhysFrame = PhysAddr::new(0x5000).containing_frame();
    assert_eq!(HwPageDirSupport::activate_page_dir_value(other), 0x5000);
    assert_eq!(HwPageDirSupport::pt_level_pgdir(), PageTableLevel::Root);
    assert_eq!(HwPageDirSupport::pt_level_4kb(), PageTableLevel::FourKiB);
    assert_eq!(HwPageDirSupport::PT_ENTRIES_COUNT, 512);
}
