use kernel::addr::phys_addr::PhysAddr;
use kernel::boot_info::{
    arg_exists_in, char_is_whitespace, chars_of, find_arg_in, parse_usize, BootInfo, HwBootInfo,
    MemMapArea,
};

fn s(chars: &[char]) -> String {
    chars.iter().collect()
}

fn boot_info(cmdline: &str) -> BootInfo {
    BootInfo::new(String::from("loader"), String::from(cmdline), Vec::new())
}

#[test]
fn whitespace_is_the_unicode_set() {
    for c in [' ', '\t', '\n', '\r', '\u{0B}', '\u{0C}', '\u{85}', '\u{A0}', '\u{2003}', '\u{3000}'] {
        assert!(char_is_whitespace(c));
        assert_eq!(char_is_whitespace(c), c.is_whitespace());
    }
    for c in ['a', '=', '-', '\u{200B}', '0'] {
        assert!(!char_is_whitespace(c));
        assert_eq!(char_is_whitespace(c), c.is_whitespace());
    }
}

#[test]
fn chars_of_copies_the_string() {
    assert_eq!(chars_of("héllo"), vec!['h', 'é', 'l', 'l', 'o']);
    assert!(chars_of("").is_empty());
}

#[test]
fn arg_exists_matches_substrings_of_words() {
    let info = boot_info("  -log-level=debug   quiet\tcpus=4 ");
    assert!(info.cmd_line_arg_exists("quiet"));
    assert!(info.cmd_line_arg_exists("log"));
    assert!(info.cmd_line_arg_exists("=4"));
    assert!(!info.cmd_line_arg_exists("quiet cpus"));
    assert!(!info.cmd_line_arg_exists("verbose"));
    /* the empty key is in every word, but not in an empty command line */
    assert!(info.cmd_line_arg_exists(""));
    assert!(!boot_info("   ").cmd_line_arg_exists(""));
    assert!(!arg_exists_in("", "a"));
}

#[test]
fn find_arg_splits_at_the_first_equal_sign() {
    let info = boot_info("root=/dev/sda1 init=/bin/sh=x quiet");
    let (key, value) = info.cmd_line_find_arg("init").unwrap();
    assert_eq!(s(&key), "init");
    assert_eq!(s(&value.unwrap()), "/bin/sh=x");
    let (key, value) = info.cmd_line_find_arg("quiet").unwrap();
    assert_eq!(s(&key), "quiet");
    assert!(value.is_none());
    /* the first word that contains the key wins */
    let (key, _) = info.cmd_line_find_arg("=").unwrap();
    assert_eq!(s(&key), "root");
    assert!(info.cmd_line_find_arg("nothing").is_none());
    let (key, value) = find_arg_in("a= b", "a").unwrap();
    assert_eq!(s(&key), "a");
    assert_eq!(s(&value.unwrap()), "");
}

#[test]
fn find_arg_int_parses_the_value() {
    let info = boot_info("cpus=12 mem=+42 flag");
    let (key, value) = info.cmd_line_find_arg_int("cpus").unwrap();
    assert_eq!(s(&key), "cpus");
    assert_eq!(value, Some(12));
    assert_eq!(info.cmd_line_find_arg_int("mem").unwrap().1, Some(42));
    assert_eq!(info.cmd_line_find_arg_int("flag").unwrap().1, None);
    assert!(info.cmd_line_find_arg_int("other").is_none());
}

#[test]
fn parse_usize_like_from_str() {
    assert_eq!(parse_usize(&chars_of("0")), 0);
    assert_eq!(parse_usize(&chars_of("+7")), 7);
    assert_eq!(parse_usize(&chars_of("0018446")), 18446);
    assert_eq!(parse_usize(&chars_of("4096")), "4096".parse::<usize>().unwrap());
}

#[test]
fn hw_boot_info_defaults() {
    let hw = HwBootInfo { m_boot_loader_name: None, m_cmd_line: None, m_mem_areas: Some(Vec::new()) };
    assert_eq!(hw.boot_loader_name(), "Multiboot based bootloader");
    assert_eq!(hw.cmd_line_args(), "");
    let hw = HwBootInfo {
        m_boot_loader_name: Some(String::from("GRUB 2.06")),
        m_cmd_line: Some(String::from("quiet")),
        m_mem_areas: Some(Vec::new()),
    };
    assert_eq!(hw.boot_loader_name(), "GRUB 2.06");
    assert_eq!(hw.cmd_line_args(), "quiet");
}

#[test]
fn phys_mem_ranges_skip_the_first_mib() {
    let hw = HwBootInfo {
        m_boot_loader_name: None,
        m_cmd_line: Some(String::from("cpus=2")),
        m_mem_areas: Some(vec![
            MemMapArea { m_start_address: 0, m_size: 0x9_F000 },
            MemMapArea { m_start_address: 0xF_0000, m_size: 0x2_0000 },
            MemMapArea { m_start_address: 0x10_0000, m_size: 0x7F0_0000 },
            MemMapArea { m_start_address: 0xFFF0_0000_0000_0000 | 0x2000_0000, m_size: 0x1000 },
        ]),
    };
    let ranges = hw.phys_mem_ranges();
    let pairs: Vec<(u64, u64)> = ranges.iter().map(|r| (r.start.deref(), r.end.deref())).collect();
    assert_eq!(pairs, vec![(0xF_0000, 0x11_0000), (0x10_0000, 0x800_0000), (0x2000_0000, 0x2000_1000)]);
    let info = BootInfo::from_hw(&hw);
    assert_eq!(info.boot_loader_name().as_str(), "Multiboot based bootloader");
    assert_eq!(info.cmd_line_args().as_str(), "cpus=2");
    assert_eq!(info.boot_mem_areas().len(), 3);
    assert_eq!(info.boot_mem_areas()[0].start, PhysAddr::from(0xF_0000));
}
