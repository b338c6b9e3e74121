use sysreport::board::{board_strings, motherboard_label, BoardQuery};
use sysreport::disks::{filter_disks, DiskRecord};
use sysreport::inventory::{assemble, collect_inventory, CpuSample};
use sysreport::numfmt::u64_to_dec;
use sysreport::ram::{parse_structured_ram, ram_descriptor, ram_type, RamQuery};
use sysreport::text::{first_field, second_field, trim};

#[test]
fn trim_removes_surrounding_whitespace() {
    assert_eq!(trim("  hello \n"), "hello");
    assert_eq!(trim("\t ASUS ROG\r\n"), "ASUS ROG");
    assert_eq!(trim("plain"), "plain");
    assert_eq!(trim(""), "");
    assert_eq!(trim(" \t\r\n "), "");
}

#[test]
fn trim_matches_std_on_unicode_whitespace() {
    assert_eq!(trim("\u{a0}x\u{a0}"), "\u{a0}x\u{a0}".trim());
    assert_eq!(trim("\u{a0}x\u{a0}"), "x");
    assert_eq!(trim("\u{2003}\u{2028}board\u{3000}"), "board");
    assert_eq!(trim("\u{85}\u{b}\u{c}"), "");
}

#[test]
fn first_field_extracts_the_leading_token() {
    assert_eq!(first_field("  26 3200 "), Some("26".to_string()));
    assert_eq!(first_field("one"), Some("one".to_string()));
    assert_eq!(first_field("   "), None);
    assert_eq!(first_field(""), None);
}

#[test]
fn second_field_extracts_a_speed_token() {
    assert_eq!(second_field("Speed: 3200 MT/s"), Some("3200".to_string()));
    assert_eq!(second_field("  one   two  three "), Some("two".to_string()));
    assert_eq!(second_field("Speed:"), None);
    assert_eq!(second_field(""), None);
    assert_eq!(second_field("   "), None);
}

#[test]
fn decimal_formatting_is_exact() {
    assert_eq!(u64_to_dec(0), "0");
    assert_eq!(u64_to_dec(7), "7");
    assert_eq!(u64_to_dec(3200), "3200");
    assert_eq!(u64_to_dec(1073741824), "1073741824");
    assert_eq!(u64_to_dec(u64::MAX), "18446744073709551615");
}

#[test]
fn ram_type_codes_map_to_generations() {
    assert_eq!(ram_descriptor(26, "3200 MHz"), "DDR4 @ 3200 MHz");
    assert_eq!(ram_descriptor(34, "4800 MHz"), "DDR5 @ 4800 MHz");
    assert_eq!(ram_descriptor(24, "1600 MHz"), "DDR3 @ 1600 MHz");
    assert_eq!(ram_descriptor(99, "2666 MHz"), "DDR @ 2666 MHz");
}

#[test]
fn undetected_speed_falls_back_to_ddr4_guess() {
    let empty = ram_descriptor(26, "");
    assert!(empty.contains("DDR4"));
    assert_eq!(empty, "DDR4 (not detected)");
    let zero = ram_descriptor(26, "0 MHz");
    assert!(zero.contains("DDR4"));
    assert_eq!(zero, "DDR4 (not detected)");
}

#[test]
fn structured_ram_query_formats_code_and_speed() {
    let q = RamQuery::Structured { type_code: 26, speed_mhz: 3200 };
    assert_eq!(ram_type(&q), "DDR4 @ 3200 MHz");
    let q5 = RamQuery::Structured { type_code: 34, speed_mhz: 6000 };
    assert_eq!(ram_type(&q5), "DDR5 @ 6000 MHz");
    let zero = RamQuery::Structured { type_code: 26, speed_mhz: 0 };
    assert_eq!(ram_type(&zero), "DDR4 (not detected)");
}

#[test]
fn structured_output_parses_to_code_and_speed() {
    assert!(matches!(
        parse_structured_ram("26 3200"),
        RamQuery::Structured { type_code: 26, speed_mhz: 3200 }
    ));
    assert!(matches!(
        parse_structured_ram(" 34 6000 \r\n"),
        RamQuery::Structured { type_code: 34, speed_mhz: 6000 }
    ));
    assert_eq!(ram_type(&parse_structured_ram("26 3200")), "DDR4 @ 3200 MHz");
}

#[test]
fn malformed_structured_output_counts_as_no_module() {
    assert!(matches!(parse_structured_ram(""), RamQuery::StructuredEmpty));
    assert!(matches!(parse_structured_ram("   "), RamQuery::StructuredEmpty));
    assert!(matches!(parse_structured_ram("26"), RamQuery::StructuredEmpty));
    assert!(matches!(parse_structured_ram("ddr4 fast"), RamQuery::StructuredEmpty));
    assert!(matches!(parse_structured_ram("26 fast"), RamQuery::StructuredEmpty));
    assert!(matches!(
        parse_structured_ram("99999999999999999999999 3200"),
        RamQuery::StructuredEmpty
    ));
}

#[test]
fn board_fields_are_trimmed_of_unicode_whitespace() {
    let q = BoardQuery::SysfsTree {
        vendor: Some("\u{a0}ASUS\u{a0}".to_string()),
        name: None,
        bios: None,
    };
    let (vendor, _, _) = board_strings(&q);
    assert_eq!(vendor, "ASUS");
}

#[test]
fn empty_structured_ram_query_yields_probable_guess() {
    assert_eq!(ram_type(&RamQuery::StructuredEmpty), "DDR4 (probable)");
}

#[test]
fn scalar_ram_query_is_trimmed_or_guessed() {
    let q = RamQuery::Scalar { text: "  DDR5 6000  \n".to_string() };
    assert_eq!(ram_type(&q), "DDR5 6000");
    let blank = RamQuery::Scalar { text: "   ".to_string() };
    assert_eq!(ram_type(&blank), "DDR4");
}

#[test]
fn command_line_ram_query_extracts_the_speed_token() {
    let q = RamQuery::CommandLine { line: Some("Speed: 3200 MT/s".to_string()) };
    assert_eq!(ram_type(&q), "DDR4 @ 3200");
    let unknown = RamQuery::CommandLine { line: Some("Speed: Unknown".to_string()) };
    assert_eq!(ram_type(&unknown), "DDR4");
    let empty = RamQuery::CommandLine { line: Some("".to_string()) };
    assert_eq!(ram_type(&empty), "DDR4");
    let none = RamQuery::CommandLine { line: None };
    assert_eq!(ram_type(&none), "DDR4");
}

#[test]
fn unavailable_ram_query_yields_static_guess() {
    assert_eq!(ram_type(&RamQuery::Unavailable), "DDR4");
}

#[test]
fn sysfs_board_fields_degrade_independently() {
    let q = BoardQuery::SysfsTree {
        vendor: None,
        name: Some(" B550 AORUS \n".to_string()),
        bios: None,
    };
    let (vendor, model, bios) = board_strings(&q);
    assert_eq!(vendor, "N/A");
    assert_eq!(model, "B550 AORUS");
    assert_eq!(bios, "N/A");
}

#[test]
fn instrumentation_board_fields_have_their_own_defaults() {
    let q = BoardQuery::Instrumentation { manufacturer: None, product: None, bios: None };
    let (vendor, model, bios) = board_strings(&q);
    assert_eq!(vendor, "Generic");
    assert_eq!(model, "PC Windows");
    assert_eq!(bios, "N/A");
}

#[test]
fn motherboard_label_joins_vendor_and_model() {
    assert_eq!(motherboard_label("ASUS", "PRIME B450M"), "ASUS PRIME B450M");
}

fn record(name: &str, total_bytes: u64, mount: Option<&str>) -> DiskRecord {
    DiskRecord {
        name: name.to_string(),
        total_bytes,
        mount_point: mount.map(|m| m.to_string()),
    }
}

#[test]
fn zero_capacity_disks_are_excluded_in_order() {
    let raw = vec![
        record("proc", 0, Some("/proc")),
        record("sda1", 10 * 1073741824, Some("/")),
        record("overlay", 0, Some("/var/lib")),
        record("sdb1", 5 * 1073741824 + 123, Some("/data")),
    ];
    let disks = filter_disks(&raw);
    assert_eq!(disks.len(), 2);
    assert_eq!(disks[0].name, "sda1");
    assert_eq!(disks[0].total_gb, 10);
    assert_eq!(disks[0].mount_point, "/");
    assert_eq!(disks[1].name, "sdb1");
    assert_eq!(disks[1].total_gb, 5);
    assert_eq!(disks[1].mount_point, "/data");
}

#[test]
fn unrepresentable_mount_point_becomes_empty_string() {
    let raw = vec![record("sda1", 2 * 1073741824, None)];
    let disks = filter_disks(&raw);
    assert_eq!(disks.len(), 1);
    assert_eq!(disks[0].mount_point, "");
}

#[test]
fn disk_conversion_is_exact_for_whole_gibibytes() {
    let raw = vec![record("sda1", 10 * 1073741824, Some("/"))];
    let disks = filter_disks(&raw);
    assert_eq!(disks[0].total_gb, 10);
}

#[test]
fn ram_total_conversion_is_exact() {
    let board = BoardQuery::SysfsTree { vendor: None, name: None, bios: None };
    let info = assemble(None, &board, None, 17179869184, &RamQuery::Unavailable, &vec![]);
    assert_eq!(info.ram_total_bytes, 17179869184);
    assert_eq!(info.ram_total_bytes as f64 / 1073741824.0, 16.0);
}

#[test]
fn assembly_absorbs_every_probe_failure() {
    let board = BoardQuery::SysfsTree { vendor: None, name: None, bios: None };
    let info = assemble(None, &board, None, 0, &RamQuery::Unavailable, &vec![]);
    assert_eq!(info.os_name, "Unknown System");
    assert_eq!(info.motherboard, "N/A N/A");
    assert_eq!(info.bios, "N/A");
    assert_eq!(info.cpu_model, "");
    assert_eq!(info.cpu_freq_mhz, 0);
    assert_eq!(info.ram_total_bytes, 0);
    assert_eq!(info.ram_type, "DDR4");
    assert!(info.disks.is_empty());
}

#[test]
fn assembly_uses_real_data_when_probes_succeed() {
    let board = BoardQuery::SysfsTree {
        vendor: Some("ASUS\n".to_string()),
        name: Some("PRIME B450M\n".to_string()),
        bios: Some(" 4602 ".to_string()),
    };
    let cpu = Some(CpuSample { model: "AMD Ryzen 5 3600".to_string(), freq_mhz: 3600 });
    let ram = RamQuery::Structured { type_code: 26, speed_mhz: 3200 };
    let disks = vec![record("sda1", 256 * 1073741824, Some("/"))];
    let info = assemble(Some("Fedora Linux".to_string()), &board, cpu, 17179869184, &ram, &disks);
    assert_eq!(info.os_name, "Fedora Linux");
    assert_eq!(info.motherboard, "ASUS PRIME B450M");
    assert_eq!(info.bios, "4602");
    assert_eq!(info.cpu_model, "AMD Ryzen 5 3600");
    assert_eq!(info.cpu_freq_mhz, 3600);
    assert_eq!(info.ram_type, "DDR4 @ 3200 MHz");
    assert_eq!(info.disks.len(), 1);
    assert_eq!(info.disks[0].total_gb, 256);
}

#[test]
fn empty_os_name_degrades_to_placeholder() {
    let board = BoardQuery::SysfsTree { vendor: None, name: None, bios: None };
    let info = assemble(Some("".to_string()), &board, None, 0, &RamQuery::Unavailable, &vec![]);
    assert_eq!(info.os_name, "Unknown System");
}

#[test]
fn live_inventory_is_always_fully_populated() {
    let board = BoardQuery::SysfsTree { vendor: None, name: None, bios: None };
    let info = collect_inventory(&board, &RamQuery::Unavailable);
    assert!(!info.os_name.is_empty());
    assert!(!info.ram_type.is_empty());
    assert_eq!(info.ram_type, "DDR4");
    assert_eq!(info.motherboard, "N/A N/A");
    assert_eq!(info.bios, "N/A");
}
