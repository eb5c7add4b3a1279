use amd_smu::{get_offsets, Codename, PmTable, SmuError, MAX_CORES, SENTINEL};

const VERSION_A: u32 = 0x240903;
const VERSION_B: u32 = 0x00620205;

fn put(data: &mut [u8], offset: usize, value: f32) {
    data[offset..offset + 4].copy_from_slice(&value.to_le_bytes());
}

fn minimum_size(version: u32, core_count: usize) -> usize {
    let off = get_offsets(version).unwrap();
    let bases = [
        off.core_power_base,
        off.core_temp_base,
        off.core_freq_base,
        off.core_freqeff_base,
        off.core_c0_base,
    ];
    bases.into_iter().filter(|&b| b != SENTINEL).max().unwrap_or(0) + core_count * 4
}

fn filled_table(version: u32, size: usize) -> Vec<u8> {
    let off = get_offsets(version).unwrap();
    let mut data = vec![0u8; size];
    let scalars = [
        (off.ppt_limit, 142.0),
        (off.tdc_limit, 95.0),
        (off.tdc_value, 62.3),
        (off.thm_limit, 90.0),
        (off.thm_value, 65.2),
        (off.edc_limit, 140.0),
        (off.edc_value, 98.7),
        (off.soc_power, 12.4),
        (off.cpu_voltage, 1.35),
        (off.soc_voltage, 1.10),
        (off.fclk, 1800.0),
        (off.mclk, 2000.0),
        (off.soc_temp, 42.1),
    ];
    for (o, v) in scalars {
        put(&mut data, o, v);
    }
    // On one layout package power shares its offset with the PPT value.
    put(&mut data, off.ppt_value, 89.5);
    if off.cpu_power != off.ppt_value {
        put(&mut data, off.cpu_power, 88.5);
    }
    data
}

fn val(bits: u32) -> f32 {
    f32::from_bits(bits)
}

fn close(bits: u32, expected: f32) -> bool {
    (val(bits) - expected).abs() < 0.01
}

#[test]
fn minimum_size_table_decodes_for_every_version_and_core_count() {
    for version in [VERSION_A, VERSION_B] {
        for cores in [0usize, 1, 7, 8, 16, 20] {
            let size = minimum_size(version, cores);
            let data = filled_table(version, size);
            let t = PmTable::parse(&data, version, Codename::Vermeer, cores).unwrap();
            let n = cores.min(MAX_CORES);
            assert!(close(t.ppt_limit, 142.0));
            assert!(close(t.ppt_value, 89.5));
            assert!(close(t.tdc_limit, 95.0));
            assert!(close(t.tdc_value, 62.3));
            assert!(close(t.thm_limit, 90.0));
            assert!(close(t.tctl, 65.2));
            assert!(close(t.edc_limit, 140.0));
            assert!(close(t.edc_value, 98.7));
            assert!(close(t.soc_power, 12.4));
            assert!(close(t.core_voltage, 1.35));
            assert!(close(t.soc_voltage, 1.10));
            assert!(close(t.fclk, 1800.0));
            assert!(close(t.mclk, 2000.0));
            assert!(close(t.soc_temp, 42.1));
            assert_eq!(t.core_power.len(), n);
            assert_eq!(t.core_temps.len(), n);
            assert_eq!(t.core_c0.len(), n);
            if version == VERSION_A {
                assert!(close(t.package_power, 88.5));
                assert_eq!(t.core_freqs.len(), n);
                assert_eq!(t.core_freqs_eff.len(), n);
            } else {
                assert!(close(t.package_power, 89.5));
                assert!(t.core_freqs.is_empty());
                assert!(t.core_freqs_eff.is_empty());
            }
        }
    }
}

#[test]
fn short_table_reports_expected_and_actual_length() {
    let data = vec![0u8; 843];
    let r = PmTable::parse(&data, VERSION_A, Codename::Vermeer, 8);
    assert_eq!(r, Err(SmuError::InvalidPmTableSize { expected: 844, actual: 843 }));

    let data = vec![0u8; 1395];
    let r = PmTable::parse(&data, VERSION_B, Codename::GraniteRidge, 16);
    assert_eq!(r, Err(SmuError::InvalidPmTableSize { expected: 1396, actual: 1395 }));

    let r = PmTable::parse(&[], VERSION_A, Codename::Vermeer, 0);
    assert_eq!(r, Err(SmuError::InvalidPmTableSize { expected: 0x32C, actual: 0 }));
}

#[test]
fn scalar_words_are_read_little_endian() {
    let mut data = vec![0u8; minimum_size(VERSION_A, 1)];
    data[0..4].copy_from_slice(&[0x78, 0x56, 0x34, 0x12]);
    data[0x24C..0x250].copy_from_slice(&[0x01, 0x02, 0x03, 0x04]);
    let t = PmTable::parse(&data, VERSION_A, Codename::Matisse, 1).unwrap();
    assert_eq!(t.ppt_limit, 0x1234_5678);
    assert_eq!(t.core_power, vec![0x0403_0201]);
}

#[test]
fn unknown_version_rejected_whatever_the_table() {
    for len in [0usize, 4, 1304, 10_000] {
        let data = vec![0xABu8; len];
        for version in [0u32, 0x240904, 0x620206, 0x999999, u32::MAX] {
            let r = PmTable::parse(&data, version, Codename::Vermeer, 8);
            assert_eq!(r, Err(SmuError::UnsupportedPmTableVersion(version)));
        }
    }
    let r = PmTable::parse(&[], 0x999999, Codename::Vermeer, usize::MAX);
    assert_eq!(r, Err(SmuError::UnsupportedPmTableVersion(0x999999)));
}

#[test]
fn absent_clocks_come_only_from_the_operating_system() {
    let size = minimum_size(VERSION_B, 4);
    let mut data = filled_table(VERSION_B, size);
    // Bytes at the sentinel offset itself, had the table been that long, must never be read.
    data.resize(SENTINEL + 64, 0x7F);
    let t = PmTable::parse(&data, VERSION_B, Codename::GraniteRidge, 4).unwrap();
    assert!(t.core_freqs.is_empty());
    assert!(t.core_freqs_eff.is_empty());
    assert_eq!(t.core_c0, vec![0, 0, 0, 0]);

    let os = vec![4500.0f32.to_bits(), 4600.0f32.to_bits()];
    let t = PmTable::parse_with_os_frequencies(&data, VERSION_B, Codename::GraniteRidge, 4, Some(os))
        .unwrap();
    let expected = vec![4500.0f32.to_bits(), 4600.0f32.to_bits(), 0, 0];
    assert_eq!(t.core_freqs, expected);
    assert_eq!(t.core_freqs_eff, expected);

    let os: Vec<u32> = (0..10u32).map(|i| (3000.0 + i as f32).to_bits()).collect();
    let t = PmTable::parse_with_os_frequencies(&data, VERSION_B, Codename::GraniteRidge, 4, Some(os.clone()))
        .unwrap();
    assert_eq!(t.core_freqs, os[..4].to_vec());
}

#[test]
fn clocks_in_the_table_ignore_the_operating_system() {
    let mut data = vec![0u8; minimum_size(VERSION_A, 2)];
    put(&mut data, 0x2EC, 4500.0);
    put(&mut data, 0x2F0, 4550.0);
    put(&mut data, 0x30C, 4400.0);
    let os = vec![1.0f32.to_bits(); 2];
    let t = PmTable::parse_with_os_frequencies(&data, VERSION_A, Codename::Vermeer, 2, Some(os)).unwrap();
    assert_eq!(t.core_freqs, vec![4500.0f32.to_bits(), 4550.0f32.to_bits()]);
    assert_eq!(t.core_freqs_eff, vec![4400.0f32.to_bits(), 0]);
}

#[test]
fn zero_cores_gives_empty_sequences() {
    for version in [VERSION_A, VERSION_B] {
        let data = filled_table(version, minimum_size(version, 0));
        let t = PmTable::parse_with_os_frequencies(&data, version, Codename::Raphael, 0, Some(vec![7, 8]))
            .unwrap();
        assert!(t.core_power.is_empty());
        assert!(t.core_temps.is_empty());
        assert!(t.core_freqs.is_empty());
        assert!(t.core_freqs_eff.is_empty());
        assert!(t.core_c0.is_empty());
    }
}

#[test]
fn decoding_twice_gives_the_same_reading() {
    for version in [VERSION_A, VERSION_B] {
        let mut data = filled_table(version, minimum_size(version, 16) + 17);
        for (i, b) in data.iter_mut().enumerate() {
            if *b == 0 {
                *b = (i * 31 % 251) as u8;
            }
        }
        let a = PmTable::parse(&data, version, Codename::Milan, 12);
        let b = PmTable::parse(&data, version, Codename::Milan, 12);
        assert_eq!(a, b);
        assert!(a.is_ok());
    }
}

#[test]
fn more_cores_than_the_layout_holds_are_clamped() {
    let data = vec![0u8; minimum_size(VERSION_A, 24)];
    let t = PmTable::parse(&data, VERSION_A, Codename::Milan, 24).unwrap();
    assert_eq!(t.core_temps.len(), 16);
    assert_eq!(t.core_power.len(), 16);
    assert_eq!(t.core_c0.len(), 16);
    assert_eq!(t.core_freqs.len(), 16);
}

#[test]
fn per_core_values_follow_their_base() {
    let mut data = vec![0u8; minimum_size(VERSION_A, 4)];
    for i in 0..4 {
        put(&mut data, 0x24C + i * 4, 8.0 + i as f32 * 0.5);
        put(&mut data, 0x28C + i * 4, 60.0 + i as f32);
        put(&mut data, 0x32C + i * 4, 90.0 + i as f32);
    }
    let t = PmTable::parse(&data, VERSION_A, Codename::Vermeer, 4).unwrap();
    assert!(close(t.core_power[3], 9.5));
    assert!(close(t.core_temps[2], 62.0));
    assert!(close(t.core_c0[1], 91.0));
    assert_eq!(t.version, VERSION_A);
    assert_eq!(t.codename, Codename::Vermeer);
    assert_eq!(t.codename_str, "Vermeer");
}

#[test]
fn scenario_1304_byte_table_with_eight_cores() {
    let mut data = vec![0u8; 1304];
    put(&mut data, 0x000, 142.0);
    put(&mut data, 0x004, 89.5);
    let t = PmTable::parse(&data, 0x240903, Codename::Vermeer, 8).unwrap();
    assert!(close(t.ppt_limit, 142.0));
    assert!(close(t.ppt_value, 89.5));
    assert_eq!(t.core_temps.len(), 8);
}

#[test]
fn layouts_match_the_registry() {
    let a = get_offsets(VERSION_A).unwrap();
    assert_eq!((a.soc_temp, a.core_temp_base, a.core_c0_base, a.max_cores), (0x1CC, 0x28C, 0x32C, 16));
    let b = get_offsets(VERSION_B).unwrap();
    assert_eq!((b.edc_limit, b.cpu_power, b.core_power_base), (0x0FC, 0x024, 0x4B4));
    assert_eq!((b.core_freq_base, b.core_freqeff_base, b.core_c0_base), (SENTINEL, SENTINEL, SENTINEL));
    assert!(get_offsets(0x240904).is_none());
    assert_eq!(a.largest_core_base(), 0x32C);
    assert_eq!(b.largest_core_base(), 0x534);
}
