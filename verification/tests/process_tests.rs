use locksmith::errors::CoreError;
use locksmith::process_ext::{
    enum_process_modules, enum_processes, get_module_name, keep_resolved, or_unknown,
    pid_to_process_full_path, pid_to_process_name, regrown_name_len, ModuleStep, ProcessInfo, ProcessRecord,
    PROCESS_RECORD_SIZE,
};
use locksmith::string_ext::{read_unicode_string, ToString, UnicodeString};

const BASE: u64 = 0x0000_0200_0000_0000;

fn record(pid: u64, name: &str, at: usize, next: u32) -> Vec<u8> {
    let units: Vec<u16> = name.encode_utf16().collect();
    let mut out = vec![0u8; 256];
    out[0..4].copy_from_slice(&next.to_le_bytes());
    out[4..8].copy_from_slice(&9u32.to_le_bytes());
    out[56..58].copy_from_slice(&((units.len() * 2) as u16).to_le_bytes());
    out[58..60].copy_from_slice(&((units.len() * 2 + 2) as u16).to_le_bytes());
    let pointer = if name.is_empty() { 0 } else { BASE + at as u64 + 256 };
    out[64..72].copy_from_slice(&pointer.to_le_bytes());
    out[80..88].copy_from_slice(&pid.to_le_bytes());
    for u in units {
        out.extend_from_slice(&u.to_le_bytes());
    }
    out.extend_from_slice(&[0, 0]);
    out
}

fn snapshot(processes: &[(u64, &str)]) -> Vec<u8> {
    let mut out = Vec::new();
    for (i, (pid, name)) in processes.iter().enumerate() {
        let at = out.len();
        let mut bytes = record(*pid, name, at, 0);
        while bytes.len() % 8 != 0 {
            bytes.push(0);
        }
        if i + 1 < processes.len() {
            let next = bytes.len() as u32;
            bytes[0..4].copy_from_slice(&next.to_le_bytes());
        }
        out.extend_from_slice(&bytes);
    }
    out
}

#[test]
fn test_enum_processes() {
    let buffer = snapshot(&[(0, ""), (4, "System"), (812, "explorer.exe")]);
    let records = enum_processes(&buffer, BASE).unwrap();
    let mut process_infos = Vec::new();
    for record in records {
        let modules = keep_resolved(&vec![
            Some(r"\Device\HarddiskVolume3\Windows\explorer.exe".to_string()),
            None,
            Some(r"\Device\HarddiskVolume3\Windows\System32\ntdll.dll".to_string()),
        ]);
        process_infos.push(ProcessInfo::new(record, None, Some(modules)));
    }
    assert!(!process_infos.is_empty());

    for process_info in process_infos {
        println!("pid: {}", process_info.pid);
        println!("name: {}", process_info.process_name);
        println!("path: {}", process_info.process_full_path);
        for module in process_info.modules {
            println!("\tmodule: {}", module);
        }
        println!();
    }
}

#[test]
fn chain_is_walked_by_its_offsets() {
    let buffer = snapshot(&[(0, ""), (4, "System"), (812, "explorer.exe")]);
    let records = enum_processes(&buffer, BASE).unwrap();
    assert_eq!(
        records,
        vec![
            ProcessRecord { pid: 0, image_name: String::new(), next_entry_offset: 264 },
            ProcessRecord { pid: 4, image_name: "System".to_string(), next_entry_offset: 272 },
            ProcessRecord { pid: 812, image_name: "explorer.exe".to_string(), next_entry_offset: 0 },
        ]
    );
    assert_eq!(PROCESS_RECORD_SIZE, 256);
}

#[test]
fn single_record_ends_the_chain() {
    let buffer = snapshot(&[(77, "a.exe")]);
    let records = enum_processes(&buffer, BASE).unwrap();
    assert_eq!(
        records,
        vec![ProcessRecord { pid: 77, image_name: "a.exe".to_string(), next_entry_offset: 0 }]
    );
}

#[test]
fn records_between_the_offsets_are_not_read() {
    let mut buffer = snapshot(&[(1, "one"), (2, "two"), (3, "three")]);
    let second = u32::from_le_bytes([buffer[0], buffer[1], buffer[2], buffer[3]]);
    let third = u32::from_le_bytes([
        buffer[second as usize],
        buffer[second as usize + 1],
        buffer[second as usize + 2],
        buffer[second as usize + 3],
    ]);
    buffer[0..4].copy_from_slice(&(second + third).to_le_bytes());
    let records = enum_processes(&buffer, BASE).unwrap();
    assert_eq!(records.len(), 2);
    assert_eq!(records[0].pid, 1);
    assert_eq!(records[1].pid, 3);
    assert_eq!(records[1].image_name, "three");
}

#[test]
fn chain_that_leaves_the_snapshot_is_refused() {
    let mut buffer = snapshot(&[(1, "one"), (2, "two")]);
    buffer[0..4].copy_from_slice(&100_000u32.to_le_bytes());
    assert_eq!(enum_processes(&buffer, BASE), Err(CoreError::BufferTooSmall));

    let mut cut = snapshot(&[(1, "one"), (2, "two")]);
    cut.truncate(264 + 255);
    assert_eq!(enum_processes(&cut, BASE), Err(CoreError::BufferTooSmall));

    assert_eq!(enum_processes(&[], BASE), Err(CoreError::BufferTooSmall));
    assert_eq!(enum_processes(&[0u8; 255], BASE), Err(CoreError::BufferTooSmall));
    assert!(enum_processes(&[0u8; 256], BASE).is_ok());
}

#[test]
fn process_id_keeps_its_low_half() {
    let buffer = snapshot(&[(0x0000_0007_0000_0bb8, "x")]);
    assert_eq!(enum_processes(&buffer, BASE).unwrap()[0].pid, 3000);
}

#[test]
fn untrusted_image_name_is_empty() {
    let mut buffer = snapshot(&[(5, "svchost.exe")]);
    buffer[56] = 23;
    assert_eq!(enum_processes(&buffer, BASE).unwrap()[0].image_name, "");
    let mut far = snapshot(&[(5, "svchost.exe")]);
    far[64..72].copy_from_slice(&(BASE + 1_000_000).to_le_bytes());
    assert_eq!(enum_processes(&far, BASE).unwrap()[0].image_name, "");
}

#[test]
fn process_info_uses_placeholders() {
    let record = ProcessRecord { pid: 8, image_name: "a.exe".to_string(), next_entry_offset: 0 };
    let info = ProcessInfo::new(record, None, None);
    assert_eq!(
        info,
        ProcessInfo {
            pid: 8,
            process_name: "a.exe".to_string(),
            process_full_path: "unknown".to_string(),
            modules: vec![],
        }
    );
    let record = ProcessRecord { pid: 8, image_name: "a.exe".to_string(), next_entry_offset: 0 };
    let info = ProcessInfo::new(
        record,
        Some(r"C:\a.exe".to_string()),
        Some(vec!["m1".to_string(), "m2".to_string()]),
    );
    assert_eq!(info.process_full_path, r"C:\a.exe");
    assert_eq!(info.modules, vec!["m1".to_string(), "m2".to_string()]);
    assert_eq!(or_unknown(None), "unknown");
    assert_eq!(or_unknown(Some("x".to_string())), "x");
}

#[test]
fn module_list_grows_until_it_fits() {
    let mut buffer = vec![0u8; 260];
    assert_eq!(enum_process_modules(&mut buffer, 400), ModuleStep::Retry);
    assert_eq!(buffer.len(), 400);
    assert_eq!(enum_process_modules(&mut buffer, 401), ModuleStep::Retry);
    assert_eq!(buffer.len(), 401);
    buffer[0..8].copy_from_slice(&0x7ff6_1000_0000u64.to_le_bytes());
    buffer[8..16].copy_from_slice(&0x7ffa_2000_0000u64.to_le_bytes());
    buffer[16..24].copy_from_slice(&0x7ffa_3000_0000u64.to_le_bytes());
    assert_eq!(
        enum_process_modules(&mut buffer, 16),
        ModuleStep::Modules(vec![0x7ff6_1000_0000, 0x7ffa_2000_0000])
    );
    assert_eq!(
        enum_process_modules(&mut buffer, 23),
        ModuleStep::Modules(vec![0x7ff6_1000_0000, 0x7ffa_2000_0000])
    );
    assert_eq!(
        enum_process_modules(&mut buffer, 24),
        ModuleStep::Modules(vec![0x7ff6_1000_0000, 0x7ffa_2000_0000, 0x7ffa_3000_0000])
    );
    assert_eq!(enum_process_modules(&mut buffer, 0), ModuleStep::Modules(vec![]));
    assert_eq!(buffer.len(), 401);
}

#[test]
fn module_list_that_just_fits_is_read() {
    let mut buffer = vec![0xFFu8; 8];
    assert_eq!(enum_process_modules(&mut buffer, 8), ModuleStep::Modules(vec![u64::MAX]));
    assert_eq!(enum_process_modules(&mut buffer, 9), ModuleStep::Retry);
    assert_eq!(buffer, vec![0xFF, 0xFF, 0xFF, 0xFF, 0xFF, 0xFF, 0xFF, 0xFF, 0]);
}

#[test]
fn failed_modules_are_left_out() {
    let results = vec![None, Some("a".to_string()), None, Some("b".to_string()), None];
    assert_eq!(keep_resolved(&results), vec!["a".to_string(), "b".to_string()]);
    assert_eq!(keep_resolved(&vec![None, None]), Vec::<String>::new());
    assert_eq!(keep_resolved(&vec![]), Vec::<String>::new());
}

#[test]
fn names_are_cut_at_the_returned_length() {
    let mut buffer: Vec<u16> = r"C:\Windows\notepad.exe".encode_utf16().collect();
    let len = buffer.len() as u32;
    buffer.resize(260, 0);
    assert_eq!(get_module_name(&buffer, len), Ok(r"C:\Windows\notepad.exe".to_string()));
    assert_eq!(pid_to_process_full_path(&buffer, len), Ok(r"C:\Windows\notepad.exe".to_string()));
    assert_eq!(pid_to_process_name(&buffer, 2), Ok("C:".to_string()));
    assert_eq!(get_module_name(&buffer[..3], 9), Ok(r"C:\".to_string()));
}

#[test]
fn lookup_that_returns_nothing_fails() {
    let buffer = vec![0u16; 260];
    assert_eq!(get_module_name(&buffer, 0), Err(CoreError::LookupFailed));
    assert_eq!(pid_to_process_name(&buffer, 0), Err(CoreError::LookupFailed));
    assert_eq!(pid_to_process_full_path(&buffer, 0), Err(CoreError::LookupFailed));
}

#[test]
fn unpaired_surrogate_becomes_replacement_character() {
    let buffer = [0x0041u16, 0xD800, 0x0042, 0xD83D, 0xDE00];
    assert_eq!(get_module_name(&buffer, 5), Ok("A\u{FFFD}B\u{1F600}".to_string()));
}

#[test]
fn counted_string_is_decoded_by_its_length() {
    let s = UnicodeString { length: 8, maximum_length: 10, buffer: Some(vec![70, 105, 108, 101, 0]) };
    assert_eq!(s.decode(), Ok("File".to_string()));
    assert_eq!(s.to_string(), "File");
    let s = UnicodeString { length: 4, maximum_length: 10, buffer: Some(vec![70, 105, 108, 101]) };
    assert_eq!(s.decode(), Ok("Fi".to_string()));
    let s = UnicodeString { length: 0, maximum_length: 0, buffer: Some(vec![]) };
    assert_eq!(s.decode(), Ok(String::new()));
}

#[test]
fn counted_string_that_cannot_be_trusted() {
    let odd = UnicodeString { length: 7, maximum_length: 10, buffer: Some(vec![70, 105, 108, 101]) };
    assert_eq!(odd.decode(), Err(CoreError::MalformedName));
    assert_eq!(odd.to_string(), "");
    let null = UnicodeString { length: 8, maximum_length: 10, buffer: None };
    assert_eq!(null.decode(), Err(CoreError::MalformedName));
    assert_eq!(null.to_string(), "");
    let short = UnicodeString { length: 10, maximum_length: 10, buffer: Some(vec![70, 105]) };
    assert_eq!(short.decode(), Err(CoreError::MalformedName));
    let empty_null = UnicodeString { length: 0, maximum_length: 0, buffer: None };
    assert_eq!(empty_null.decode(), Err(CoreError::MalformedName));
    assert_eq!(empty_null.to_string(), "");
}

#[test]
fn counted_string_is_read_from_a_snapshot() {
    let mut bytes = vec![0u8; 3];
    bytes.extend_from_slice(&4u16.to_le_bytes());
    bytes.extend_from_slice(&6u16.to_le_bytes());
    bytes.extend_from_slice(&[0u8; 4]);
    bytes.extend_from_slice(&(BASE + 19).to_le_bytes());
    bytes.extend_from_slice(&[b'h', 0, b'i', 0, 0, 0]);
    let s = read_unicode_string(&bytes, BASE, 3).unwrap();
    assert_eq!(s.length, 4);
    assert_eq!(s.maximum_length, 6);
    assert_eq!(s.buffer, Some(vec![0x68, 0x69]));
    assert_eq!(s.to_string(), "hi");
    assert!(read_unicode_string(&bytes, BASE, 10).is_none());
    assert!(read_unicode_string(&bytes, BASE, 9).is_some());
    let s = read_unicode_string(&bytes, BASE + 1, 3).unwrap();
    assert_eq!(s.buffer, Some(vec![0x6800, 0x6900]));
    let s = read_unicode_string(&bytes, BASE + 20, 3).unwrap();
    assert_eq!(s.buffer, None);
    let s = read_unicode_string(&bytes, BASE - 3, 3).unwrap();
    assert_eq!(s.buffer, None);
}

#[test]
fn name_lookup_is_repeated_with_room_for_the_terminator() {
    assert_eq!(regrown_name_len(122, 260), Some(261));
    assert_eq!(regrown_name_len(122, u32::MAX), Some(4_294_967_296));
    assert_eq!(regrown_name_len(0, 260), None);
    assert_eq!(regrown_name_len(5, 260), None);
}
