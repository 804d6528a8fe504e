use bootimage::bootloader::bootloader_section_name;
use bootimage::elf::extract_section;
use bootimage::BuildError;

fn push_u16(out: &mut Vec<u8>, x: u16) {
    out.extend_from_slice(&x.to_le_bytes());
}

fn push_u32(out: &mut Vec<u8>, x: u32) {
    out.extend_from_slice(&x.to_le_bytes());
}

fn push_u64(out: &mut Vec<u8>, x: u64) {
    out.extend_from_slice(&x.to_le_bytes());
}

/// A minimal 64-bit little-endian ELF object with three sections: the null
/// section, one data section carrying `payload` under `section_name`, and
/// the section-name string table.
fn build_elf(section_name: &str, payload: &[u8]) -> Vec<u8> {
    let sh_offset: u64 = 64;
    let payload_offset: u64 = sh_offset + 3 * 64;
    let strtab_offset: u64 = payload_offset + payload.len() as u64;

    let mut strtab = vec![0u8];
    strtab.extend_from_slice(section_name.as_bytes());
    strtab.push(0);
    let shstrtab_name_index = strtab.len() as u32;
    strtab.extend_from_slice(b".shstrtab");
    strtab.push(0);

    let mut out = Vec::new();
    // Identification: magic, 64-bit, little-endian, current version.
    out.extend_from_slice(&[0x7f, b'E', b'L', b'F', 2, 1, 1, 0, 0, 0, 0, 0, 0, 0, 0, 0]);
    push_u16(&mut out, 2); // object type: executable
    push_u16(&mut out, 0x3e); // machine: x86-64
    push_u32(&mut out, 1); // version
    push_u64(&mut out, 0); // entry point
    push_u64(&mut out, 0); // program header table offset
    push_u64(&mut out, sh_offset); // section header table offset
    push_u32(&mut out, 0); // flags
    push_u16(&mut out, 64); // header size
    push_u16(&mut out, 0); // program header entry size
    push_u16(&mut out, 0); // program header count
    push_u16(&mut out, 64); // section header entry size
    push_u16(&mut out, 3); // section count
    push_u16(&mut out, 2); // string table section index

    // Section 0: the null section.
    out.extend_from_slice(&[0u8; 64]);

    // Section 1: the payload section.
    push_u32(&mut out, 1); // name: first string table entry
    push_u32(&mut out, 1); // type: program data
    push_u64(&mut out, 0); // flags
    push_u64(&mut out, 0); // address
    push_u64(&mut out, payload_offset);
    push_u64(&mut out, payload.len() as u64);
    push_u32(&mut out, 0); // link
    push_u32(&mut out, 0); // info
    push_u64(&mut out, 1); // alignment
    push_u64(&mut out, 0); // entry size

    // Section 2: the section-name string table.
    push_u32(&mut out, shstrtab_name_index);
    push_u32(&mut out, 3); // type: string table
    push_u64(&mut out, 0);
    push_u64(&mut out, 0);
    push_u64(&mut out, strtab_offset);
    push_u64(&mut out, strtab.len() as u64);
    push_u32(&mut out, 0);
    push_u32(&mut out, 0);
    push_u64(&mut out, 1);
    push_u64(&mut out, 0);

    out.extend_from_slice(payload);
    out.extend_from_slice(&strtab);
    out
}

#[test]
fn extraction_returns_exactly_the_section_payload() {
    let payload = [0xDEu8, 0xAD, 0xBE, 0xEF, 0x42];
    let elf = build_elf(".bootloader", &payload);
    let extracted = extract_section(&elf, bootloader_section_name().as_bytes()).unwrap();
    assert_eq!(extracted, payload.to_vec());
}

#[test]
fn extraction_of_empty_payload_succeeds() {
    let elf = build_elf(".bootloader", &[]);
    let extracted = extract_section(&elf, b".bootloader").unwrap();
    assert_eq!(extracted, Vec::<u8>::new());
}

#[test]
fn missing_section_is_fatal() {
    let payload = [1u8, 2, 3];
    let elf = build_elf(".other", &payload);
    assert_eq!(
        extract_section(&elf, b".bootloader").unwrap_err(),
        BuildError::SectionNotFound
    );
}

#[test]
fn non_elf_bytes_fail_the_sanity_check() {
    let zeros = vec![0u8; 1024];
    assert_eq!(extract_section(&zeros, b".bootloader").unwrap_err(), BuildError::MalformedElf);
    let empty: Vec<u8> = Vec::new();
    assert_eq!(extract_section(&empty, b".bootloader").unwrap_err(), BuildError::MalformedElf);
}

#[test]
fn truncated_elf_header_is_malformed() {
    let elf = build_elf(".bootloader", &[1u8, 2, 3]);
    let truncated = elf[..32].to_vec();
    assert_eq!(
        extract_section(&truncated, b".bootloader").unwrap_err(),
        BuildError::MalformedElf
    );
}

#[test]
fn section_with_payload_outside_the_buffer_is_malformed() {
    let mut elf = build_elf(".bootloader", &[1u8, 2, 3, 4]);
    // Lie about the payload offset in section 1: point far past the end.
    let offset_field = 64 + 64 + 24;
    elf[offset_field..offset_field + 8].copy_from_slice(&0x10_0000u64.to_le_bytes());
    assert_eq!(
        extract_section(&elf, b".bootloader").unwrap_err(),
        BuildError::MalformedElf
    );
}

#[test]
fn section_with_oversized_payload_is_malformed() {
    let mut elf = build_elf(".bootloader", &[1u8, 2, 3]);
    // Lie about the payload size in section 1.
    let size_field = 64 + 64 + 32;
    elf[size_field..size_field + 8].copy_from_slice(&u64::MAX.to_le_bytes());
    assert_eq!(
        extract_section(&elf, b".bootloader").unwrap_err(),
        BuildError::MalformedElf
    );
}

#[test]
fn name_offset_outside_the_buffer_matches_nothing() {
    let mut elf = build_elf(".bootloader", &[7u8; 4]);
    // Lie about section 1's name offset: the name is unreadable, so the
    // section matches nothing and the lookup fails.
    let name_field = 64 + 64;
    elf[name_field..name_field + 4].copy_from_slice(&0x7fff_0000u32.to_le_bytes());
    assert_eq!(
        extract_section(&elf, b".bootloader").unwrap_err(),
        BuildError::SectionNotFound
    );
}

#[test]
fn reserved_section_count_is_malformed() {
    let mut elf = build_elf(".bootloader", &[7u8; 4]);
    // A section count in the reserved index range cannot be walked.
    elf[60..62].copy_from_slice(&0xff00u16.to_le_bytes());
    assert_eq!(
        extract_section(&elf, b".bootloader").unwrap_err(),
        BuildError::MalformedElf
    );
}

#[test]
fn non_canonical_record_size_is_malformed() {
    let mut elf = build_elf(".bootloader", &[7u8; 4]);
    elf[58..60].copy_from_slice(&0u16.to_le_bytes());
    assert_eq!(
        extract_section(&elf, b".bootloader").unwrap_err(),
        BuildError::MalformedElf
    );
}
