//! Extracting a named section from an ELF object. The ELF reader performs
//! the structural sanity check on the header; the section-table walk, the
//! name comparison and the payload slicing are done here over the raw
//! bytes, with every offset checked against the buffer, so that an object
//! whose section table lies about its own extent is reported as malformed
//! instead of aborting the process. The section's raw on-disk bytes come
//! out, not a virtual-address-relocated copy, since they are re-embedded
//! verbatim into the final image.

use vstd::prelude::*;
use crate::BuildError;

verus! {

/// The 16-bit little-endian value at `off`.
pub open spec fn le16_at(b: Seq<u8>, off: int) -> int {
    b[off] + 0x100 * b[off + 1]
}

/// The 32-bit little-endian value at `off`.
pub open spec fn le32_at(b: Seq<u8>, off: int) -> int {
    le16_at(b, off) + 0x10000 * le16_at(b, off + 2)
}

/// The 64-bit little-endian value at `off`.
pub open spec fn le64_at(b: Seq<u8>, off: int) -> int {
    le32_at(b, off) + 0x1_0000_0000 * le32_at(b, off + 4)
}

fn read_u16_at(b: &Vec<u8>, off: usize) -> (r: u16)
    requires
        off + 2 <= b@.len(),
    ensures
        r == le16_at(b@, off as int),
{
    let n = b.len();
    (b[off] as u16) + 0x100 * (b[off + 1] as u16)
}

fn read_u32_at(b: &Vec<u8>, off: usize) -> (r: u32)
    requires
        off + 4 <= b@.len(),
    ensures
        r == le32_at(b@, off as int),
{
    let n = b.len();
    (read_u16_at(b, off) as u32) + 0x10000 * (read_u16_at(b, off + 2) as u32)
}

fn read_u64_at(b: &Vec<u8>, off: usize) -> (r: u64)
    requires
        off + 8 <= b@.len(),
    ensures
        r == le64_at(b@, off as int),
{
    let n = b.len();
    (read_u32_at(b, off) as u64) + 0x1_0000_0000 * (read_u32_at(b, off + 4) as u64)
}

/// Whether the buffer begins with a parsable ELF identification: the magic
/// number, a known class, and room for that class's full header.
pub open spec fn header_readable(b: Seq<u8>) -> bool {
    &&& b.len() >= 52
    &&& b[0] == 0x7f && b[1] == 0x45 && b[2] == 0x4c && b[3] == 0x46
    &&& (b[4] == 1 || (b[4] == 2 && b.len() >= 64))
}

/// Whether the object is 32-bit; otherwise it is 64-bit here.
pub open spec fn is_class32(b: Seq<u8>) -> bool {
    b[4] == 1
}

/// The program header table offset the header declares.
pub open spec fn spec_ph_off(b: Seq<u8>) -> int {
    if is_class32(b) {
        le32_at(b, 28)
    } else {
        le64_at(b, 32)
    }
}

/// The section header table offset the header declares.
pub open spec fn spec_sh_off(b: Seq<u8>) -> int {
    if is_class32(b) {
        le32_at(b, 32)
    } else {
        le64_at(b, 40)
    }
}

/// The section header record size the header declares.
pub open spec fn spec_sh_entsize(b: Seq<u8>) -> int {
    if is_class32(b) {
        le16_at(b, 46)
    } else {
        le16_at(b, 58)
    }
}

/// The number of section header records the header declares.
pub open spec fn spec_sh_count(b: Seq<u8>) -> int {
    if is_class32(b) {
        le16_at(b, 48)
    } else {
        le16_at(b, 60)
    }
}

/// The index of the section-name string table the header declares.
pub open spec fn spec_sh_strndx(b: Seq<u8>) -> int {
    if is_class32(b) {
        le16_at(b, 50)
    } else {
        le16_at(b, 62)
    }
}

/// The inputs on which the reader's header check is called here: once the
/// header's two table offsets are known to lie within the buffer, the
/// check's unchecked offset arithmetic cannot overflow, so the call
/// returns on every such input.
pub open spec fn reader_call_safe(b: Seq<u8>) -> bool {
    header_readable(b) ==> spec_ph_off(b) <= b.len() && spec_sh_off(b) <= b.len()
}

/// Whether the bytes pass the ELF reader's structural check: the header
/// parses and its program and section header tables lie inside the buffer.
/// The check says nothing about section payloads or names; what the walk
/// below reads is bounded by `sections_readable`. A function of the bytes
/// alone.
pub uninterp spec fn elf_structurally_valid(elf: Seq<u8>) -> bool;

/// Relies on xmas-elf: `ElfFile::new` parses the header and
/// `header::sanity_check` checks it against the buffer. Both return an
/// error on every malformed input once the declared table offsets lie
/// within the buffer, which `reader_call_safe` guarantees: a buffer holds
/// fewer than 2^63 bytes and each table's extent is a product of two
/// 16-bit fields, so the check's offset sums stay below 2^64. The outcome
/// depends on the bytes alone.
#[verifier::external_body]
fn parse_and_check(elf_bytes: &Vec<u8>) -> (r: bool)
    requires
        reader_call_safe(elf_bytes@),
    ensures
        r <==> elf_structurally_valid(elf_bytes@),
{
    match xmas_elf::ElfFile::new(elf_bytes.as_slice()) {
        Ok(elf) => xmas_elf::header::sanity_check(&elf).is_ok(),
        Err(_) => false,
    }
}

/// Where section `i`'s header record begins.
pub open spec fn sec_base(b: Seq<u8>, i: int) -> int {
    spec_sh_off(b) + i * spec_sh_entsize(b)
}

/// Section `i`'s offset into the section-name string table.
pub open spec fn sec_name_off(b: Seq<u8>, i: int) -> int {
    le32_at(b, sec_base(b, i))
}

/// Where section `i`'s payload begins in the buffer, as declared.
pub open spec fn sec_offset(b: Seq<u8>, i: int) -> int {
    if is_class32(b) {
        le32_at(b, sec_base(b, i) + 16)
    } else {
        le64_at(b, sec_base(b, i) + 24)
    }
}

/// Section `i`'s payload size, as declared.
pub open spec fn sec_size(b: Seq<u8>, i: int) -> int {
    if is_class32(b) {
        le32_at(b, sec_base(b, i) + 20)
    } else {
        le64_at(b, sec_base(b, i) + 32)
    }
}

/// Where the section-name string table begins in the buffer.
pub open spec fn spec_shstr_base(b: Seq<u8>) -> int {
    sec_offset(b, spec_sh_strndx(b))
}

/// The bounds under which the section-table walk stays inside the buffer:
/// a readable header whose table offsets lie in the buffer, the canonical
/// record size for the class, a section count below the reserved index
/// range (0xff00 and above, which the reader refuses), the whole table
/// inside the buffer, and — when there are sections at all — a name table
/// designated by a valid index and based inside the buffer. An object
/// outside these bounds cannot be traversed safely and is malformed.
pub open spec fn sections_readable(b: Seq<u8>) -> bool {
    &&& header_readable(b)
    &&& spec_ph_off(b) <= b.len()
    &&& spec_sh_off(b) <= b.len()
    &&& spec_sh_entsize(b) == if is_class32(b) {
        40int
    } else {
        64int
    }
    &&& spec_sh_count(b) < 0xff00
    &&& spec_sh_off(b) + spec_sh_entsize(b) * spec_sh_count(b) <= b.len()
    &&& (spec_sh_count(b) == 0 || (spec_sh_strndx(b) < spec_sh_count(b) && spec_shstr_base(b)
        <= b.len()))
}

/// Whether the zero-terminated byte string at `name_pos` is exactly
/// `name`. A string that runs past the end of the buffer matches nothing.
pub open spec fn name_match_spec(b: Seq<u8>, name_pos: int, name: Seq<u8>) -> bool {
    &&& name_pos + name.len() < b.len()
    &&& b.subrange(name_pos, name_pos + name.len()) == name
    &&& b[name_pos + name.len()] == 0
}

/// Whether section `i`'s name is exactly `name`.
pub open spec fn name_at_matches(b: Seq<u8>, i: int, name: Seq<u8>) -> bool {
    name_match_spec(b, spec_shstr_base(b) + sec_name_off(b, i), name)
}

/// The first section at or after `i` whose name is exactly `name`.
pub open spec fn spec_find_section(b: Seq<u8>, name: Seq<u8>, i: int) -> Option<int>
    decreases spec_sh_count(b) - i,
{
    if i < 0 || i >= spec_sh_count(b) {
        None
    } else if name_at_matches(b, i, name) {
        Some(i)
    } else {
        spec_find_section(b, name, i + 1)
    }
}

/// Whether section `i`'s declared payload lies inside the buffer.
pub open spec fn section_extent_fits(b: Seq<u8>, i: int) -> bool {
    sec_offset(b, i) + sec_size(b, i) <= b.len()
}

/// Section `i`'s raw on-disk payload.
pub open spec fn spec_section_payload(b: Seq<u8>, i: int) -> Seq<u8> {
    b.subrange(sec_offset(b, i), sec_offset(b, i) + sec_size(b, i))
}

/// Whether the zero-terminated byte string at `pos` is exactly `name`.
fn cstr_matches(b: &Vec<u8>, pos: u64, name: &[u8]) -> (r: bool)
    ensures
        r == name_match_spec(b@, pos as int, name@),
{
    let n = b.len();
    let name_len = name.len();
    if pos >= n as u64 || name_len as u64 >= n as u64 - pos {
        return false;
    }
    let start: usize = pos as usize;
    let mut j: usize = 0;
    while j < name_len
        invariant
            n == b@.len(),
            j <= name_len,
            start == pos,
            start + name_len < b@.len(),
            name_len == name@.len(),
            forall|k: int| 0 <= k < j ==> b@[start + k] == name@[k],
        decreases name_len - j,
    {
        if b[start + j] != name[j] {
            proof {
                assert(b@.subrange(pos as int, pos + name@.len())[j as int] == b@[start + j]);
            }
            return false;
        }
        j = j + 1;
    }
    let terminated = b[start + name_len] == 0;
    proof {
        if terminated {
            assert(b@.subrange(pos as int, pos + name@.len()) =~= name@);
        }
    }
    terminated
}

/// Copies `b[start..end]` out.
fn copy_range(b: &Vec<u8>, start: usize, end: usize) -> (r: Vec<u8>)
    requires
        start <= end <= b@.len(),
    ensures
        r@ == b@.subrange(start as int, end as int),
{
    let mut out: Vec<u8> = Vec::new();
    let mut j: usize = start;
    while j < end
        invariant
            start <= j <= end <= b@.len(),
            out@ =~= b@.subrange(start as int, j as int),
        decreases end - j,
    {
        out.push(b[j]);
        proof {
            assert(out@ =~= b@.subrange(start as int, j + 1));
        }
        j = j + 1;
    }
    out
}

/// Extracts the raw bytes of the section named exactly `name`. An object
/// whose header the reader rejects, or whose section table cannot be
/// walked inside the buffer, or whose matching section declares a payload
/// outside the buffer, is malformed — a fatal condition, like the absence
/// of the section; otherwise the section's bytes are returned exactly as
/// they lie in the object.
pub fn extract_section(elf_bytes: &Vec<u8>, name: &[u8]) -> (r: Result<Vec<u8>, BuildError>)
    requires
        forall|j: int| 0 <= j < name@.len() ==> name@[j] != 0,
    ensures
        !(elf_structurally_valid(elf_bytes@) && sections_readable(elf_bytes@)) ==> (r matches Err(
            e,
        ) && e == BuildError::MalformedElf),
        elf_structurally_valid(elf_bytes@) && sections_readable(elf_bytes@) ==> (match
            spec_find_section(elf_bytes@, name@, 0) {
            None => r matches Err(e) && e == BuildError::SectionNotFound,
            Some(i) => {
                if section_extent_fits(elf_bytes@, i) {
                    r matches Ok(d) && d@ == spec_section_payload(elf_bytes@, i)
                } else {
                    r matches Err(e) && e == BuildError::MalformedElf
                }
            },
        }),
{
    let ghost b = elf_bytes@;
    let n = elf_bytes.len();

    // The header identification, mirrored here so that every later read
    // is bounded before the reader is called.
    if n < 52 {
        return Err(BuildError::MalformedElf);
    }
    if !(elf_bytes[0] == 0x7f && elf_bytes[1] == 0x45 && elf_bytes[2] == 0x4c && elf_bytes[3]
        == 0x46) {
        return Err(BuildError::MalformedElf);
    }
    let class_byte = elf_bytes[4];
    if !(class_byte == 1 || (class_byte == 2 && n >= 64)) {
        return Err(BuildError::MalformedElf);
    }
    let class32 = class_byte == 1;
    proof {
        assert(header_readable(b));
    }

    let ph_off: u64 = if class32 {
        read_u32_at(elf_bytes, 28) as u64
    } else {
        read_u64_at(elf_bytes, 32)
    };
    let sh_off: u64 = if class32 {
        read_u32_at(elf_bytes, 32) as u64
    } else {
        read_u64_at(elf_bytes, 40)
    };
    if ph_off > n as u64 || sh_off > n as u64 {
        return Err(BuildError::MalformedElf);
    }

    // The reader's own verdict on the header.
    if !parse_and_check(elf_bytes) {
        return Err(BuildError::MalformedElf);
    }

    // The walk's bounds.
    let entsize: u64 = if class32 {
        read_u16_at(elf_bytes, 46) as u64
    } else {
        read_u16_at(elf_bytes, 58) as u64
    };
    let count: u64 = if class32 {
        read_u16_at(elf_bytes, 48) as u64
    } else {
        read_u16_at(elf_bytes, 60) as u64
    };
    let expected_entsize: u64 = if class32 {
        40
    } else {
        64
    };
    if entsize != expected_entsize || count >= 0xff00 {
        return Err(BuildError::MalformedElf);
    }
    if entsize * count > n as u64 - sh_off {
        return Err(BuildError::MalformedElf);
    }
    if count == 0 {
        return Err(BuildError::SectionNotFound);
    }
    let strndx: u64 = if class32 {
        read_u16_at(elf_bytes, 50) as u64
    } else {
        read_u16_at(elf_bytes, 62) as u64
    };
    if strndx >= count {
        return Err(BuildError::MalformedElf);
    }
    let str_record: usize = (sh_off + strndx * entsize) as usize;
    proof {
        assert((strndx + 1) * entsize <= count * entsize) by (nonlinear_arith)
            requires
                strndx + 1 <= count,
                entsize >= 0,
        ;
        assert(str_record + entsize <= n);
        assert(str_record == sec_base(b, strndx as int));
    }
    let shstr_base: u64 = if class32 {
        read_u32_at(elf_bytes, str_record + 16) as u64
    } else {
        read_u64_at(elf_bytes, str_record + 24)
    };
    if shstr_base > n as u64 {
        return Err(BuildError::MalformedElf);
    }
    proof {
        assert(shstr_base == spec_shstr_base(b));
        assert(sections_readable(b));
    }

    // The walk: first section whose name is exactly `name`.
    let mut i: u64 = 0;
    while i < count
        invariant
            sections_readable(b),
            b == elf_bytes@,
            n == b.len(),
            count == spec_sh_count(b),
            entsize == spec_sh_entsize(b),
            sh_off == spec_sh_off(b),
            shstr_base == spec_shstr_base(b),
            class32 == is_class32(b),
            elf_structurally_valid(b),
            0 <= i <= count,
            spec_find_section(b, name@, 0) == spec_find_section(b, name@, i as int),
        decreases count - i,
    {
        let record: usize = (sh_off + i * entsize) as usize;
        proof {
            assert((i + 1) * entsize <= count * entsize) by (nonlinear_arith)
                requires
                    i + 1 <= count,
                    entsize >= 0,
            ;
            assert(record + entsize <= n);
            assert(record == sec_base(b, i as int));
        }
        let name_off: u32 = read_u32_at(elf_bytes, record);
        let matched = if name_off as u64 <= n as u64 - shstr_base {
            cstr_matches(elf_bytes, shstr_base + name_off as u64, name)
        } else {
            proof {
                assert(!name_match_spec(b, spec_shstr_base(b) + sec_name_off(b, i as int), name@));
            }
            false
        };
        if matched {
            proof {
                assert(name_at_matches(b, i as int, name@));
                assert(spec_find_section(b, name@, i as int) == Some(i as int));
            }
            let off: u64 = if class32 {
                read_u32_at(elf_bytes, record + 16) as u64
            } else {
                read_u64_at(elf_bytes, record + 24)
            };
            let size: u64 = if class32 {
                read_u32_at(elf_bytes, record + 20) as u64
            } else {
                read_u64_at(elf_bytes, record + 32)
            };
            proof {
                assert(off == sec_offset(b, i as int));
                assert(size == sec_size(b, i as int));
            }
            if off > n as u64 || size > n as u64 - off {
                return Err(BuildError::MalformedElf);
            }
            let payload = copy_range(elf_bytes, off as usize, (off + size) as usize);
            return Ok(payload);
        }
        proof {
            assert(!name_at_matches(b, i as int, name@));
            assert(spec_find_section(b, name@, i as int) == spec_find_section(
                b,
                name@,
                i as int + 1,
            ));
        }
        i = i + 1;
    }
    proof {
        assert(spec_find_section(b, name@, count as int) is None);
    }
    Err(BuildError::SectionNotFound)
}

} // verus!
