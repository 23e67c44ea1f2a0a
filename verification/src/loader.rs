//! ELF/PE loader adapter.
//!
//! Binaries are parsed with the `goblin` crate; this module turns what
//! goblin reports into structured representations of sections, symbols,
//! and metadata.

use vstd::prelude::*;
use vstd::utf8::{decode_utf8, valid_utf8};

use goblin::elf::Elf;
use goblin::pe::section_table::SectionTable;
use goblin::pe::PE;
use goblin::strtab::Strtab;

use crate::traits::Loader;

verus! {

#[verifier::external_type_specification]
#[verifier::external_body]
pub struct ExGoblinError(goblin::error::Error);

/// ELF binary loader.
///
/// Currently returns empty bytes for every path.
pub struct ElfLoader;

impl Loader for ElfLoader {
    /// Every path loads as no bytes.
    fn load(&self, _path: &str) -> (r: Result<Vec<u8>, String>)
        ensures
            r matches Ok(bytes) && bytes@.len() == 0,
    {
        Ok(Vec::new())
    }
}

/// Error type for loader operations.
#[derive(Debug)]
pub enum LoaderError {
    /// Error from the goblin parser.
    Goblin(goblin::error::Error),
    /// Invalid PE file.
    InvalidPE(String),
}

/// Calls goblin's `Display` for its error.  Nothing is claimed of the
/// text: for an I/O error it is the operating system's message.
#[verifier::external_body]
fn goblin_error_text(e: &goblin::error::Error) -> String {
    format!("{e}")
}

impl LoaderError {
    /// Render the error as text: `goblin error: ` followed by goblin's
    /// message, or `invalid PE: ` followed by the given message.
    pub fn to_string(&self) -> (s: String)
        ensures
            self matches LoaderError::InvalidPE(msg) ==> s@ == "invalid PE: "@ + msg@,
            self is Goblin ==> "goblin error: "@.is_prefix_of(s@),
    {
        let (prefix, detail) = match self {
            LoaderError::Goblin(e) => ("goblin error: ", goblin_error_text(e)),
            LoaderError::InvalidPE(msg) => ("invalid PE: ", msg.clone()),
        };
        let mut s = String::from_str(prefix);
        s.append(detail.as_str());
        proof {
            assert(s@.subrange(0, prefix@.len() as int) =~= prefix@);
        }
        s
    }
}

impl From<goblin::error::Error> for LoaderError {
    fn from(e: goblin::error::Error) -> (r: Self)
        ensures
            r == LoaderError::Goblin(e),
    {
        LoaderError::Goblin(e)
    }
}

impl vstd::std_specs::convert::FromSpecImpl<goblin::error::Error> for LoaderError {
    open spec fn obeys_from_spec() -> bool {
        true
    }

    open spec fn from_spec(v: goblin::error::Error) -> LoaderError {
        LoaderError::Goblin(v)
    }
}

/// Parsed representation of a PE section.
#[derive(Debug, Clone, PartialEq)]
pub struct PeSection {
    /// Section name.
    pub name: String,
    /// Virtual address.
    pub virtual_address: u64,
    /// Virtual size.
    pub virtual_size: u64,
    /// Size in file.
    pub raw_size: u64,
    /// Offset in file.
    pub raw_offset: u64,
    /// Section characteristics flags.
    pub characteristics: u32,
}

/// Parsed representation of a PE symbol.
#[derive(Debug, Clone, PartialEq)]
pub struct PeSymbol {
    /// Symbol name.
    pub name: String,
    /// Symbol address (RVA).
    pub address: u64,
    /// Symbol size.
    pub size: u64,
    /// Symbol kind (e.g., "export", "import").
    pub kind: String,
}

/// Parsed representation of a PE binary.
#[derive(Debug, Clone, PartialEq)]
pub struct PeBinary {
    /// Entry point RVA.
    pub entry_point: u64,
    /// Parsed sections.
    pub sections: Vec<PeSection>,
    /// Preferred image base address.
    pub image_base: u64,
    /// Whether the PE is 64-bit.
    pub is_64_bit: bool,
    /// Parsed symbols (exports and imports).
    pub symbols: Vec<PeSymbol>,
}

/// Parsed representation of an ELF section.
#[derive(Debug, Clone, PartialEq)]
pub struct ElfSection {
    /// Section name.
    pub name: String,
    /// Virtual address.
    pub address: u64,
    /// Section size.
    pub size: u64,
    /// File offset.
    pub offset: u64,
    /// Section flags.
    pub flags: u64,
}

/// Parsed representation of an ELF symbol.
#[derive(Debug, Clone, PartialEq)]
pub struct ElfSymbol {
    /// Symbol name.
    pub name: String,
    /// Symbol address.
    pub address: u64,
    /// Symbol size.
    pub size: u64,
    /// Symbol type (e.g., FUNC, OBJECT).
    pub kind: String,
}

/// Parsed representation of an ELF binary.
#[derive(Debug, Clone, PartialEq)]
pub struct ElfBinary {
    /// Entry point virtual address.
    pub entry_point: u64,
    /// Parsed sections.
    pub sections: Vec<ElfSection>,
    /// Whether the ELF is 64-bit.
    pub is_64_bit: bool,
    /// Architecture (e_machine).
    pub architecture: u16,
    /// Parsed symbols.
    pub symbols: Vec<ElfSymbol>,
    /// Interpreter path (dynamic linker), if any.
    pub interpreter: Option<String>,
    /// Dynamic libraries, if any.
    pub libraries: Vec<String>,
}

/// What goblin reports of a PE image, as plain values: the entry point,
/// image base and word size; each section header as (raw name, virtual
/// address, virtual size, size of raw data, pointer to raw data,
/// characteristics); each export as (name, rva, size); each import as
/// (name, rva, size).
pub struct PeHeaders {
    pub entry: u32,
    pub image_base: u64,
    pub is_64: bool,
    pub sections: Vec<([u8; 8], u32, u32, u32, u32, u32)>,
    pub exports: Vec<(Option<String>, usize, usize)>,
    pub imports: Vec<(String, usize, usize)>,
}

/// What goblin reports of an ELF image, as plain values: the entry point,
/// word size and machine; each section header as (name, address, size,
/// offset, flags); each symbol as (name, value, size, type); the
/// interpreter and the needed libraries.  A name is absent when its string
/// table has no entry at the recorded offset.
pub struct ElfHeaders {
    pub entry: u64,
    pub is_64: bool,
    pub machine: u16,
    pub sections: Vec<(Option<String>, u64, u64, u64, u64)>,
    pub symbols: Vec<(Option<String>, u64, u64, u8)>,
    pub interpreter: Option<String>,
    pub libraries: Vec<String>,
}

/// `PeHeaders` as plain values.
pub ghost struct PeHeadersView {
    pub entry: u32,
    pub image_base: u64,
    pub is_64: bool,
    pub sections: Seq<(Seq<u8>, u32, u32, u32, u32, u32)>,
    pub exports: Seq<(Option<Seq<char>>, usize, usize)>,
    pub imports: Seq<(Seq<char>, usize, usize)>,
}

/// `ElfHeaders` as plain values.
pub ghost struct ElfHeadersView {
    pub entry: u64,
    pub is_64: bool,
    pub machine: u16,
    pub sections: Seq<(Option<Seq<char>>, u64, u64, u64, u64)>,
    pub symbols: Seq<(Option<Seq<char>>, u64, u64, u8)>,
    pub interpreter: Option<Seq<char>>,
    pub libraries: Seq<Seq<char>>,
}

/// The text of an optional string.
pub open spec fn opt_text(s: Option<String>) -> Option<Seq<char>> {
    match s {
        Some(t) => Some(t@),
        None => None,
    }
}

impl View for PeHeaders {
    type V = PeHeadersView;

    open spec fn view(&self) -> PeHeadersView {
        PeHeadersView {
            entry: self.entry,
            image_base: self.image_base,
            is_64: self.is_64,
            sections: self.sections@.map_values(
                |s: ([u8; 8], u32, u32, u32, u32, u32)| (s.0@, s.1, s.2, s.3, s.4, s.5),
            ),
            exports: self.exports@.map_values(
                |e: (Option<String>, usize, usize)| (opt_text(e.0), e.1, e.2),
            ),
            imports: self.imports@.map_values(|i: (String, usize, usize)| (i.0@, i.1, i.2)),
        }
    }
}

impl View for ElfHeaders {
    type V = ElfHeadersView;

    open spec fn view(&self) -> ElfHeadersView {
        ElfHeadersView {
            entry: self.entry,
            is_64: self.is_64,
            machine: self.machine,
            sections: self.sections@.map_values(
                |s: (Option<String>, u64, u64, u64, u64)| (opt_text(s.0), s.1, s.2, s.3, s.4),
            ),
            symbols: self.symbols@.map_values(
                |s: (Option<String>, u64, u64, u8)| (opt_text(s.0), s.1, s.2, s.3),
            ),
            interpreter: opt_text(self.interpreter),
            libraries: self.libraries@.map_values(|s: String| s@),
        }
    }
}

/// What `goblin::pe::PE::parse` reports of `bytes`, or `None` when it
/// refuses them.
pub uninterp spec fn goblin_pe(bytes: Seq<u8>) -> Option<PeHeadersView>;

/// What `goblin::elf::Elf::parse` reports of `bytes`, or `None` when it
/// refuses them.
pub uninterp spec fn goblin_elf(bytes: Seq<u8>) -> Option<ElfHeadersView>;

/// The text that `String::from_utf8_lossy` makes of `bytes`.
pub uninterp spec fn utf8_lossy(bytes: Seq<u8>) -> Seq<char>;

/// The little-endian 16-bit value at offset `at` of `b`.
pub open spec fn le_u16(b: Seq<u8>, at: int) -> int {
    b[at] + 256 * b[at + 1]
}

/// The little-endian 32-bit value at offset `at` of `b`.
pub open spec fn le_u32(b: Seq<u8>, at: int) -> int {
    b[at] + 256 * b[at + 1] + 65536 * b[at + 2] + 16777216 * b[at + 3]
}

/// Where the section table of a PE image starts: after the PE signature
/// (found through the DOS header's pointer at 0x3C), the 20-byte COFF header
/// and the optional header, whose size the COFF header gives.
pub open spec fn pe_section_table_start(b: Seq<u8>) -> int {
    le_u32(b, 0x3C) + 24 + le_u16(b, le_u32(b, 0x3C) + 20)
}

/// Entry `i` of the section table lies within `b`, and its virtual address
/// plus its virtual size does not fit in 32 bits.
pub open spec fn section_end_overflows(b: Seq<u8>, i: int) -> bool {
    let at = pe_section_table_start(b) + 40 * i;
    &&& at + 40 <= b.len()
    &&& le_u32(b, at + 12) + le_u32(b, at + 8) > u32::MAX
}

/// A section that the PE headers of `b` list ends beyond the 32-bit
/// address space.  goblin computes that end in 32-bit arithmetic while it
/// resolves addresses, so such images are refused before goblin sees them.
pub open spec fn pe_section_end_overflows(b: Seq<u8>) -> bool {
    &&& b.len() >= 0x40
    &&& le_u32(b, 0x3C) + 24 <= b.len()
    &&& exists|i: int| 0 <= i < le_u16(b, le_u32(b, 0x3C) + 6) && #[trigger] section_end_overflows(b, i)
}

/// The little-endian 16-bit value at offset `at`.
fn read_u16(bytes: &[u8], at: usize) -> (r: u64)
    requires
        at + 2 <= bytes@.len(),
    ensures
        r == le_u16(bytes@, at as int),
{
    bytes[at] as u64 + 256 * (bytes[at + 1] as u64)
}

/// The little-endian 32-bit value at offset `at`.
fn read_u32(bytes: &[u8], at: usize) -> (r: u64)
    requires
        at + 4 <= bytes@.len(),
    ensures
        r == le_u32(bytes@, at as int),
{
    bytes[at] as u64 + 256 * (bytes[at + 1] as u64) + 65536 * (bytes[at + 2] as u64) + 16777216 * (
    bytes[at + 3] as u64)
}

/// Whether a section that the PE headers of `bytes` list ends beyond the
/// 32-bit address space.
pub fn pe_section_ends_overflow(bytes: &[u8]) -> (r: bool)
    ensures
        r == pe_section_end_overflows(bytes@),
{
    let len = bytes.len() as u64;
    assert(len == bytes@.len());
    if bytes.len() < 0x40 {
        return false;
    }
    let p = read_u32(bytes, 0x3C);
    if p + 24 > len {
        return false;
    }
    let count = read_u16(bytes, (p + 6) as usize);
    let start = p + 24 + read_u16(bytes, (p + 20) as usize);
    proof {
        assert(start == pe_section_table_start(bytes@));
    }
    let mut i: u64 = 0;
    let mut at: u64 = start;
    while i < count
        invariant
            0 <= i <= count,
            count == le_u16(bytes@, le_u32(bytes@, 0x3C) + 6),
            p == le_u32(bytes@, 0x3C),
            len == bytes@.len(),
            start == pe_section_table_start(bytes@),
            at == start + 40 * i,
            count < 65536,
            start < 0x1_0000_0000 + 24 + 65536,
            bytes@.len() <= usize::MAX,
            forall|j: int| 0 <= j < i ==> !#[trigger] section_end_overflows(bytes@, j),
        decreases count - i,
    {
        assert(at == pe_section_table_start(bytes@) + 40 * (i as int));
        if at + 40 <= len {
            let vsize = read_u32(bytes, (at + 8) as usize);
            let vaddr = read_u32(bytes, (at + 12) as usize);
            assert(vsize == le_u32(bytes@, at + 8));
            assert(vaddr == le_u32(bytes@, at + 12));
            if vaddr + vsize > 0xFFFF_FFFF {
                assert(section_end_overflows(bytes@, i as int));
                return true;
            }
        }
        assert(!section_end_overflows(bytes@, i as int));
        i += 1;
        at += 40;
    }
    assert forall|j: int| 0 <= j < le_u16(bytes@, le_u32(bytes@, 0x3C) + 6) implies !#[trigger] section_end_overflows(bytes@, j) by {}
    false
}

/// Calls `goblin::pe::PE::parse` and copies out the header fields, section
/// headers, exports and imports.  Claimed: success and the copied values
/// are a function of the bytes alone (named `goblin_pe`).  Images whose
/// listed sections end beyond 32 bits are kept out: goblin adds the section
/// address and size in 32-bit arithmetic while it resolves addresses.
#[verifier::external_body]
fn goblin_parse_pe(bytes: &[u8]) -> (r: Result<PeHeaders, goblin::error::Error>)
    requires
        !pe_section_end_overflows(bytes@),
    ensures
        r is Ok <==> goblin_pe(bytes@) is Some,
        r matches Ok(h) ==> goblin_pe(bytes@) == Some(h@),
{
    let pe = PE::parse(bytes)?;
    let s = |t: &SectionTable| (t.name, t.virtual_address, t.virtual_size, t.size_of_raw_data, t.pointer_to_raw_data, t.characteristics);
    Ok(PeHeaders {
        entry: pe.entry,
        image_base: pe.image_base,
        is_64: pe.is_64,
        sections: pe.sections.iter().map(s).collect(),
        exports: pe.exports.iter().map(|e| (e.name.map(String::from), e.rva, e.size)).collect(),
        imports: pe.imports.iter().map(|i| (i.name.to_string(), i.rva, i.size)).collect(),
    })
}

/// Calls `goblin::elf::Elf::parse` and copies out the header fields, the
/// section headers and symbols (names looked up in their string tables,
/// symbol types as goblin decodes them), the interpreter and the libraries.
/// Claimed: success and the copied values are a function of the bytes alone
/// (named `goblin_elf`).
#[verifier::external_body]
fn goblin_parse_elf(bytes: &[u8]) -> (r: Result<ElfHeaders, goblin::error::Error>)
    ensures
        r is Ok <==> goblin_elf(bytes@) is Some,
        r matches Ok(h) ==> goblin_elf(bytes@) == Some(h@),
{
    let e = Elf::parse(bytes)?;
    let name = |t: &Strtab, at| t.get_at(at).map(String::from);
    Ok(ElfHeaders {
        entry: e.entry,
        is_64: e.is_64,
        machine: e.header.e_machine,
        sections: e.section_headers.iter().map(|h| (name(&e.shdr_strtab, h.sh_name), h.sh_addr, h.sh_size, h.sh_offset, h.sh_flags)).collect(),
        symbols: e.syms.iter().map(|y| (name(&e.strtab, y.st_name), y.st_value, y.st_size, y.st_type())).collect(),
        interpreter: e.interpreter.map(String::from),
        libraries: e.libraries.iter().map(|l| l.to_string()).collect(),
    })
}

/// Calls `String::from_utf8_lossy`: valid UTF-8 decodes as such; what it
/// makes of other bytes (replacement characters) is named `utf8_lossy`.
#[verifier::external_body]
fn lossy_text(bytes: &[u8]) -> (s: String)
    ensures
        s@ == utf8_lossy(bytes@),
        valid_utf8(bytes@) ==> s@ == decode_utf8(bytes@),
{
    String::from_utf8_lossy(bytes).into_owned()
}

/// `bytes` without its trailing zero bytes.
pub open spec fn without_trailing_zeros(bytes: Seq<u8>) -> Seq<u8>
    decreases bytes.len(),
{
    if bytes.len() > 0 && bytes.last() == 0 {
        without_trailing_zeros(bytes.drop_last())
    } else {
        bytes
    }
}

/// The name of a PE section: its eight raw bytes without the NUL padding,
/// decoded as UTF-8 when they are valid UTF-8, and otherwise as
/// `String::from_utf8_lossy` decodes them.  A NUL byte is never part of a
/// multi-byte sequence, so dropping NUL bytes before decoding leaves the
/// same text as dropping NUL characters after it.
pub open spec fn pe_section_name(raw: Seq<u8>) -> Seq<char> {
    let bytes = without_trailing_zeros(raw);
    if valid_utf8(bytes) {
        decode_utf8(bytes)
    } else {
        utf8_lossy(bytes)
    }
}

/// A PE section as reported, with its name decoded.
pub open spec fn pe_section_of(s: (Seq<u8>, u32, u32, u32, u32, u32)) -> PeSectionView {
    PeSectionView {
        name: pe_section_name(s.0),
        virtual_address: s.1 as u64,
        virtual_size: s.2 as u64,
        raw_size: s.3 as u64,
        raw_offset: s.4 as u64,
        characteristics: s.5,
    }
}

/// `PeSection` as plain values.
pub ghost struct PeSectionView {
    pub name: Seq<char>,
    pub virtual_address: u64,
    pub virtual_size: u64,
    pub raw_size: u64,
    pub raw_offset: u64,
    pub characteristics: u32,
}

/// `PeSymbol` (and `ElfSymbol`) as plain values.
pub ghost struct SymbolEntryView {
    pub name: Seq<char>,
    pub address: u64,
    pub size: u64,
    pub kind: Seq<char>,
}

/// `PeBinary` as plain values.
pub ghost struct PeBinaryView {
    pub entry_point: u64,
    pub sections: Seq<PeSectionView>,
    pub image_base: u64,
    pub is_64_bit: bool,
    pub symbols: Seq<SymbolEntryView>,
}

/// `ElfSection` as plain values.
pub ghost struct ElfSectionView {
    pub name: Seq<char>,
    pub address: u64,
    pub size: u64,
    pub offset: u64,
    pub flags: u64,
}

/// `ElfBinary` as plain values.
pub ghost struct ElfBinaryView {
    pub entry_point: u64,
    pub sections: Seq<ElfSectionView>,
    pub is_64_bit: bool,
    pub architecture: u16,
    pub symbols: Seq<SymbolEntryView>,
    pub interpreter: Option<Seq<char>>,
    pub libraries: Seq<Seq<char>>,
}

impl View for PeSection {
    type V = PeSectionView;

    open spec fn view(&self) -> PeSectionView {
        PeSectionView {
            name: self.name@,
            virtual_address: self.virtual_address,
            virtual_size: self.virtual_size,
            raw_size: self.raw_size,
            raw_offset: self.raw_offset,
            characteristics: self.characteristics,
        }
    }
}

impl View for PeSymbol {
    type V = SymbolEntryView;

    open spec fn view(&self) -> SymbolEntryView {
        SymbolEntryView { name: self.name@, address: self.address, size: self.size, kind: self.kind@ }
    }
}

impl View for ElfSymbol {
    type V = SymbolEntryView;

    open spec fn view(&self) -> SymbolEntryView {
        SymbolEntryView { name: self.name@, address: self.address, size: self.size, kind: self.kind@ }
    }
}

impl View for ElfSection {
    type V = ElfSectionView;

    open spec fn view(&self) -> ElfSectionView {
        ElfSectionView {
            name: self.name@,
            address: self.address,
            size: self.size,
            offset: self.offset,
            flags: self.flags,
        }
    }
}

impl View for PeBinary {
    type V = PeBinaryView;

    open spec fn view(&self) -> PeBinaryView {
        PeBinaryView {
            entry_point: self.entry_point,
            sections: self.sections@.map_values(|s: PeSection| s@),
            image_base: self.image_base,
            is_64_bit: self.is_64_bit,
            symbols: self.symbols@.map_values(|s: PeSymbol| s@),
        }
    }
}

impl View for ElfBinary {
    type V = ElfBinaryView;

    open spec fn view(&self) -> ElfBinaryView {
        ElfBinaryView {
            entry_point: self.entry_point,
            sections: self.sections@.map_values(|s: ElfSection| s@),
            is_64_bit: self.is_64_bit,
            architecture: self.architecture,
            symbols: self.symbols@.map_values(|s: ElfSymbol| s@),
            interpreter: opt_text(self.interpreter),
            libraries: self.libraries@.map_values(|s: String| s@),
        }
    }
}

/// The text of an optional name, empty when absent.
pub open spec fn name_or_empty(name: Option<Seq<char>>) -> Seq<char> {
    match name {
        Some(n) => n,
        None => Seq::empty(),
    }
}

/// An export as a symbol of kind `export`.
pub open spec fn pe_export_symbol(e: (Option<Seq<char>>, usize, usize)) -> SymbolEntryView {
    SymbolEntryView { name: name_or_empty(e.0), address: e.1 as u64, size: e.2 as u64, kind: "export"@ }
}

/// An import as a symbol of kind `import`.
pub open spec fn pe_import_symbol(i: (Seq<char>, usize, usize)) -> SymbolEntryView {
    SymbolEntryView { name: i.0, address: i.1 as u64, size: i.2 as u64, kind: "import"@ }
}

/// The binary that the PE headers describe: sections in header order,
/// then the exports followed by the imports as symbols.
pub open spec fn pe_binary_of(h: PeHeadersView) -> PeBinaryView {
    PeBinaryView {
        entry_point: h.entry as u64,
        sections: h.sections.map_values(|s: (Seq<u8>, u32, u32, u32, u32, u32)| pe_section_of(s)),
        image_base: h.image_base,
        is_64_bit: h.is_64,
        symbols: h.exports.map_values(|e: (Option<Seq<char>>, usize, usize)| pe_export_symbol(e))
            + h.imports.map_values(|i: (Seq<char>, usize, usize)| pe_import_symbol(i)),
    }
}

/// The ELF name of a symbol type.
pub open spec fn elf_symbol_kind(t: u8) -> Seq<char> {
    if t == 1 {
        "OBJECT"@
    } else if t == 2 {
        "FUNC"@
    } else if t == 3 {
        "SECTION"@
    } else if t == 4 {
        "FILE"@
    } else if t == 5 {
        "COMMON"@
    } else if t == 6 {
        "TLS"@
    } else {
        "UNKNOWN"@
    }
}

/// An ELF section header as a section, an absent name read as empty.
pub open spec fn elf_section_of(s: (Option<Seq<char>>, u64, u64, u64, u64)) -> ElfSectionView {
    ElfSectionView { name: name_or_empty(s.0), address: s.1, size: s.2, offset: s.3, flags: s.4 }
}

/// An ELF symbol entry as a symbol, with its type named.
pub open spec fn elf_symbol_of(s: (Option<Seq<char>>, u64, u64, u8)) -> SymbolEntryView {
    SymbolEntryView { name: name_or_empty(s.0), address: s.1, size: s.2, kind: elf_symbol_kind(s.3) }
}

/// The binary that the ELF headers describe.
pub open spec fn elf_binary_of(h: ElfHeadersView) -> ElfBinaryView {
    ElfBinaryView {
        entry_point: h.entry,
        sections: h.sections.map_values(|s: (Option<Seq<char>>, u64, u64, u64, u64)| elf_section_of(s)),
        is_64_bit: h.is_64,
        architecture: h.machine,
        symbols: h.symbols.map_values(|s: (Option<Seq<char>>, u64, u64, u8)| elf_symbol_of(s)),
        interpreter: h.interpreter,
        libraries: h.libraries,
    }
}

/// `raw` without its trailing zero bytes.
fn strip_trailing_zeros(raw: &[u8; 8]) -> (r: Vec<u8>)
    ensures
        r@ == without_trailing_zeros(raw@),
{
    let mut end: usize = 8;
    assert(raw@.take(8) =~= raw@);
    while end > 0 && raw[end - 1] == 0
        invariant
            0 <= end <= 8,
            raw@.len() == 8,
            without_trailing_zeros(raw@) == without_trailing_zeros(raw@.take(end as int)),
        decreases end,
    {
        assert(raw@.take(end as int).drop_last() =~= raw@.take(end - 1));
        end -= 1;
    }
    let mut out: Vec<u8> = Vec::new();
    let mut i: usize = 0;
    while i < end
        invariant
            0 <= i <= end <= 8,
            raw@.len() == 8,
            out@ =~= raw@.take(i as int),
        decreases end - i,
    {
        out.push(raw[i]);
        i += 1;
    }
    proof {
        let t = raw@.take(end as int);
        assert(out@ =~= t);
        assert(t.len() == 0 || t.last() != 0);
    }
    out
}

/// The text of a name, empty when absent.
fn owned_name(name: &Option<String>) -> (r: String)
    ensures
        r@ == name_or_empty(opt_text(*name)),
{
    match name {
        Some(n) => n.clone(),
        None => String::new(),
    }
}

/// The ELF name of a symbol type.
fn symbol_kind(t: u8) -> (r: String)
    ensures
        r@ == elf_symbol_kind(t),
{
    proof {
        reveal_strlit("OBJECT");
        reveal_strlit("FUNC");
        reveal_strlit("SECTION");
        reveal_strlit("FILE");
        reveal_strlit("COMMON");
        reveal_strlit("TLS");
        reveal_strlit("UNKNOWN");
    }
    if t == 1 {
        String::from_str("OBJECT")
    } else if t == 2 {
        String::from_str("FUNC")
    } else if t == 3 {
        String::from_str("SECTION")
    } else if t == 4 {
        String::from_str("FILE")
    } else if t == 5 {
        String::from_str("COMMON")
    } else if t == 6 {
        String::from_str("TLS")
    } else {
        String::from_str("UNKNOWN")
    }
}

/// A copy of each string of `names`.
fn copy_texts(names: &Vec<String>) -> (r: Vec<String>)
    ensures
        r@.map_values(|s: String| s@) == names@.map_values(|s: String| s@),
{
    let mut out: Vec<String> = Vec::new();
    let mut i: usize = 0;
    while i < names.len()
        invariant
            0 <= i <= names@.len(),
            out@.len() == i,
            forall|j: int| 0 <= j < i ==> out@[j]@ == names@[j]@,
        decreases names@.len() - i,
    {
        out.push(names[i].clone());
        i += 1;
    }
    assert(out@.map_values(|s: String| s@) =~= names@.map_values(|s: String| s@));
    out
}

/// Builds the structured PE description from what goblin reports: section
/// names are decoded, exports and then imports become symbols.
pub fn pe_binary_from(h: &PeHeaders) -> (b: PeBinary)
    ensures
        b@ == pe_binary_of(h@),
{
    let ghost hv = h@;
    let mut sections: Vec<PeSection> = Vec::new();
    let mut i: usize = 0;
    while i < h.sections.len()
        invariant
            0 <= i <= h.sections@.len(),
            hv == h@,
            sections@.len() == i,
            forall|j: int| 0 <= j < i ==> sections@[j]@ == pe_section_of(hv.sections[j]),
        decreases h.sections@.len() - i,
    {
        let s = &h.sections[i];
        let trimmed = strip_trailing_zeros(&s.0);
        let name = lossy_text(trimmed.as_slice());
        sections.push(
            PeSection {
                name,
                virtual_address: s.1 as u64,
                virtual_size: s.2 as u64,
                raw_size: s.3 as u64,
                raw_offset: s.4 as u64,
                characteristics: s.5,
            },
        );
        i += 1;
    }
    proof {
        reveal_strlit("export");
        reveal_strlit("import");
    }
    let mut symbols: Vec<PeSymbol> = Vec::new();
    let mut i: usize = 0;
    while i < h.exports.len()
        invariant
            0 <= i <= h.exports@.len(),
            hv == h@,
            symbols@.len() == i,
            forall|j: int| 0 <= j < i ==> symbols@[j]@ == pe_export_symbol(hv.exports[j]),
        decreases h.exports@.len() - i,
    {
        let e = &h.exports[i];
        symbols.push(
            PeSymbol {
                name: owned_name(&e.0),
                address: e.1 as u64,
                size: e.2 as u64,
                kind: String::from_str("export"),
            },
        );
        i += 1;
    }
    let mut k: usize = 0;
    while k < h.imports.len()
        invariant
            0 <= k <= h.imports@.len(),
            hv == h@,
            symbols@.len() == hv.exports.len() + k,
            forall|j: int| 0 <= j < hv.exports.len() ==> symbols@[j]@ == pe_export_symbol(hv.exports[j]),
            forall|j: int|
                0 <= j < k ==> symbols@[hv.exports.len() + j]@ == pe_import_symbol(hv.imports[j]),
        decreases h.imports@.len() - k,
    {
        let imp = &h.imports[k];
        symbols.push(
            PeSymbol {
                name: imp.0.clone(),
                address: imp.1 as u64,
                size: imp.2 as u64,
                kind: String::from_str("import"),
            },
        );
        k += 1;
    }
    let b = PeBinary {
        entry_point: h.entry as u64,
        sections,
        image_base: h.image_base,
        is_64_bit: h.is_64,
        symbols,
    };
    assert(b@.sections =~= pe_binary_of(hv).sections);
    assert(b@.symbols =~= pe_binary_of(hv).symbols);
    b
}

/// Builds the structured ELF description from what goblin reports: absent
/// names read as empty and symbol types are named.
pub fn elf_binary_from(h: &ElfHeaders) -> (b: ElfBinary)
    ensures
        b@ == elf_binary_of(h@),
{
    let ghost hv = h@;
    let mut sections: Vec<ElfSection> = Vec::new();
    let mut i: usize = 0;
    while i < h.sections.len()
        invariant
            0 <= i <= h.sections@.len(),
            hv == h@,
            sections@.len() == i,
            forall|j: int| 0 <= j < i ==> sections@[j]@ == elf_section_of(hv.sections[j]),
        decreases h.sections@.len() - i,
    {
        let s = &h.sections[i];
        sections.push(
            ElfSection { name: owned_name(&s.0), address: s.1, size: s.2, offset: s.3, flags: s.4 },
        );
        i += 1;
    }
    let mut symbols: Vec<ElfSymbol> = Vec::new();
    let mut i: usize = 0;
    while i < h.symbols.len()
        invariant
            0 <= i <= h.symbols@.len(),
            hv == h@,
            symbols@.len() == i,
            forall|j: int| 0 <= j < i ==> symbols@[j]@ == elf_symbol_of(hv.symbols[j]),
        decreases h.symbols@.len() - i,
    {
        let s = &h.symbols[i];
        symbols.push(
            ElfSymbol { name: owned_name(&s.0), address: s.1, size: s.2, kind: symbol_kind(s.3) },
        );
        i += 1;
    }
    let interpreter = match &h.interpreter {
        Some(p) => Some(p.clone()),
        None => None,
    };
    let b = ElfBinary {
        entry_point: h.entry,
        sections,
        is_64_bit: h.is_64,
        architecture: h.machine,
        symbols,
        interpreter,
        libraries: copy_texts(&h.libraries),
    };
    assert(b@.sections =~= elf_binary_of(hv).sections);
    assert(b@.symbols =~= elf_binary_of(hv).symbols);
    b
}

/// Parse a PE binary from raw bytes.
///
/// An image that lists a section ending beyond the 32-bit address space is
/// refused as `InvalidPE`.  Any other succeeds exactly when goblin accepts
/// the bytes, with the description that its headers give; goblin's refusal
/// comes back as `Goblin`.
pub fn parse_pe(bytes: &[u8]) -> (r: Result<PeBinary, LoaderError>)
    ensures
        pe_section_end_overflows(bytes@) <==> r matches Err(LoaderError::InvalidPE(_)),
        r is Ok <==> !pe_section_end_overflows(bytes@) && goblin_pe(bytes@) is Some,
        r matches Ok(b) ==> b@ == pe_binary_of(goblin_pe(bytes@)->0),
        !pe_section_end_overflows(bytes@) ==> (r matches Err(e) ==> e is Goblin),
{
    if pe_section_ends_overflow(bytes) {
        return Err(LoaderError::InvalidPE(String::from_str("a section ends beyond the 32-bit address space")));
    }
    match goblin_parse_pe(bytes) {
        Ok(h) => Ok(pe_binary_from(&h)),
        Err(e) => Err(LoaderError::Goblin(e)),
    }
}

/// Parse an ELF binary from raw bytes.
///
/// Succeeds exactly when goblin accepts the bytes, with the description
/// that its headers give; goblin's refusal comes back as `Goblin`.
pub fn parse_elf(bytes: &[u8]) -> (r: Result<ElfBinary, LoaderError>)
    ensures
        r is Ok <==> goblin_elf(bytes@) is Some,
        r matches Ok(b) ==> b@ == elf_binary_of(goblin_elf(bytes@)->0),
        r matches Err(e) ==> e is Goblin,
{
    match goblin_parse_elf(bytes) {
        Ok(h) => Ok(elf_binary_from(&h)),
        Err(e) => Err(LoaderError::Goblin(e)),
    }
}

/// The PE description lists one symbol per export, in goblin's order, and
/// after them one symbol per import, in goblin's order: an export keeps its
/// name (empty when it has none), rva and size and is of kind `export`; an
/// import keeps its name, rva and size and is of kind `import`.  The entry
/// point, image base and word size are goblin's, and there is one section
/// per section header, at its virtual address, of its virtual size, raw
/// size, raw offset and characteristics.
pub proof fn pe_description_follows_headers(h: PeHeadersView)
    ensures
        pe_binary_of(h).entry_point == h.entry as u64,
        pe_binary_of(h).image_base == h.image_base,
        pe_binary_of(h).is_64_bit == h.is_64,
        pe_binary_of(h).sections.len() == h.sections.len(),
        forall|k: int|
            0 <= k < h.sections.len() ==> {
                let s = #[trigger] pe_binary_of(h).sections[k];
                &&& s.virtual_address == h.sections[k].1 as u64
                &&& s.virtual_size == h.sections[k].2 as u64
                &&& s.raw_size == h.sections[k].3 as u64
                &&& s.raw_offset == h.sections[k].4 as u64
                &&& s.characteristics == h.sections[k].5
            },
        pe_binary_of(h).symbols.len() == h.exports.len() + h.imports.len(),
        forall|k: int|
            0 <= k < h.exports.len() ==> {
                let s = #[trigger] pe_binary_of(h).symbols[k];
                &&& s.name == (match h.exports[k].0 {
                    Some(n) => n,
                    None => Seq::<char>::empty(),
                })
                &&& s.address == h.exports[k].1 as u64
                &&& s.size == h.exports[k].2 as u64
                &&& s.kind == "export"@
            },
        forall|k: int|
            0 <= k < h.imports.len() ==> {
                let s = #[trigger] pe_binary_of(h).symbols[h.exports.len() + k];
                &&& s.name == h.imports[k].0
                &&& s.address == h.imports[k].1 as u64
                &&& s.size == h.imports[k].2 as u64
                &&& s.kind == "import"@
            },
{
    let b = pe_binary_of(h);
    let ex = h.exports.map_values(|e: (Option<Seq<char>>, usize, usize)| pe_export_symbol(e));
    let im = h.imports.map_values(|i: (Seq<char>, usize, usize)| pe_import_symbol(i));
    assert(b.symbols == ex + im);
    assert forall|k: int| 0 <= k < h.imports.len() implies b.symbols[h.exports.len() + k] == im[k] by {
        assert((ex + im)[ex.len() + k] == im[k]);
    }
}

/// Each ELF symbol keeps goblin's name (empty when it has none), value and
/// size, and its kind is the ELF name of its type: 1 is `OBJECT`, 2 `FUNC`,
/// 3 `SECTION`, 4 `FILE`, 5 `COMMON`, 6 `TLS`, and any other `UNKNOWN`.
/// There is one symbol per symbol-table entry, in goblin's order.
pub proof fn elf_symbols_named_by_type(h: ElfHeadersView)
    ensures
        elf_binary_of(h).symbols.len() == h.symbols.len(),
        forall|k: int|
            0 <= k < h.symbols.len() ==> {
                let s = #[trigger] elf_binary_of(h).symbols[k];
                let t = h.symbols[k].3;
                &&& s.name == (match h.symbols[k].0 {
                    Some(n) => n,
                    None => Seq::<char>::empty(),
                })
                &&& s.address == h.symbols[k].1
                &&& s.size == h.symbols[k].2
                &&& (t == 1 ==> s.kind == "OBJECT"@)
                &&& (t == 2 ==> s.kind == "FUNC"@)
                &&& (t == 3 ==> s.kind == "SECTION"@)
                &&& (t == 4 ==> s.kind == "FILE"@)
                &&& (t == 5 ==> s.kind == "COMMON"@)
                &&& (t == 6 ==> s.kind == "TLS"@)
                &&& ((t == 0 || t > 6) ==> s.kind == "UNKNOWN"@)
            },
{
}

} // verus!
