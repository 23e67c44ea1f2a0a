//! PE section reader port for Pine processes.
//!
//! A loaded PE image is divided into named sections (`.text`, `.data`,
//! `.rdata`, `.rsrc`, ...).  Each section has a virtual address, a virtual
//! size, and a backing byte buffer.  The port abstracts the concrete reader
//! so the loader, the syscall handler, and the inspector stay
//! engine-agnostic.

use std::cell::RefCell;
use std::io;
use vstd::prelude::*;

use crate::cells::{call_entry, new_log, record_call};
use crate::text::{decimal_u64, hex_u64, spec_decimal, spec_hex};

verus! {


/// Inert, content-addressed description of a PE section.
#[derive(Debug, PartialEq, Eq)]
pub struct Section {
    /// Section name as it appears in the PE header (e.g. `".text"`).
    pub name: String,
    /// Virtual address of the first byte of the section.
    pub virtual_address: u64,
    /// Virtual size of the section in bytes (may exceed `raw_data.len()`).
    pub virtual_size: u64,
    /// Backing bytes; trailing bytes inside `virtual_size` are implicitly
    /// zero (per the PE spec).
    pub raw_data: Vec<u8>,
}

/// What a section says, as plain values.
pub ghost struct SectionView {
    pub name: Seq<char>,
    pub virtual_address: u64,
    pub virtual_size: u64,
    pub raw_data: Seq<u8>,
}

impl View for Section {
    type V = SectionView;

    open spec fn view(&self) -> SectionView {
        SectionView {
            name: self.name@,
            virtual_address: self.virtual_address,
            virtual_size: self.virtual_size,
            raw_data: self.raw_data@,
        }
    }
}

impl Clone for Section {
    fn clone(&self) -> (r: Self)
        ensures
            r@ == self@,
    {
        Section {
            name: self.name.clone(),
            virtual_address: self.virtual_address,
            virtual_size: self.virtual_size,
            raw_data: self.raw_data.clone(),
        }
    }
}

/// Port-level errors raised by section readers and their adapters.
#[derive(Debug)]
pub enum SectionError {
    /// No section with the given name is present in the image.
    NotFound(String),
    /// Underlying reader backend failed (mmap, network fetch, ...).
    Io(io::Error),
    /// A `read_bytes` request fell outside any loaded section.
    OutOfBounds {
        /// Virtual address the caller asked about.
        va: u64,
        /// Requested byte count.
        len: usize,
    },
}

impl From<io::Error> for SectionError {
    fn from(e: io::Error) -> (r: Self)
        ensures
            r == SectionError::Io(e),
    {
        SectionError::Io(e)
    }
}

impl vstd::std_specs::convert::FromSpecImpl<io::Error> for SectionError {
    open spec fn obeys_from_spec() -> bool {
        true
    }

    open spec fn from_spec(v: io::Error) -> SectionError {
        SectionError::Io(v)
    }
}

/// Hexagonal port: read named sections and arbitrary virtual-address
/// ranges from a loaded PE image.
///
/// Domain code depends on this trait; the concrete adapter is injected.
pub trait SectionReader {
    /// Reads a whole section by name.
    fn read_section(&self, name: &str) -> Result<Section, SectionError>;

    /// Returns the names of all loaded sections, in insertion order.
    fn list_sections(&self) -> Vec<String>;

    /// Reads `len` bytes starting at virtual address `va`.
    /// Returns [`SectionError::OutOfBounds`] if the range is not fully
    /// contained within a single loaded section.
    fn read_bytes(&self, virtual_address: u64, len: usize) -> Result<Vec<u8>, SectionError>;
}

/// The sections of `s`, as plain values.
pub open spec fn section_views(s: Seq<Section>) -> Seq<SectionView> {
    s.map_values(|x: Section| x@)
}

/// The names of `s`, in order.
pub open spec fn section_names(s: Seq<SectionView>) -> Seq<Seq<char>> {
    s.map_values(|x: SectionView| x.name)
}

/// The text of each string of `s`.
pub open spec fn texts(s: Seq<String>) -> Seq<Seq<char>> {
    s.map_values(|x: String| x@)
}

/// `va` lies inside the section: at or after its start and before its
/// virtual end.
pub open spec fn contains_va(s: SectionView, va: u64) -> bool {
    s.virtual_address <= va && va < s.virtual_address + s.virtual_size
}

/// `i` is the first section of `s` that contains `va`.
pub open spec fn is_first_containing(s: Seq<SectionView>, va: u64, i: int) -> bool {
    &&& 0 <= i < s.len()
    &&& contains_va(s[i], va)
    &&& forall|j: int| 0 <= j < i ==> !contains_va(s[j], va)
}

/// The first section of `s` that contains `va`, if any.
pub open spec fn section_at(s: Seq<SectionView>, va: u64) -> Option<int> {
    if exists|i: int| 0 <= i < s.len() && contains_va(s[i], va) {
        Some(choose|i: int| is_first_containing(s, va, i))
    } else {
        None
    }
}

/// The byte at offset `k` of the section's virtual image: backing data
/// where there is some, zero past it.
pub open spec fn section_byte(s: SectionView, k: int) -> u8 {
    if 0 <= k < s.raw_data.len() {
        s.raw_data[k]
    } else {
        0
    }
}

/// The bytes that reading `len` bytes at `va` yields: present when the
/// first section containing `va` also contains the whole range (which must
/// end within the 64-bit address space), absent otherwise.
pub open spec fn read_range(s: Seq<SectionView>, va: u64, len: usize) -> Option<Seq<u8>> {
    match section_at(s, va) {
        Some(i) => {
            let sec = s[i];
            if va + len <= u64::MAX && va + len <= sec.virtual_address + sec.virtual_size {
                Some(
                    Seq::new(
                        len as nat,
                        |j: int| section_byte(sec, va - sec.virtual_address + j),
                    ),
                )
            } else {
                None
            }
        },
        None => None,
    }
}

/// Of sections that do not overlap, reading `len` bytes at `va` inside one
/// of them, the whole range `[va, va + len)` within the section's
/// `[virtual_address, virtual_address + virtual_size)`, gives that section's
/// bytes from offset `va - virtual_address` on, zero past its backing data.
/// So an address at which one section ends and the next begins is read from
/// the next.
pub proof fn read_inside_one_section(s: Seq<SectionView>, i: int, va: u64, len: usize)
    requires
        forall|a: int, b: int|
            0 <= a < s.len() && 0 <= b < s.len() && a != b ==> #[trigger] s[a].virtual_address
                + s[a].virtual_size <= #[trigger] s[b].virtual_address || s[b].virtual_address
                + s[b].virtual_size <= s[a].virtual_address,
        0 <= i < s.len(),
        s[i].virtual_address <= va,
        va < s[i].virtual_address + s[i].virtual_size,
        va + len <= s[i].virtual_address + s[i].virtual_size,
        va + len <= u64::MAX,
    ensures
        read_range(s, va, len) == Some(
            Seq::new(
                len as nat,
                |j: int|
                    {
                        let k = va - s[i].virtual_address + j;
                        if 0 <= k < s[i].raw_data.len() {
                            s[i].raw_data[k]
                        } else {
                            0u8
                        }
                    },
            ),
        ),
{
    assert forall|j: int| 0 <= j < i implies !contains_va(s[j], va) by {
        assert(s[j].virtual_address + s[j].virtual_size <= s[i].virtual_address
            || s[i].virtual_address + s[i].virtual_size <= s[j].virtual_address);
    }
    assert(is_first_containing(s, va, i));
    let k = choose|k: int| is_first_containing(s, va, k);
    if k < i {
        assert(!contains_va(s[k], va));
    } else if i < k {
        assert(!contains_va(s[i], va));
    }
    assert(section_at(s, va) == Some(i));
    let got = read_range(s, va, len)->0;
    assert(got =~= Seq::new(
        len as nat,
        |j: int|
            {
                let k = va - s[i].virtual_address + j;
                if 0 <= k < s[i].raw_data.len() {
                    s[i].raw_data[k]
                } else {
                    0u8
                }
            },
    ));
}

/// An address that no section holds within its
/// `[virtual_address, virtual_address + virtual_size)` cannot be read from.
pub proof fn read_outside_every_section(s: Seq<SectionView>, va: u64, len: usize)
    requires
        forall|a: int|
            0 <= a < s.len() ==> !(#[trigger] s[a].virtual_address <= va && va < s[a].virtual_address
                + s[a].virtual_size),
    ensures
        read_range(s, va, len) is None,
{
}

/// The outcome of a `read_bytes` request: the bytes of the range, or
/// `OutOfBounds` carrying the request.
pub open spec fn reads_to(
    r: Result<Vec<u8>, SectionError>,
    s: Seq<SectionView>,
    va: u64,
    len: usize,
) -> bool {
    match read_range(s, va, len) {
        Some(bytes) => r matches Ok(v) && v@ == bytes,
        None => r matches Err(SectionError::OutOfBounds { va: v, len: l }) && v == va && l == len,
    }
}

/// The first position of `s` holding a section named `name`, if any.
pub open spec fn position_of_name(s: Seq<SectionView>, name: Seq<char>) -> Option<int> {
    if exists|i: int| 0 <= i < s.len() && s[i].name == name {
        Some(
            choose|i: int|
                0 <= i < s.len() && s[i].name == name && forall|j: int|
                    0 <= j < i ==> s[j].name != name,
        )
    } else {
        None
    }
}

/// The table after inserting `sec`: it replaces the section of the same
/// name in place, or is appended when there is none.
pub open spec fn inserted(s: Seq<SectionView>, sec: SectionView) -> Seq<SectionView> {
    match position_of_name(s, sec.name) {
        Some(i) => s.update(i, sec),
        None => s.push(sec),
    }
}

/// `i` is the first position of `s` holding a section named `name`.
pub open spec fn is_first_named(s: Seq<SectionView>, name: Seq<char>, i: int) -> bool {
    &&& 0 <= i < s.len()
    &&& s[i].name == name
    &&& forall|j: int| 0 <= j < i ==> s[j].name != name
}

/// When some section is named `name`, there is a first one, and it is the
/// position that `position_of_name` gives.
proof fn lemma_first_named_exists(s: Seq<SectionView>, name: Seq<char>)
    requires
        exists|i: int| 0 <= i < s.len() && s[i].name == name,
    ensures
        exists|i: int| is_first_named(s, name, i),
        position_of_name(s, name) matches Some(i) && is_first_named(s, name, i),
    decreases s.len(),
{
    let t = s.drop_last();
    if exists|i: int| 0 <= i < t.len() && t[i].name == name {
        lemma_first_named_exists(t, name);
        let i = choose|i: int| is_first_named(t, name, i);
        assert forall|j: int| 0 <= j < i implies s[j].name != name by {
            assert(s[j] == t[j]);
        }
        assert(s[i] == t[i]);
        assert(is_first_named(s, name, i));
    } else {
        assert forall|j: int| 0 <= j < s.len() - 1 implies s[j].name != name by {
            assert(s[j] == t[j]);
        }
        assert(is_first_named(s, name, s.len() - 1));
    }
}

/// Inserting a section makes it the one read back under its name.
pub proof fn lemma_read_section_after_insert(s: Seq<SectionView>, sec: SectionView)
    ensures
        position_of_name(inserted(s, sec), sec.name) matches Some(i) && inserted(s, sec)[i] == sec,
{
    let t = inserted(s, sec);
    let p = match position_of_name(s, sec.name) {
        Some(i) => i,
        None => s.len() as int,
    };
    if exists|i: int| 0 <= i < s.len() && s[i].name == sec.name {
        lemma_first_named_exists(s, sec.name);
        assert(t == s.update(p, sec));
    } else {
        assert(t == s.push(sec));
    }
    assert forall|j: int| 0 <= j < p implies t[j].name != sec.name by {
        assert(t[j] == s[j]);
    }
    assert(is_first_named(t, sec.name, p));
    lemma_first_named_exists(t, sec.name);
    let k = position_of_name(t, sec.name)->0;
    if k < p {
        assert(t[k].name != sec.name);
    } else if p < k {
        assert(t[p].name != sec.name);
    }
}

/// The outcome of reading the section named `name`: a copy of it, or
/// `NotFound(name)`.
pub open spec fn reads_section_to(
    r: Result<Section, SectionError>,
    s: Seq<SectionView>,
    name: Seq<char>,
) -> bool {
    match position_of_name(s, name) {
        Some(i) => r matches Ok(sec) && sec@ == s[i],
        None => r matches Err(SectionError::NotFound(n)) && n@ == name,
    }
}

/// The first position of `sections` holding a section named `name`.
fn find_section(sections: &Vec<Section>, name: &String) -> (r: Option<usize>)
    ensures
        r is None <==> position_of_name(section_views(sections@), name@) is None,
        r matches Some(i) ==> position_of_name(section_views(sections@), name@) == Some(i as int)
            && i < sections@.len(),
{
    let ghost s = section_views(sections@);
    let mut i: usize = 0;
    while i < sections.len()
        invariant
            0 <= i <= sections@.len(),
            s == section_views(sections@),
            forall|j: int| 0 <= j < i ==> s[j].name != name@,
        decreases sections@.len() - i,
    {
        if sections[i].name == *name {
            proof {
                let k = choose|k: int|
                    0 <= k < s.len() && s[k].name == name@ && forall|j: int|
                        0 <= j < k ==> s[j].name != name@;
                assert(0 <= i < s.len() && s[i as int].name == name@);
                if k < i {
                } else if i < k {
                    assert(s[i as int].name != name@);
                }
            }
            return Some(i);
        }
        i += 1;
    }
    None
}

/// Replaces the section of the same name, or appends `section`.
fn insert_section(sections: &mut Vec<Section>, section: Section)
    ensures
        section_views(final(sections)@) == inserted(section_views(old(sections)@), section@),
{
    let ghost before = section_views(sections@);
    let ghost sec = section@;
    match find_section(sections, &section.name) {
        Some(i) => {
            sections.set(i, section);
            assert(section_views(sections@) =~= before.update(i as int, sec));
        },
        None => {
            sections.push(section);
            assert(section_views(sections@) =~= before.push(sec));
        },
    }
}

/// A copy of the section named `name`, or `NotFound(name)`.
fn read_section_in(sections: &Vec<Section>, name: &str) -> (r: Result<Section, SectionError>)
    ensures
        reads_section_to(r, section_views(sections@), name@),
{
    let key = name.to_owned();
    match find_section(sections, &key) {
        Some(i) => Ok(sections[i].clone()),
        None => Err(SectionError::NotFound(key)),
    }
}

/// The first section of `sections` that contains `va`.
fn find_containing(sections: &Vec<Section>, va: u64) -> (r: Option<usize>)
    ensures
        r is None <==> section_at(section_views(sections@), va) is None,
        r matches Some(i) ==> section_at(section_views(sections@), va) == Some(i as int) && i
            < sections@.len() && is_first_containing(section_views(sections@), va, i as int),
{
    let ghost s = section_views(sections@);
    let mut i: usize = 0;
    while i < sections.len()
        invariant
            0 <= i <= sections@.len(),
            s == section_views(sections@),
            forall|j: int| 0 <= j < i ==> !contains_va(s[j], va),
        decreases sections@.len() - i,
    {
        let sec = &sections[i];
        if va >= sec.virtual_address && va - sec.virtual_address < sec.virtual_size {
            proof {
                assert(is_first_containing(s, va, i as int));
                let k = choose|k: int| is_first_containing(s, va, k);
                if k < i {
                } else if i < k {
                    assert(!contains_va(s[i as int], va));
                }
            }
            return Some(i);
        }
        i += 1;
    }
    None
}

/// Reads `len` bytes at `va` from the first section of `sections` that
/// contains `va`, zero-filling past its backing data.
fn read_bytes_in(sections: &Vec<Section>, virtual_address: u64, len: usize) -> (r: Result<
    Vec<u8>,
    SectionError,
>)
    ensures
        reads_to(r, section_views(sections@), virtual_address, len),
{
    let ghost s = section_views(sections@);
    let found = find_containing(sections, virtual_address);
    let i = match found {
        Some(i) => i,
        None => {
            return Err(SectionError::OutOfBounds { va: virtual_address, len });
        },
    };
    let sec = &sections[i];
    let ghost view = s[i as int];
    assert(view == sec@);
    let end = match virtual_address.checked_add(len as u64) {
        Some(end) => end,
        None => {
            return Err(SectionError::OutOfBounds { va: virtual_address, len });
        },
    };
    if end - sec.virtual_address > sec.virtual_size {
        return Err(SectionError::OutOfBounds { va: virtual_address, len });
    }
    let offset = virtual_address - sec.virtual_address;
    let mut out: Vec<u8> = Vec::new();
    let mut k: usize = 0;
    while k < len
        invariant
            0 <= k <= len,
            view == sec@,
            offset == virtual_address - sec.virtual_address,
            offset + len <= sec.virtual_size,
            out@ =~= Seq::new(k as nat, |j: int| section_byte(view, offset + j)),
        decreases len - k,
    {
        let idx: u64 = offset + k as u64;
        let byte: u8 = if idx < sec.raw_data.len() as u64 {
            sec.raw_data[idx as usize]
        } else {
            0
        };
        out.push(byte);
        k += 1;
    }
    Ok(out)
}

/// The names of `sections`, in their order.
fn names_in_order(sections: &Vec<Section>) -> (r: Vec<String>)
    ensures
        texts(r@) == section_names(section_views(sections@)),
{
    let mut out: Vec<String> = Vec::new();
    let mut i: usize = 0;
    while i < sections.len()
        invariant
            0 <= i <= sections@.len(),
            out@.len() == i,
            texts(out@) =~= section_names(section_views(sections@)).take(i as int),
        decreases sections@.len() - i,
    {
        let ghost before = out@;
        let name = sections[i].name.clone();
        out.push(name);
        assert(section_names(section_views(sections@))[i as int] == sections@[i as int].name@);
        assert forall|j: int| 0 <= j < i + 1 implies texts(out@)[j] == section_names(
            section_views(sections@),
        ).take(i + 1)[j] by {
            if j < i {
                assert(out@[j] == before[j]);
                assert(texts(before)[j] == section_names(section_views(sections@)).take(i as int)[j]);
            }
        }
        assert(texts(out@) =~= section_names(section_views(sections@)).take(i + 1));
        i += 1;
    }
    assert(section_names(section_views(sections@)).take(sections@.len() as int) =~= section_names(section_views(sections@)));
    out
}

/// Default in-memory adapter.  Sections are kept in insertion order; a
/// name occurs once.
pub struct InMemorySectionReader {
    sections: Vec<Section>,
}

impl View for InMemorySectionReader {
    type V = Seq<SectionView>;

    closed spec fn view(&self) -> Seq<SectionView> {
        section_views(self.sections@)
    }
}

impl InMemorySectionReader {
    /// Creates an empty reader.
    pub fn new() -> (r: Self)
        ensures
            r@ == Seq::<SectionView>::empty(),
    {
        let r = Self { sections: Vec::new() };
        assert(r@ =~= Seq::<SectionView>::empty());
        r
    }

    /// Inserts (or replaces) a section.
    pub fn insert(&mut self, section: Section)
        ensures
            final(self)@ == inserted(old(self)@, section@),
    {
        insert_section(&mut self.sections, section);
    }

    /// Returns the section that owns `va`, if any.
    fn section_at(&self, va: u64) -> (r: Option<&Section>)
        ensures
            r is None <==> section_at(self@, va) is None,
            r matches Some(sec) ==> sec@ == self@[section_at(self@, va)->0],
    {
        match find_containing(&self.sections, va) {
            Some(i) => Some(&self.sections[i]),
            None => None,
        }
    }
}

impl Default for InMemorySectionReader {
    fn default() -> (r: Self)
        ensures
            r@ == Seq::<SectionView>::empty(),
    {
        Self::new()
    }
}

impl SectionReader for InMemorySectionReader {
    /// A copy of the section named `name`, or `NotFound(name)`.
    fn read_section(&self, name: &str) -> (r: Result<Section, SectionError>)
        ensures
            reads_section_to(r, self@, name@),
    {
        read_section_in(&self.sections, name)
    }

    /// The section names in insertion order.
    fn list_sections(&self) -> (r: Vec<String>)
        ensures
            texts(r@) == section_names(self@),
    {
        names_in_order(&self.sections)
    }

    /// The `len` bytes at `virtual_address`, read from the section that
    /// contains the address; `OutOfBounds` unless that section holds the
    /// whole range.
    fn read_bytes(&self, virtual_address: u64, len: usize) -> (r: Result<Vec<u8>, SectionError>)
        ensures
            reads_to(r, self@, virtual_address, len),
    {
        read_bytes_in(&self.sections, virtual_address, len)
    }
}

/// Recording mock for domain tests.  Each call is appended to `calls` so a
/// test can assert on the interaction order.
pub struct MockSectionReader {
    sections: Vec<Section>,
    /// Sequence of operation signatures invoked on this mock.
    pub calls: RefCell<Vec<String>>,
}

impl View for MockSectionReader {
    type V = Seq<SectionView>;

    closed spec fn view(&self) -> Seq<SectionView> {
        section_views(self.sections@)
    }
}

impl MockSectionReader {
    /// Creates an empty recording mock.
    pub fn new() -> (r: Self)
        ensures
            r@ == Seq::<SectionView>::empty(),
    {
        let r = Self { sections: Vec::new(), calls: new_log(Vec::new()) };
        assert(r@ =~= Seq::<SectionView>::empty());
        r
    }

    /// Stages a section for the mock to serve, replacing one of the same name.
    pub fn stage(&mut self, section: Section)
        ensures
            final(self)@ == inserted(old(self)@, section@),
    {
        insert_section(&mut self.sections, section);
    }
}

impl Default for MockSectionReader {
    fn default() -> (r: Self)
        ensures
            r@ == Seq::<SectionView>::empty(),
    {
        Self::new()
    }
}

/// The log entry `read_bytes(va=0x<hex>, len=<decimal>)`.
fn read_bytes_entry(va: u64, len: usize) -> (s: String)
    ensures
        s@ == "read_bytes(va=0x"@ + spec_hex(va as nat) + ", len="@ + spec_decimal(len as nat) + ")"@,
{
    let mut s = String::from_str("read_bytes(va=0x");
    s.append(hex_u64(va).as_str());
    s.append(", len=");
    s.append(decimal_u64(len as u64).as_str());
    s.append(")");
    s
}

impl SectionReader for MockSectionReader {
    /// Logs `read_section(<name>)`, then copies the staged section.
    fn read_section(&self, name: &str) -> (r: Result<Section, SectionError>)
        ensures
            reads_section_to(r, self@, name@),
    {
        record_call(&self.calls, call_entry("read_section", name));
        read_section_in(&self.sections, name)
    }

    /// Logs `list_sections`, then lists the staged names in staging order.
    fn list_sections(&self) -> (r: Vec<String>)
        ensures
            texts(r@) == section_names(self@),
    {
        record_call(&self.calls, String::from_str("list_sections"));
        names_in_order(&self.sections)
    }

    /// Logs `read_bytes(va=0x<va>, len=<len>)`, then reads as the in-memory
    /// adapter does.
    fn read_bytes(&self, virtual_address: u64, len: usize) -> (r: Result<Vec<u8>, SectionError>)
        ensures
            reads_to(r, self@, virtual_address, len),
    {
        record_call(&self.calls, read_bytes_entry(virtual_address, len));
        read_bytes_in(&self.sections, virtual_address, len)
    }
}

} // verus!
