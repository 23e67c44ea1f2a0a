//! Serialization port for Pine process state.
//!
//! The process snapshot/restore path needs to persist and rehydrate a
//! process image: the asset table, the syscall counters, the exit code,
//! and any custom state the kernel wants to round-trip.  The port
//! abstracts the concrete wire format and storage backend.

use std::cell::Cell;
use vstd::prelude::*;

use crate::cells::{new_cell, replace_cell, take_cell};

verus! {

/// Engine-agnostic snapshot of a Pine process.
#[derive(Debug, PartialEq, Eq)]
pub struct ProcessSnapshot {
    /// Format version of this snapshot.  Bumped on breaking changes.
    pub version: u32,
    /// Identifier of the process this snapshot describes.
    pub process_id: u32,
    /// Ids of the assets attached to the process.
    pub asset_ids: Vec<String>,
    /// Number of syscalls the process has issued.
    pub syscall_count: u64,
    /// Exit code, or `None` if the process is still running.
    pub exit_code: Option<i32>,
}

/// What a snapshot says, as plain values.
pub ghost struct ProcessSnapshotView {
    pub version: u32,
    pub process_id: u32,
    pub asset_ids: Seq<Seq<char>>,
    pub syscall_count: u64,
    pub exit_code: Option<i32>,
}

impl View for ProcessSnapshot {
    type V = ProcessSnapshotView;

    open spec fn view(&self) -> ProcessSnapshotView {
        ProcessSnapshotView {
            version: self.version,
            process_id: self.process_id,
            asset_ids: self.asset_ids@.map_values(|s: String| s@),
            syscall_count: self.syscall_count,
            exit_code: self.exit_code,
        }
    }
}

/// A copy of each string of `ids`.
fn copy_strings(ids: &Vec<String>) -> (r: Vec<String>)
    ensures
        r@.map_values(|s: String| s@) == ids@.map_values(|s: String| s@),
{
    let mut out: Vec<String> = Vec::new();
    let mut i: usize = 0;
    while i < ids.len()
        invariant
            0 <= i <= ids@.len(),
            out@.len() == i,
            forall|j: int| 0 <= j < i ==> out@[j]@ == ids@[j]@,
        decreases ids@.len() - i,
    {
        out.push(ids[i].clone());
        i += 1;
    }
    assert(out@.map_values(|s: String| s@) =~= ids@.map_values(|s: String| s@));
    out
}

impl Clone for ProcessSnapshot {
    fn clone(&self) -> (r: Self)
        ensures
            r@ == self@,
    {
        ProcessSnapshot {
            version: self.version,
            process_id: self.process_id,
            asset_ids: copy_strings(&self.asset_ids),
            syscall_count: self.syscall_count,
            exit_code: self.exit_code,
        }
    }
}

impl ProcessSnapshot {
    /// Convenience constructor: version 1, no assets, no syscalls, still
    /// running.
    pub fn new(process_id: u32) -> (r: Self)
        ensures
            r@ == (ProcessSnapshotView {
                version: 1,
                process_id,
                asset_ids: Seq::empty(),
                syscall_count: 0,
                exit_code: None,
            }),
    {
        let r = Self {
            version: 1,
            process_id,
            asset_ids: Vec::new(),
            syscall_count: 0,
            exit_code: None,
        };
        assert(r@.asset_ids =~= Seq::<Seq<char>>::empty());
        r
    }
}

/// Port-level errors raised by the serialization port and its adapters.
#[derive(Debug)]
pub enum SerializationError {
    /// The destination is empty or otherwise unusable.
    InvalidDestination(String),
    /// The destination is empty (no bytes read) or whitespace-only.
    Empty(String),
    /// The payload could not be parsed.
    Parse(String),
    /// Underlying storage backend failed (file, mmap, network, ...).
    Io(String),
}

/// Stable format identifier exposed by every adapter implementation.
/// Domain code uses this to refuse to load cross-version snapshots
/// before they hit the parser.
pub trait SerializationPort {
    /// Serializes `snapshot` to `destination`.
    fn save(&self, snapshot: &ProcessSnapshot, destination: &str) -> Result<(), SerializationError>;

    /// Loads and deserializes a snapshot from `destination`.
    fn load(&self, destination: &str) -> Result<ProcessSnapshot, SerializationError>;

    /// Stable format identifier (e.g. `"pine-json-v1"`).
    fn format_id(&self) -> &'static str;
}

/// `c` is a white-space character: one of the characters with the Unicode
/// `White_Space` property.
pub open spec fn is_white_space(c: char) -> bool {
    ||| '\u{9}' <= c <= '\u{d}'
    ||| c == ' '
    ||| c == '\u{85}'
    ||| c == '\u{a0}'
    ||| c == '\u{1680}'
    ||| '\u{2000}' <= c <= '\u{200a}'
    ||| c == '\u{2028}'
    ||| c == '\u{2029}'
    ||| c == '\u{202f}'
    ||| c == '\u{205f}'
    ||| c == '\u{3000}'
}

/// `text` holds nothing but white space (in particular, when it is empty).
pub open spec fn is_blank(text: Seq<char>) -> bool {
    forall|i: int| 0 <= i < text.len() ==> is_white_space(#[trigger] text[i])
}

fn white_space(c: char) -> (r: bool)
    ensures
        r == is_white_space(c),
{
    ('\u{9}' <= c && c <= '\u{d}') || c == ' ' || c == '\u{85}' || c == '\u{a0}' || c == '\u{1680}'
        || ('\u{2000}' <= c && c <= '\u{200a}') || c == '\u{2028}' || c == '\u{2029}' || c
        == '\u{202f}' || c == '\u{205f}' || c == '\u{3000}'
}

/// Whether `text` holds nothing but white space.
pub fn blank(text: &str) -> (r: bool)
    ensures
        r == is_blank(text@),
{
    let chars = crate::text::chars_of(text);
    let mut i: usize = 0;
    while i < chars.len()
        invariant
            0 <= i <= chars@.len(),
            chars@ == text@,
            forall|j: int| 0 <= j < i ==> is_white_space(#[trigger] text@[j]),
        decreases chars@.len() - i,
    {
        if !white_space(chars[i]) {
            return false;
        }
        i += 1;
    }
    true
}

/// Default JSON-on-disk adapter.  Used by the process inspector and the CLI
/// save/restore subcommand.  Writing and reading the file, and the JSON
/// encoding itself, happen at the program's edge; this type decides which
/// destinations and payloads are acceptable.
pub struct JsonFileSerializationPort;

impl JsonFileSerializationPort {
    /// The stable format identifier, `"pine-json-v1"`.
    pub fn format_id(&self) -> (r: &'static str)
        ensures
            r@ == "pine-json-v1"@,
    {
        proof {
            reveal_strlit("pine-json-v1");
        }
        "pine-json-v1"
    }

    /// An empty destination is refused with `InvalidDestination`; any other
    /// is accepted.
    pub fn check_destination(&self, destination: &str) -> (r: Result<(), SerializationError>)
        ensures
            destination@.len() == 0 <==> r is Err,
            r matches Err(e) ==> (e matches SerializationError::InvalidDestination(d) && d@
                == destination@),
    {
        if destination.is_empty() {
            Err(SerializationError::InvalidDestination(destination.to_owned()))
        } else {
            Ok(())
        }
    }

    /// A payload read from `destination` that is empty or white space only
    /// is refused with `Empty(destination)`; any other goes on to parsing.
    pub fn check_payload(&self, destination: &str, body: &str) -> (r: Result<(), SerializationError>)
        ensures
            is_blank(body@) <==> r is Err,
            r matches Err(e) ==> (e matches SerializationError::Empty(d) && d@ == destination@),
    {
        if blank(body) {
            Err(SerializationError::Empty(destination.to_owned()))
        } else {
            Ok(())
        }
    }
}

impl Default for JsonFileSerializationPort {
    fn default() -> (r: Self) {
        Self
    }
}

/// A copy of the snapshot, if any.
fn copy_snapshot(s: &Option<ProcessSnapshot>) -> (r: Option<ProcessSnapshot>)
    ensures
        r is Some <==> s is Some,
        r matches Some(c) ==> c@ == s->0@,
{
    match s {
        Some(snapshot) => Some(snapshot.clone()),
        None => None,
    }
}

/// What a load answers for the staged snapshot: a copy of it, or `Empty`
/// saying that nothing was staged.
pub fn staged_load(staged: &Option<ProcessSnapshot>) -> (r: Result<ProcessSnapshot, SerializationError>)
    ensures
        staged is Some <==> r is Ok,
        r matches Ok(s) ==> s@ == staged->0@,
        r matches Err(e) ==> (e matches SerializationError::Empty(msg) && msg@
            == "MockSerializationPort: no snapshot staged."@),
{
    match staged {
        Some(snapshot) => Ok(snapshot.clone()),
        None => {
            proof {
                reveal_strlit("MockSerializationPort: no snapshot staged.");
            }
            Err(SerializationError::Empty(String::from_str("MockSerializationPort: no snapshot staged.")))
        },
    }
}

/// In-memory mock for domain tests.  Records the most recent save and
/// replays a pre-loaded snapshot on load.  Implements the port directly
/// without touching the filesystem.
pub struct MockSerializationPort {
    last_saved: Cell<Option<ProcessSnapshot>>,
    staged: Cell<Option<ProcessSnapshot>>,
}

impl MockSerializationPort {
    /// Creates a new mock with no staged snapshot.
    pub fn new() -> Self {
        Self { last_saved: new_cell(None), staged: new_cell(None) }
    }

    /// Stages a snapshot to be returned by the next `load` call.
    pub fn stage_load(&self, snapshot: ProcessSnapshot) {
        replace_cell(&self.staged, Some(snapshot));
    }

    /// Returns the snapshot captured by the most recent `save` call.
    pub fn last_saved(&self) -> Option<ProcessSnapshot> {
        let saved = take_cell(&self.last_saved);
        let copy = copy_snapshot(&saved);
        replace_cell(&self.last_saved, saved);
        copy
    }
}

impl Default for MockSerializationPort {
    fn default() -> Self {
        Self::new()
    }
}

impl SerializationPort for MockSerializationPort {
    /// The stable format identifier, `"mock-v0"`.
    fn format_id(&self) -> (r: &'static str)
        ensures
            r@ == "mock-v0"@,
    {
        proof {
            reveal_strlit("mock-v0");
        }
        "mock-v0"
    }

    /// Keeps a copy of `snapshot` as the last one saved; always succeeds.
    fn save(&self, snapshot: &ProcessSnapshot, _destination: &str) -> (r: Result<(), SerializationError>)
        ensures
            r is Ok,
    {
        replace_cell(&self.last_saved, Some(snapshot.clone()));
        Ok(())
    }

    /// A copy of the staged snapshot, or `Empty` when none is staged.
    fn load(&self, _destination: &str) -> (r: Result<ProcessSnapshot, SerializationError>)
        ensures
            r matches Err(e) ==> (e matches SerializationError::Empty(msg) && msg@
                == "MockSerializationPort: no snapshot staged."@),
    {
        let staged = take_cell(&self.staged);
        let result = staged_load(&staged);
        replace_cell(&self.staged, staged);
        result
    }
}

} // verus!
