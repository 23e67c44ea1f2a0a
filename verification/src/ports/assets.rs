//! Asset / material port for Pine processes.
//!
//! A Pine process attaches assets: code segments, mapped files, shared
//! libraries, loaded blobs.  The port abstracts the concrete storage
//! backend so the process loader and the syscall handler stay
//! engine-agnostic.

use std::cell::RefCell;
use vstd::prelude::*;

use crate::cells::{call_entry, new_log, record_call};

verus! {

/// Identifier for an asset within a process.  Stable across the lifetime
/// of the process and unique within the asset registry.
#[derive(Debug, PartialEq, Eq, Hash)]
pub struct AssetId(pub String);

impl Clone for AssetId {
    fn clone(&self) -> (r: Self)
        ensures
            r.0@ == self.0@,
    {
        AssetId(self.0.clone())
    }
}

impl AssetId {
    /// Creates a new id from a string slice.  The slice must not be empty.
    pub fn new(s: &str) -> (r: Self)
        ensures
            r.0@ == s@,
    {
        AssetId(s.to_owned())
    }

    /// The id as text.
    pub fn to_string(&self) -> (r: String)
        ensures
            r@ == self.0@,
    {
        self.0.clone()
    }
}

/// Inert, content-addressed description of an asset.
#[derive(Debug, PartialEq, Eq)]
pub struct AssetDescriptor {
    /// Stable id within the registry.
    pub id: AssetId,
    /// Human-readable name (e.g. `"libc.so"`).
    pub name: String,
    /// Size in bytes.
    pub size: u64,
    /// Logical kind (e.g. `"exec"`, `"lib"`, `"data"`).
    pub kind: String,
}

/// What an asset descriptor says, as plain values.
pub ghost struct AssetDescriptorView {
    pub id: Seq<char>,
    pub name: Seq<char>,
    pub size: u64,
    pub kind: Seq<char>,
}

impl View for AssetDescriptor {
    type V = AssetDescriptorView;

    open spec fn view(&self) -> AssetDescriptorView {
        AssetDescriptorView { id: self.id.0@, name: self.name@, size: self.size, kind: self.kind@ }
    }
}

impl Clone for AssetDescriptor {
    fn clone(&self) -> (r: Self)
        ensures
            r@ == self@,
    {
        AssetDescriptor {
            id: self.id.clone(),
            name: self.name.clone(),
            size: self.size,
            kind: self.kind.clone(),
        }
    }
}

/// Port-level errors raised by the asset registry and its adapters.
#[derive(Debug)]
pub enum AssetError {
    /// The registry already contains an asset with this id.
    AlreadyRegistered(AssetId),
    /// The requested id is not present in the registry.
    NotFound(AssetId),
    /// Underlying storage backend failed (network, file, mmap, ...).
    Storage(String),
}

/// Hexagonal port: registry of process assets.
///
/// Domain code depends on this trait; the concrete adapter is injected.
pub trait AssetRegistry {
    /// Registers a descriptor.  If an entry with the same id already
    /// exists, returns [`AssetError::AlreadyRegistered`].
    fn register(&mut self, asset: AssetDescriptor) -> Result<(), AssetError>;

    /// Looks up a descriptor by id.
    fn get(&self, id: &AssetId) -> Result<&AssetDescriptor, AssetError>;

    /// Returns all registered descriptors, in insertion order.
    fn list(&self) -> Vec<&AssetDescriptor>;

    /// Removes a descriptor by id.  Returns `true` if it was present.
    fn unregister(&mut self, id: &AssetId) -> bool;
}

/// The descriptors of `s`, as plain values.
pub open spec fn descriptor_views(s: Seq<AssetDescriptor>) -> Seq<AssetDescriptorView> {
    s.map_values(|d: AssetDescriptor| d@)
}

/// Some descriptor of `s` has id `id`.
pub open spec fn has_id(s: Seq<AssetDescriptorView>, id: Seq<char>) -> bool {
    exists|i: int| 0 <= i < s.len() && s[i].id == id
}

/// `i` is the first position of `s` whose descriptor has id `id`.
pub open spec fn is_first_with_id(s: Seq<AssetDescriptorView>, id: Seq<char>, i: int) -> bool {
    &&& 0 <= i < s.len()
    &&& s[i].id == id
    &&& forall|j: int| 0 <= j < i ==> s[j].id != id
}

/// The first position of `s` whose descriptor has id `id`, if any.
pub open spec fn position_of_id(s: Seq<AssetDescriptorView>, id: Seq<char>) -> Option<int> {
    if has_id(s, id) {
        Some(choose|i: int| is_first_with_id(s, id, i))
    } else {
        None
    }
}

/// No two descriptors of `s` share an id.
pub open spec fn ids_unique(s: Seq<AssetDescriptorView>) -> bool {
    forall|i: int, j: int| 0 <= i < j < s.len() ==> s[i].id != s[j].id
}

/// The registry after registering `asset`: unchanged when its id is
/// already present, else with `asset` appended.
pub open spec fn registered(s: Seq<AssetDescriptorView>, asset: AssetDescriptorView) -> Seq<
    AssetDescriptorView,
> {
    if has_id(s, asset.id) {
        s
    } else {
        s.push(asset)
    }
}

/// The registry after unregistering `id`: the first descriptor with that id
/// is removed, the others keep their order.
pub open spec fn unregistered(s: Seq<AssetDescriptorView>, id: Seq<char>) -> Seq<
    AssetDescriptorView,
> {
    match position_of_id(s, id) {
        Some(i) => s.remove(i),
        None => s,
    }
}

/// When some descriptor has id `id`, there is a first one.
pub proof fn lemma_first_position_exists(s: Seq<AssetDescriptorView>, id: Seq<char>)
    requires
        has_id(s, id),
    ensures
        exists|i: int| is_first_with_id(s, id, i),
    decreases s.len(),
{
    let t = s.drop_last();
    if has_id(t, id) {
        lemma_first_position_exists(t, id);
        let i = choose|i: int| is_first_with_id(t, id, i);
        assert forall|j: int| 0 <= j < i implies s[j].id != id by {
            assert(s[j] == t[j]);
        }
        assert(s[i] == t[i]);
        assert(is_first_with_id(s, id, i));
    } else {
        let k = choose|k: int| 0 <= k < s.len() && s[k].id == id;
        if k < s.len() - 1 {
            assert(t[k] == s[k]);
        }
        assert forall|j: int| 0 <= j < s.len() - 1 implies s[j].id != id by {
            assert(s[j] == t[j]);
        }
        assert(is_first_with_id(s, id, s.len() - 1));
    }
}

/// When `i` is a first position with `id`, it is the one that
/// `position_of_id` picks.
pub proof fn lemma_first_position_is_unique(s: Seq<AssetDescriptorView>, id: Seq<char>, i: int)
    requires
        is_first_with_id(s, id, i),
    ensures
        position_of_id(s, id) == Some(i),
{
    assert(has_id(s, id));
    let k = choose|k: int| is_first_with_id(s, id, k);
    assert(is_first_with_id(s, id, k));
    if k < i {
        assert(s[k].id != id);
    } else if i < k {
        assert(s[i].id != id);
    }
}

/// The first position of `entries` whose descriptor has the id `id`.
fn find_asset(entries: &Vec<AssetDescriptor>, id: &AssetId) -> (r: Option<usize>)
    ensures
        r is None <==> position_of_id(descriptor_views(entries@), id.0@) is None,
        r matches Some(i) ==> position_of_id(descriptor_views(entries@), id.0@) == Some(i as int)
            && i < entries@.len(),
{
    let ghost s = descriptor_views(entries@);
    let mut i: usize = 0;
    while i < entries.len()
        invariant
            0 <= i <= entries@.len(),
            s == descriptor_views(entries@),
            forall|j: int| 0 <= j < i ==> s[j].id != id.0@,
        decreases entries@.len() - i,
    {
        if entries[i].id.0 == id.0 {
            proof {
                lemma_first_position_is_unique(s, id.0@, i as int);
            }
            return Some(i);
        }
        i += 1;
    }
    assert(!has_id(s, id.0@));
    None
}

/// The registry that results from registering `asset` keeps ids unique.
pub proof fn lemma_register_keeps_ids_unique(
    s: Seq<AssetDescriptorView>,
    asset: AssetDescriptorView,
)
    requires
        ids_unique(s),
    ensures
        ids_unique(registered(s, asset)),
{
}

/// Removing an asset keeps ids unique, and when ids were unique the id is
/// then gone from the registry.
pub proof fn lemma_unregister_removes_id(s: Seq<AssetDescriptorView>, id: Seq<char>)
    requires
        ids_unique(s),
    ensures
        ids_unique(unregistered(s, id)),
        !has_id(unregistered(s, id), id),
{
    if let Some(i) = position_of_id(s, id) {
        lemma_first_position_exists(s, id);
        let k = choose|k: int| is_first_with_id(s, id, k);
        assert(is_first_with_id(s, id, k));
        let t = s.remove(i);
        assert forall|a: int, b: int| 0 <= a < b < t.len() implies t[a].id != t[b].id by {
            if a < i {
                if b < i {
                } else {
                    assert(t[b] == s[b + 1]);
                }
            } else {
                assert(t[a] == s[a + 1]);
                assert(t[b] == s[b + 1]);
            }
        }
        if has_id(t, id) {
            let j = choose|j: int| 0 <= j < t.len() && t[j].id == id;
            if j < i {
                assert(s[j].id == id);
            } else {
                assert(s[j + 1].id == id);
            }
        }
    }
}

/// Registering an asset whose id is new makes it the one found under that id.
pub proof fn lemma_get_after_register(s: Seq<AssetDescriptorView>, asset: AssetDescriptorView)
    requires
        !has_id(s, asset.id),
    ensures
        position_of_id(registered(s, asset), asset.id) == Some(s.len() as int),
        registered(s, asset)[s.len() as int] == asset,
{
    let t = registered(s, asset);
    assert(t == s.push(asset));
    assert(is_first_with_id(t, asset.id, s.len() as int));
    lemma_first_position_is_unique(t, asset.id, s.len() as int);
}

/// Default in-memory adapter.  Used by the process loader, by tests, and
/// as the canonical null-adapter when no engine asset system is wired in.
///
/// Descriptors are kept in insertion order.
pub struct InMemoryAssetRegistry {
    entries: Vec<AssetDescriptor>,
}

impl View for InMemoryAssetRegistry {
    type V = Seq<AssetDescriptorView>;

    closed spec fn view(&self) -> Seq<AssetDescriptorView> {
        descriptor_views(self.entries@)
    }
}

impl InMemoryAssetRegistry {
    /// No two registered descriptors share an id.
    #[verifier::type_invariant]
    spec fn ids_are_unique(self) -> bool {
        ids_unique(descriptor_views(self.entries@))
    }

    /// Creates an empty registry.
    pub fn new() -> (r: Self)
        ensures
            r@ == Seq::<AssetDescriptorView>::empty(),
    {
        let r = Self { entries: Vec::new() };
        assert(r@ =~= Seq::<AssetDescriptorView>::empty());
        r
    }
}

impl Default for InMemoryAssetRegistry {
    fn default() -> (r: Self)
        ensures
            r@ == Seq::<AssetDescriptorView>::empty(),
    {
        Self::new()
    }
}

impl AssetRegistry for InMemoryAssetRegistry {
    /// Appends `asset` unless its id is already registered, in which case
    /// the registry is unchanged and the error carries that id.
    fn register(&mut self, asset: AssetDescriptor) -> (r: Result<(), AssetError>)
        ensures
            final(self)@ == registered(old(self)@, asset@),
            has_id(old(self)@, asset.id.0@) <==> r is Err,
            r matches Err(e) ==> e == AssetError::AlreadyRegistered(asset.id),
            ids_unique(final(self)@),
    {
        proof {
            use_type_invariant(&*self);
            lemma_register_keeps_ids_unique(self@, asset@);
        }
        match find_asset(&self.entries, &asset.id) {
            Some(_) => Err(AssetError::AlreadyRegistered(asset.id)),
            None => {
                let ghost a = asset@;
                let mut entries: Vec<AssetDescriptor> = Vec::new();
                std::mem::swap(&mut entries, &mut self.entries);
                entries.push(asset);
                assert(descriptor_views(entries@) =~= old(self)@.push(a));
                self.entries = entries;
                Ok(())
            },
        }
    }

    /// The first descriptor registered under `id`, or `NotFound(id)`.
    fn get(&self, id: &AssetId) -> (r: Result<&AssetDescriptor, AssetError>)
        ensures
            r is Ok <==> has_id(self@, id.0@),
            r matches Ok(d) ==> d@ == self@[position_of_id(self@, id.0@)->0],
            r matches Err(e) ==> (e matches AssetError::NotFound(missing) && missing.0@ == id.0@),
            ids_unique(self@),
    {
        proof {
            use_type_invariant(self);
        }
        match find_asset(&self.entries, id) {
            Some(i) => Ok(&self.entries[i]),
            None => Err(AssetError::NotFound(id.clone())),
        }
    }

    /// Every registered descriptor, in insertion order.
    fn list(&self) -> (r: Vec<&AssetDescriptor>)
        ensures
            r@.map_values(|d: &AssetDescriptor| d@) == self@,
    {
        let mut out: Vec<&AssetDescriptor> = Vec::new();
        let mut i: usize = 0;
        while i < self.entries.len()
            invariant
                0 <= i <= self.entries@.len(),
                out@.len() == i,
                forall|j: int| 0 <= j < i ==> *out@[j] == self.entries@[j],
            decreases self.entries@.len() - i,
        {
            out.push(&self.entries[i]);
            i += 1;
        }
        assert(out@.map_values(|d: &AssetDescriptor| d@) =~= self@);
        out
    }

    /// Removes the first descriptor registered under `id`; `true` when there
    /// was one.
    fn unregister(&mut self, id: &AssetId) -> (r: bool)
        ensures
            r == has_id(old(self)@, id.0@),
            final(self)@ == unregistered(old(self)@, id.0@),
            ids_unique(final(self)@),
            !has_id(final(self)@, id.0@),
    {
        proof {
            use_type_invariant(&*self);
            lemma_unregister_removes_id(self@, id.0@);
        }
        match find_asset(&self.entries, id) {
            Some(i) => {
                let ghost before = self@;
                let mut entries: Vec<AssetDescriptor> = Vec::new();
                std::mem::swap(&mut entries, &mut self.entries);
                entries.remove(i);
                assert(descriptor_views(entries@) =~= before.remove(i as int));
                self.entries = entries;
                true
            },
            None => false,
        }
    }
}

/// Recording mock for domain tests.  Each operation is appended to
/// `calls` so a test can assert on the interaction order.
pub struct RecordingAssetRegistry {
    inner: InMemoryAssetRegistry,
    /// Sequence of operation signatures invoked on this mock.
    pub calls: RefCell<Vec<String>>,
}

impl View for RecordingAssetRegistry {
    type V = Seq<AssetDescriptorView>;

    closed spec fn view(&self) -> Seq<AssetDescriptorView> {
        self.inner@
    }
}

impl RecordingAssetRegistry {
    /// Creates an empty recording registry.
    pub fn new() -> (r: Self)
        ensures
            r@ == Seq::<AssetDescriptorView>::empty(),
    {
        Self { inner: InMemoryAssetRegistry::new(), calls: new_log(Vec::new()) }
    }
}

impl Default for RecordingAssetRegistry {
    fn default() -> (r: Self)
        ensures
            r@ == Seq::<AssetDescriptorView>::empty(),
    {
        Self::new()
    }
}

impl AssetRegistry for RecordingAssetRegistry {
    /// Logs `register(<id>)`, then registers as the in-memory adapter does.
    fn register(&mut self, asset: AssetDescriptor) -> (r: Result<(), AssetError>)
        ensures
            final(self)@ == registered(old(self)@, asset@),
            has_id(old(self)@, asset.id.0@) <==> r is Err,
            r matches Err(e) ==> e == AssetError::AlreadyRegistered(asset.id),
            ids_unique(final(self)@),
    {
        record_call(&self.calls, call_entry("register", asset.id.0.as_str()));
        self.inner.register(asset)
    }

    /// Logs `get(<id>)`, then looks up as the in-memory adapter does.
    fn get(&self, id: &AssetId) -> (r: Result<&AssetDescriptor, AssetError>)
        ensures
            r is Ok <==> has_id(self@, id.0@),
            r matches Ok(d) ==> d@ == self@[position_of_id(self@, id.0@)->0],
            r matches Err(e) ==> (e matches AssetError::NotFound(missing) && missing.0@ == id.0@),
            ids_unique(self@),
    {
        record_call(&self.calls, call_entry("get", id.0.as_str()));
        self.inner.get(id)
    }

    /// Logs `list`, then lists as the in-memory adapter does.
    fn list(&self) -> (r: Vec<&AssetDescriptor>)
        ensures
            r@.map_values(|d: &AssetDescriptor| d@) == self@,
    {
        record_call(&self.calls, String::from_str("list"));
        self.inner.list()
    }

    /// Logs `unregister(<id>)`, then removes as the in-memory adapter does.
    fn unregister(&mut self, id: &AssetId) -> (r: bool)
        ensures
            r == has_id(old(self)@, id.0@),
            final(self)@ == unregistered(old(self)@, id.0@),
            ids_unique(final(self)@),
            !has_id(final(self)@, id.0@),
    {
        record_call(&self.calls, call_entry("unregister", id.0.as_str()));
        self.inner.unregister(id)
    }
}

} // verus!
