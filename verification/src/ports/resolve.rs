//! Symbol resolution port for Pine processes.
//!
//! A Pine process links against many modules (the executable itself,
//! `kernel32.dll`, `ntdll.dll`, user DLLs).  Each module exports a set
//! of named symbols bound to virtual addresses.  The port abstracts the
//! concrete symbol backend so the dynamic linker and the syscall handler
//! stay engine-agnostic.

use std::cell::RefCell;
use std::io;
use vstd::prelude::*;

use crate::cells::{call_entry, new_log, record_call};

verus! {

#[verifier::external_type_specification]
#[verifier::external_body]
pub struct ExIoError(io::Error);

/// A resolved symbol: a name bound to a virtual address inside a module.
#[derive(Debug, PartialEq, Eq)]
pub struct Symbol {
    /// Exported symbol name (e.g. `"CreateFileW"`).
    pub name: String,
    /// Owning module name (e.g. `"kernel32.dll"`).
    pub module: String,
    /// Virtual address of the symbol within the module.
    pub address: u64,
}

/// What a symbol says, as plain values.
pub ghost struct SymbolView {
    pub name: Seq<char>,
    pub module: Seq<char>,
    pub address: u64,
}

impl View for Symbol {
    type V = SymbolView;

    open spec fn view(&self) -> SymbolView {
        SymbolView { name: self.name@, module: self.module@, address: self.address }
    }
}

impl Clone for Symbol {
    fn clone(&self) -> (r: Self)
        ensures
            r@ == self@,
    {
        Symbol { name: self.name.clone(), module: self.module.clone(), address: self.address }
    }
}

/// Port-level errors raised by symbol resolution and its adapters.
#[derive(Debug)]
pub enum ResolveError {
    /// The symbol name is not exported by any module.
    NotFound(String),
    /// The symbol name resolves to more than one address.
    Ambiguous {
        /// The ambiguous symbol name.
        name: String,
        /// Number of candidate modules that export the name.
        matches: usize,
    },
    /// Underlying backend failed (PE export walk, network symbol server, ...).
    Io(io::Error),
}

impl From<io::Error> for ResolveError {
    fn from(e: io::Error) -> (r: Self)
        ensures
            r == ResolveError::Io(e),
    {
        ResolveError::Io(e)
    }
}

impl vstd::std_specs::convert::FromSpecImpl<io::Error> for ResolveError {
    open spec fn obeys_from_spec() -> bool {
        true
    }

    open spec fn from_spec(v: io::Error) -> ResolveError {
        ResolveError::Io(v)
    }
}

/// Hexagonal port: resolve a symbol name to a virtual address.
///
/// Domain code depends on this trait; the concrete adapter is injected.
pub trait SymbolResolver {
    /// Resolves `name` across all loaded modules.
    ///
    /// Returns [`ResolveError::Ambiguous`] if more than one module exports
    /// the same name.  Use [`resolve_in_module`](Self::resolve_in_module)
    /// to disambiguate.
    fn resolve(&self, name: &str) -> Result<Symbol, ResolveError>;

    /// Resolves `name` within a specific `module`.
    fn resolve_in_module(&self, name: &str, module: &str) -> Result<Symbol, ResolveError>;

    /// Returns all symbols exported by `module`, in insertion order.
    fn list_module(&self, module: &str) -> Vec<&Symbol>;
}

/// The symbols of `s`, as plain values.
pub open spec fn symbol_views(s: Seq<Symbol>) -> Seq<SymbolView> {
    s.map_values(|x: Symbol| x@)
}

/// The symbols of `s` named `name`, in order.
pub open spec fn with_name(s: Seq<SymbolView>, name: Seq<char>) -> Seq<SymbolView>
    decreases s.len(),
{
    if s.len() == 0 {
        Seq::empty()
    } else if s.last().name == name {
        with_name(s.drop_last(), name).push(s.last())
    } else {
        with_name(s.drop_last(), name)
    }
}

/// The symbols of `s` owned by `module`, in order.
pub open spec fn in_module(s: Seq<SymbolView>, module: Seq<char>) -> Seq<SymbolView>
    decreases s.len(),
{
    if s.len() == 0 {
        Seq::empty()
    } else if s.last().module == module {
        in_module(s.drop_last(), module).push(s.last())
    } else {
        in_module(s.drop_last(), module)
    }
}

/// `i` is the first position of `s` holding the key `(name, module)`.
pub open spec fn is_first_with_key(
    s: Seq<SymbolView>,
    name: Seq<char>,
    module: Seq<char>,
    i: int,
) -> bool {
    &&& 0 <= i < s.len()
    &&& s[i].name == name && s[i].module == module
    &&& forall|j: int| 0 <= j < i ==> !(s[j].name == name && s[j].module == module)
}

/// Some symbol of `s` has the key `(name, module)`.
pub open spec fn has_key(s: Seq<SymbolView>, name: Seq<char>, module: Seq<char>) -> bool {
    exists|i: int| 0 <= i < s.len() && s[i].name == name && s[i].module == module
}

/// The first position of `s` holding the key `(name, module)`, if any.
pub open spec fn position_of_key(s: Seq<SymbolView>, name: Seq<char>, module: Seq<char>) -> Option<
    int,
> {
    if has_key(s, name, module) {
        Some(choose|i: int| is_first_with_key(s, name, module, i))
    } else {
        None
    }
}

/// The table after inserting `sym`: it replaces the symbol with the same
/// name and module in place, or is appended when there is none.
pub open spec fn inserted(s: Seq<SymbolView>, sym: SymbolView) -> Seq<SymbolView> {
    match position_of_key(s, sym.name, sym.module) {
        Some(i) => s.update(i, sym),
        None => s.push(sym),
    }
}

/// No two symbols of `s` share both name and module.
pub open spec fn keys_unique(s: Seq<SymbolView>) -> bool {
    forall|i: int, j: int|
        0 <= i < j < s.len() ==> !(s[i].name == s[j].name && s[i].module == s[j].module)
}

/// When `i` is a first position with the key, it is the one that
/// `position_of_key` picks.
pub proof fn lemma_first_key_position_is_unique(
    s: Seq<SymbolView>,
    name: Seq<char>,
    module: Seq<char>,
    i: int,
)
    requires
        is_first_with_key(s, name, module, i),
    ensures
        position_of_key(s, name, module) == Some(i),
{
    assert(has_key(s, name, module));
    let k = choose|k: int| is_first_with_key(s, name, module, k);
    assert(is_first_with_key(s, name, module, k));
    if k < i {
        assert(!(s[k].name == name && s[k].module == module));
    } else if i < k {
        assert(!(s[i].name == name && s[i].module == module));
    }
}

/// Inserting keeps the keys unique: the table never holds two symbols
/// with the same name in the same module.
pub proof fn lemma_insert_keeps_keys_unique(s: Seq<SymbolView>, sym: SymbolView)
    requires
        keys_unique(s),
    ensures
        keys_unique(inserted(s, sym)),
{
    if has_key(s, sym.name, sym.module) {
        let i = choose|i: int| is_first_with_key(s, sym.name, sym.module, i);
        if !is_first_with_key(s, sym.name, sym.module, i) {
            let k = choose|k: int|
                0 <= k < s.len() && s[k].name == sym.name && s[k].module == sym.module;
            assert(is_first_with_key(s, sym.name, sym.module, k));
        }
        let t = s.update(i, sym);
        assert forall|a: int, b: int| 0 <= a < b < t.len() implies !(t[a].name == t[b].name
            && t[a].module == t[b].module) by {
            if a == i {
                assert(t[b] == s[b]);
            } else if b == i {
                assert(t[a] == s[a]);
            } else {
                assert(t[a] == s[a] && t[b] == s[b]);
            }
        }
    }
}

/// Inserting a symbol makes it the one found under its `(name, module)`
/// key.
pub proof fn lemma_resolve_after_insert(s: Seq<SymbolView>, sym: SymbolView)
    requires
        keys_unique(s),
    ensures
        position_of_key(inserted(s, sym), sym.name, sym.module) matches Some(i) && inserted(s, sym)[i]
            == sym,
{
    let t = inserted(s, sym);
    if has_key(s, sym.name, sym.module) {
        let i = choose|i: int| is_first_with_key(s, sym.name, sym.module, i);
        if !is_first_with_key(s, sym.name, sym.module, i) {
            let k = choose|k: int|
                0 <= k < s.len() && s[k].name == sym.name && s[k].module == sym.module;
            assert(is_first_with_key(s, sym.name, sym.module, k));
        }
        assert(t == s.update(i, sym));
        assert forall|j: int| 0 <= j < i implies !(t[j].name == sym.name && t[j].module == sym.module) by {
            assert(t[j] == s[j]);
        }
        assert(is_first_with_key(t, sym.name, sym.module, i));
        lemma_first_key_position_is_unique(t, sym.name, sym.module, i);
    } else {
        assert(t == s.push(sym));
        assert(is_first_with_key(t, sym.name, sym.module, s.len() as int));
        lemma_first_key_position_is_unique(t, sym.name, sym.module, s.len() as int);
    }
}

/// Symbols in table order; each `(name, module)` pair occurs once.
pub struct InMemorySymbolResolver {
    symbols: Vec<Symbol>,
}

impl View for InMemorySymbolResolver {
    type V = Seq<SymbolView>;

    closed spec fn view(&self) -> Seq<SymbolView> {
        symbol_views(self.symbols@)
    }
}

/// The first position of `symbols` holding the key `(name, module)`.
fn find_key(symbols: &Vec<Symbol>, name: &String, module: &String) -> (r: Option<usize>)
    ensures
        r is None <==> position_of_key(symbol_views(symbols@), name@, module@) is None,
        r matches Some(i) ==> position_of_key(symbol_views(symbols@), name@, module@) == Some(
            i as int,
        ) && i < symbols@.len(),
{
    let ghost s = symbol_views(symbols@);
    let mut i: usize = 0;
    while i < symbols.len()
        invariant
            0 <= i <= symbols@.len(),
            s == symbol_views(symbols@),
            forall|j: int| 0 <= j < i ==> !(s[j].name == name@ && s[j].module == module@),
        decreases symbols@.len() - i,
    {
        if symbols[i].name == *name && symbols[i].module == *module {
            proof {
                lemma_first_key_position_is_unique(s, name@, module@, i as int);
            }
            return Some(i);
        }
        i += 1;
    }
    None
}

/// The symbols of `symbols` named `name`, in order.
fn collect_named<'a>(symbols: &'a Vec<Symbol>, name: &String) -> (r: Vec<&'a Symbol>)
    ensures
        r@.map_values(|x: &Symbol| x@) == with_name(symbol_views(symbols@), name@),
{
    let ghost s = symbol_views(symbols@);
    let mut hits: Vec<&Symbol> = Vec::new();
    let mut i: usize = 0;
    while i < symbols.len()
        invariant
            0 <= i <= symbols@.len(),
            s == symbol_views(symbols@),
            hits@.map_values(|x: &Symbol| x@) == with_name(s.take(i as int), name@),
        decreases symbols@.len() - i,
    {
        assert(s.take(i + 1).drop_last() =~= s.take(i as int));
        if symbols[i].name == *name {
            hits.push(&symbols[i]);
        }
        assert(hits@.map_values(|x: &Symbol| x@) =~= with_name(s.take(i + 1), name@));
        i += 1;
    }
    assert(s.take(symbols@.len() as int) =~= s);
    hits
}

/// The symbols of `symbols` owned by `module`, in order.
fn collect_module<'a>(symbols: &'a Vec<Symbol>, module: &String) -> (r: Vec<&'a Symbol>)
    ensures
        r@.map_values(|x: &Symbol| x@) == in_module(symbol_views(symbols@), module@),
{
    let ghost s = symbol_views(symbols@);
    let mut hits: Vec<&Symbol> = Vec::new();
    let mut i: usize = 0;
    while i < symbols.len()
        invariant
            0 <= i <= symbols@.len(),
            s == symbol_views(symbols@),
            hits@.map_values(|x: &Symbol| x@) == in_module(s.take(i as int), module@),
        decreases symbols@.len() - i,
    {
        assert(s.take(i + 1).drop_last() =~= s.take(i as int));
        if symbols[i].module == *module {
            hits.push(&symbols[i]);
        }
        assert(hits@.map_values(|x: &Symbol| x@) =~= in_module(s.take(i + 1), module@));
        i += 1;
    }
    assert(s.take(symbols@.len() as int) =~= s);
    hits
}

/// The outcome of resolving `name` across a table whose symbols of that
/// name are `hits`: none is `NotFound(name)`, exactly one is that symbol,
/// more are `Ambiguous` with their count.
pub open spec fn resolves_to(
    r: Result<Symbol, ResolveError>,
    hits: Seq<SymbolView>,
    name: Seq<char>,
) -> bool {
    if hits.len() == 0 {
        r matches Err(ResolveError::NotFound(n)) && n@ == name
    } else if hits.len() == 1 {
        r matches Ok(sym) && sym@ == hits[0]
    } else {
        r matches Err(ResolveError::Ambiguous { name: n, matches }) && n@ == name && matches
            == hits.len()
    }
}

/// The outcome of resolving `(name, module)`: the symbol at the key's
/// position, or `NotFound(name)`.
pub open spec fn resolves_in_module_to(
    r: Result<Symbol, ResolveError>,
    s: Seq<SymbolView>,
    name: Seq<char>,
    module: Seq<char>,
) -> bool {
    match position_of_key(s, name, module) {
        Some(i) => r matches Ok(sym) && sym@ == s[i],
        None => r matches Err(ResolveError::NotFound(n)) && n@ == name,
    }
}

/// Resolution over a table: counts the symbols named `name`.
fn resolve_in(symbols: &Vec<Symbol>, name: &str) -> (r: Result<Symbol, ResolveError>)
    ensures
        resolves_to(r, with_name(symbol_views(symbols@), name@), name@),
{
    let key = name.to_owned();
    let hits = collect_named(symbols, &key);
    let ghost h = with_name(symbol_views(symbols@), name@);
    assert(hits@.len() == h.len());
    if hits.len() == 0 {
        Err(ResolveError::NotFound(key))
    } else if hits.len() == 1 {
        assert(hits@[0]@ == h[0]);
        Ok(hits[0].clone())
    } else {
        Err(ResolveError::Ambiguous { name: key, matches: hits.len() })
    }
}

/// Resolution of a `(name, module)` key over a table.
fn resolve_key_in(symbols: &Vec<Symbol>, name: &str, module: &str) -> (r: Result<
    Symbol,
    ResolveError,
>)
    ensures
        resolves_in_module_to(r, symbol_views(symbols@), name@, module@),
{
    let key_name = name.to_owned();
    let key_module = module.to_owned();
    match find_key(symbols, &key_name, &key_module) {
        Some(i) => Ok(symbols[i].clone()),
        None => Err(ResolveError::NotFound(key_name)),
    }
}

impl InMemorySymbolResolver {
    /// No two symbols share both name and module.
    #[verifier::type_invariant]
    spec fn keys_are_unique(self) -> bool {
        keys_unique(symbol_views(self.symbols@))
    }

    /// Creates an empty resolver.
    pub fn new() -> (r: Self)
        ensures
            r@ == Seq::<SymbolView>::empty(),
    {
        let r = Self { symbols: Vec::new() };
        assert(r@ =~= Seq::<SymbolView>::empty());
        r
    }

    /// Registers `symbol`.  If a symbol with the same `(name, module)` pair
    /// already exists, it is replaced in place.
    pub fn insert(&mut self, symbol: Symbol)
        ensures
            final(self)@ == inserted(old(self)@, symbol@),
            keys_unique(final(self)@),
    {
        proof {
            use_type_invariant(&*self);
            lemma_insert_keeps_keys_unique(self@, symbol@);
        }
        let ghost before = self@;
        let ghost sym = symbol@;
        let mut symbols: Vec<Symbol> = Vec::new();
        std::mem::swap(&mut symbols, &mut self.symbols);
        match find_key(&symbols, &symbol.name, &symbol.module) {
            Some(i) => {
                symbols.set(i, symbol);
                assert(symbol_views(symbols@) =~= before.update(i as int, sym));
            },
            None => {
                symbols.push(symbol);
                assert(symbol_views(symbols@) =~= before.push(sym));
            },
        }
        self.symbols = symbols;
    }
}

impl Default for InMemorySymbolResolver {
    fn default() -> (r: Self)
        ensures
            r@ == Seq::<SymbolView>::empty(),
    {
        Self::new()
    }
}

impl SymbolResolver for InMemorySymbolResolver {
    /// Resolves `name` by counting the symbols of that name.
    fn resolve(&self, name: &str) -> (r: Result<Symbol, ResolveError>)
        ensures
            resolves_to(r, with_name(self@, name@), name@),
    {
        resolve_in(&self.symbols, name)
    }

    /// The symbol stored under `(name, module)`, or `NotFound(name)`.
    fn resolve_in_module(&self, name: &str, module: &str) -> (r: Result<Symbol, ResolveError>)
        ensures
            resolves_in_module_to(r, self@, name@, module@),
            keys_unique(self@),
    {
        proof {
            use_type_invariant(self);
        }
        resolve_key_in(&self.symbols, name, module)
    }

    /// The symbols of `module`, in insertion order.
    fn list_module(&self, module: &str) -> (r: Vec<&Symbol>)
        ensures
            r@.map_values(|x: &Symbol| x@) == in_module(self@, module@),
    {
        let key = module.to_owned();
        collect_module(&self.symbols, &key)
    }
}

/// Recording mock for domain tests.  Each call is appended to `calls` so a
/// test can assert on the interaction order.
pub struct MockSymbolResolver {
    canned: InMemorySymbolResolver,
    /// Sequence of operation signatures invoked on this mock.
    pub calls: RefCell<Vec<String>>,
}

impl View for MockSymbolResolver {
    type V = Seq<SymbolView>;

    closed spec fn view(&self) -> Seq<SymbolView> {
        self.canned@
    }
}

impl MockSymbolResolver {
    /// Creates an empty recording mock.
    pub fn new() -> (r: Self)
        ensures
            r@ == Seq::<SymbolView>::empty(),
    {
        Self { canned: InMemorySymbolResolver::new(), calls: new_log(Vec::new()) }
    }

    /// Stages a canned response for `(name, module)`, replacing an earlier
    /// one for the same pair.
    pub fn stage(&mut self, symbol: Symbol)
        ensures
            final(self)@ == inserted(old(self)@, symbol@),
            keys_unique(final(self)@),
    {
        self.canned.insert(symbol);
    }
}

impl Default for MockSymbolResolver {
    fn default() -> (r: Self)
        ensures
            r@ == Seq::<SymbolView>::empty(),
    {
        Self::new()
    }
}

impl SymbolResolver for MockSymbolResolver {
    /// Logs `resolve(<name>)`, then resolves among the staged symbols.
    fn resolve(&self, name: &str) -> (r: Result<Symbol, ResolveError>)
        ensures
            resolves_to(r, with_name(self@, name@), name@),
    {
        record_call(&self.calls, call_entry("resolve", name));
        self.canned.resolve(name)
    }

    /// Logs `resolve_in_module(<name>, <module>)`, then looks the pair up.
    fn resolve_in_module(&self, name: &str, module: &str) -> (r: Result<Symbol, ResolveError>)
        ensures
            resolves_in_module_to(r, self@, name@, module@),
            keys_unique(self@),
    {
        let mut arg = String::from_str(name);
        arg.append(", ");
        arg.append(module);
        record_call(&self.calls, call_entry("resolve_in_module", arg.as_str()));
        self.canned.resolve_in_module(name, module)
    }

    /// Logs `list_module(<module>)`, then lists the staged symbols of it.
    fn list_module(&self, module: &str) -> (r: Vec<&Symbol>)
        ensures
            r@.map_values(|x: &Symbol| x@) == in_module(self@, module@),
    {
        record_call(&self.calls, call_entry("list_module", module));
        self.canned.list_module(module)
    }
}

} // verus!
