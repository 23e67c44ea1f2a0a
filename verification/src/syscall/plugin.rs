//! Plugin architecture for OS syscall translators.
//!
//! Translators are registered as plugins with a [`PluginRegistry`], which
//! routes each translation request to the plugin that claims the syscall.
//! Plugins come either compiled in ([`PluginLoader::register_static`]) or
//! from shared libraries loaded by the application.

use std::path::PathBuf;
use vstd::prelude::*;

use crate::syscall::{SyscallError, SyscallName, SyscallResult, SyscallTranslator};

verus! {

#[verifier::external_type_specification]
#[verifier::external_body]
pub struct ExPathBuf(PathBuf);

/// `PathBuf::clone`: nothing is claimed of the copy.
pub assume_specification[ <PathBuf as Clone>::clone ](path: &PathBuf) -> PathBuf;

/// A plugin that translates OS syscalls.
///
/// Each plugin advertises the syscalls it supports; the registry routes
/// translation requests by that list.  Implementations must be
/// `Send + Sync` so that a registry can be shared across threads.
pub trait SyscallTranslatorPlugin: Send + Sync {
    /// Human-readable plugin name.
    fn name(&self) -> &str;

    /// Plugin version in semantic-versioning format.
    fn version(&self) -> &str;

    /// The syscalls this plugin can translate.
    fn supported_syscalls(&self) -> &[SyscallName];

    /// Attempt to translate a raw syscall number into a structured result.
    fn translate(&self, syscall_num: u64, args: [u64; 6]) -> Result<SyscallResult, SyscallError>;
}

/// A boxed plugin answers as the plugin inside it.
impl<P: SyscallTranslatorPlugin + ?Sized> SyscallTranslatorPlugin for Box<P> {
    fn name(&self) -> (r: &str)
        ensures
            call_ensures(P::name, (&**self,), r),
    {
        (**self).name()
    }

    fn version(&self) -> (r: &str)
        ensures
            call_ensures(P::version, (&**self,), r),
    {
        (**self).version()
    }

    fn supported_syscalls(&self) -> (r: &[SyscallName])
        ensures
            call_ensures(P::supported_syscalls, (&**self,), r),
    {
        (**self).supported_syscalls()
    }

    fn translate(&self, syscall_num: u64, args: [u64; 6]) -> (r: Result<SyscallResult, SyscallError>)
        ensures
            call_ensures(P::translate, (&**self, syscall_num, args), r),
    {
        (**self).translate(syscall_num, args)
    }
}

/// A borrowed plugin answers as the plugin it refers to.
impl<'a, P: SyscallTranslatorPlugin + ?Sized> SyscallTranslatorPlugin for &'a P {
    fn name(&self) -> (r: &str)
        ensures
            call_ensures(P::name, (&**self,), r),
    {
        (**self).name()
    }

    fn version(&self) -> (r: &str)
        ensures
            call_ensures(P::version, (&**self,), r),
    {
        (**self).version()
    }

    fn supported_syscalls(&self) -> (r: &[SyscallName])
        ensures
            call_ensures(P::supported_syscalls, (&**self,), r),
    {
        (**self).supported_syscalls()
    }

    fn translate(&self, syscall_num: u64, args: [u64; 6]) -> (r: Result<SyscallResult, SyscallError>)
        ensures
            call_ensures(P::translate, (&**self, syscall_num, args), r),
    {
        (**self).translate(syscall_num, args)
    }
}

/// `name` is an answer that the registered plugin `p` can give to `name()`
/// when asked through a reference to it.
pub open spec fn answers_name(p: &Box<dyn SyscallTranslatorPlugin>, name: &str) -> bool {
    let plugin: &dyn SyscallTranslatorPlugin = &**p;
    call_ensures(<&dyn SyscallTranslatorPlugin as SyscallTranslatorPlugin>::name, (&plugin,), name)
}

/// `version` is an answer that `p` can give to `version()`.
pub open spec fn answers_version(p: &Box<dyn SyscallTranslatorPlugin>, version: &str) -> bool {
    call_ensures(<Box<dyn SyscallTranslatorPlugin> as SyscallTranslatorPlugin>::version, (p,), version)
}

/// `syscalls` is an answer that `p` can give to `supported_syscalls()`.
pub open spec fn answers_claims(p: &Box<dyn SyscallTranslatorPlugin>, syscalls: &[SyscallName]) -> bool {
    call_ensures(
        <Box<dyn SyscallTranslatorPlugin> as SyscallTranslatorPlugin>::supported_syscalls,
        (p,),
        syscalls,
    )
}

/// `r` is an answer that `p` can give to `translate(syscall_num, args)`.
pub open spec fn answers_translation(
    p: &Box<dyn SyscallTranslatorPlugin>,
    syscall_num: u64,
    args: [u64; 6],
    r: Result<SyscallResult, SyscallError>,
) -> bool {
    call_ensures(
        <Box<dyn SyscallTranslatorPlugin> as SyscallTranslatorPlugin>::translate,
        (p, syscall_num, args),
        r,
    )
}

/// `p` reported `claims` as the syscalls it supports.
pub open spec fn reports_claims(p: &Box<dyn SyscallTranslatorPlugin>, claims: Seq<SyscallName>) -> bool {
    exists|syscalls: &[SyscallName]| answers_claims(p, syscalls) && syscalls@ == claims
}

/// `m` is the manifest built from what `p` answered to `name()`,
/// `version()` and `supported_syscalls()`.
pub open spec fn describes(p: &Box<dyn SyscallTranslatorPlugin>, m: PluginManifest) -> bool {
    exists|name: &str, version: &str, syscalls: &[SyscallName]|
        #[trigger] answers_name(p, name) && #[trigger] answers_version(p, version) && #[trigger] answers_claims(p, syscalls)
            && m.name@ == name@ && m.version@ == version@ && m.supported_syscalls@ == syscalls@
}

/// Metadata describing a plugin.
#[derive(Debug, Clone, PartialEq, Eq)]
pub struct PluginManifest {
    /// Plugin name.
    pub name: String,
    /// Plugin version.
    pub version: String,
    /// Syscalls supported by this plugin.
    pub supported_syscalls: Vec<SyscallName>,
}

impl PluginManifest {
    /// A manifest with the given name, version and syscalls.
    pub fn describe(name: &str, version: &str, syscalls: &[SyscallName]) -> (m: Self)
        ensures
            m.name@ == name@,
            m.version@ == version@,
            m.supported_syscalls@ == syscalls@,
    {
        PluginManifest {
            name: name.to_string(),
            version: version.to_string(),
            supported_syscalls: vstd::slice::slice_to_vec(syscalls),
        }
    }

    /// Create a manifest from what a plugin reports of itself: the answers
    /// of its `name()`, `version()` and `supported_syscalls()`.
    pub fn from_plugin(plugin: &dyn SyscallTranslatorPlugin) -> (m: Self)
        ensures
            exists|name: &str, version: &str, syscalls: &[SyscallName]|
                call_ensures(<&dyn SyscallTranslatorPlugin as SyscallTranslatorPlugin>::name, (&plugin,), name)
                && call_ensures(
                    <&dyn SyscallTranslatorPlugin as SyscallTranslatorPlugin>::version,
                    (&plugin,),
                    version,
                ) && call_ensures(
                    <&dyn SyscallTranslatorPlugin as SyscallTranslatorPlugin>::supported_syscalls,
                    (&plugin,),
                    syscalls,
                ) && m.name@ == name@ && m.version@ == version@ && m.supported_syscalls@ == syscalls@,
    {
        let name = SyscallTranslatorPlugin::name(&plugin);
        let version = SyscallTranslatorPlugin::version(&plugin);
        let syscalls = SyscallTranslatorPlugin::supported_syscalls(&plugin);
        Self::describe(name, version, syscalls)
    }
}

/// Error returned by the plugin loader.
#[derive(Debug, Clone, PartialEq, Eq)]
pub enum PluginLoaderError {
    /// The shared library could not be loaded.
    LibraryLoadFailed(String),
    /// The required symbol was not found in the library.
    SymbolNotFound(String),
    /// The plugin path does not exist or is not a file.
    InvalidPath(PathBuf),
    /// The plugin directory could not be read.
    DirectoryReadFailed(String),
}

/// The text that `Path::display` gives of `path`.
pub uninterp spec fn path_display(path: PathBuf) -> Seq<char>;

/// Calls `Path::display` and renders it: the path's text, non-UTF-8 parts
/// replaced.  Claimed: the text is a function of the path alone (named
/// `path_display`).
#[verifier::external_body]
fn display_path(path: &PathBuf) -> (s: String)
    ensures
        s@ == path_display(*path),
{
    path.display().to_string()
}

impl PluginLoaderError {
    /// The human-readable message of the error.
    pub open spec fn message(&self) -> Seq<char> {
        match self {
            PluginLoaderError::LibraryLoadFailed(msg) => "failed to load library: "@ + msg@,
            PluginLoaderError::SymbolNotFound(sym) => "symbol not found: "@ + sym@,
            PluginLoaderError::InvalidPath(path) => "invalid plugin path: "@ + path_display(*path),
            PluginLoaderError::DirectoryReadFailed(msg) => "failed to read directory: "@ + msg@,
        }
    }

    /// Render the error as text.
    pub fn to_string(&self) -> (s: String)
        ensures
            s@ == self.message(),
    {
        let (prefix, detail) = match self {
            PluginLoaderError::LibraryLoadFailed(msg) => ("failed to load library: ", msg.clone()),
            PluginLoaderError::SymbolNotFound(sym) => ("symbol not found: ", sym.clone()),
            PluginLoaderError::InvalidPath(path) => ("invalid plugin path: ", display_path(path)),
            PluginLoaderError::DirectoryReadFailed(msg) => ("failed to read directory: ", msg.clone()),
        };
        let mut s = String::from_str(prefix);
        s.append(detail.as_str());
        s
    }
}

/// A base translator that the registry may share across threads: any
/// `SyscallTranslator` that is `Send + Sync`.
pub trait SharedTranslator: Send + Sync {
    /// `b` is an answer that the underlying translator can give to
    /// `translate(syscall_num, args)`.
    spec fn shared_answers(&self, syscall_num: u64, args: [u64; 6], b: Result<SyscallResult, SyscallError>) -> bool;

    /// Translate through the underlying `SyscallTranslator`.
    fn translate_shared(&self, syscall_num: u64, args: [u64; 6]) -> (r: Result<SyscallResult, SyscallError>)
        ensures
            self.shared_answers(syscall_num, args, r),
    ;
}

/// A boxed base translator answers as the translator inside it.
impl SharedTranslator for Box<dyn SharedTranslator> {
    open spec fn shared_answers(&self, syscall_num: u64, args: [u64; 6], b: Result<SyscallResult, SyscallError>) -> bool {
        (**self).shared_answers(syscall_num, args, b)
    }

    fn translate_shared(&self, syscall_num: u64, args: [u64; 6]) -> (r: Result<SyscallResult, SyscallError>) {
        (**self).translate_shared(syscall_num, args)
    }
}

impl<T: SyscallTranslator + Send + Sync> SharedTranslator for T {
    /// What `T`'s own `translate` can give for the same request.
    open spec fn shared_answers(&self, syscall_num: u64, args: [u64; 6], b: Result<SyscallResult, SyscallError>) -> bool {
        call_ensures(T::translate, (self, syscall_num, args), b)
    }

    fn translate_shared(&self, syscall_num: u64, args: [u64; 6]) -> (r: Result<SyscallResult, SyscallError>) {
        self.translate(syscall_num, args)
    }
}

/// Among plugins whose claimed syscalls are listed in order in `claims`,
/// the position of the last one that claims `name`: a later registration
/// takes a syscall over from an earlier one.
pub open spec fn last_claimer(claims: Seq<Seq<SyscallName>>, name: SyscallName) -> Option<int>
    decreases claims.len(),
{
    if claims.len() == 0 {
        None
    } else if claims.last().contains(name) {
        Some(claims.len() - 1)
    } else {
        last_claimer(claims.drop_last(), name)
    }
}

/// The plugin position that a routing index (entries of syscall and
/// plugin position) gives for `name`: that of its last entry for `name`.
pub open spec fn index_route(index: Seq<(SyscallName, usize)>, name: SyscallName) -> Option<int>
    decreases index.len(),
{
    if index.len() == 0 {
        None
    } else if index.last().0 == name {
        Some(index.last().1 as int)
    } else {
        index_route(index.drop_last(), name)
    }
}

/// No syscall has two entries in a routing index.
pub open spec fn names_unique(index: Seq<(SyscallName, usize)>) -> bool {
    forall|i: int, j: int| 0 <= i < j < index.len() ==> index[i].0 != index[j].0
}

/// A claimer, when there is one, is a listed plugin that claims the name.
pub proof fn lemma_last_claimer_claims(claims: Seq<Seq<SyscallName>>, name: SyscallName)
    ensures
        last_claimer(claims, name) matches Some(i) ==> 0 <= i < claims.len() && claims[i].contains(name),
        last_claimer(claims, name) is None ==> forall|i: int| 0 <= i < claims.len() ==> !(#[trigger] claims[i]).contains(name),
    decreases claims.len(),
{
    if claims.len() > 0 && !claims.last().contains(name) {
        lemma_last_claimer_claims(claims.drop_last(), name);
        assert forall|i: int| 0 <= i < claims.len() - 1 implies claims.drop_last()[i] == claims[i] by {}
    }
}

/// Registering a plugin that claims `claimed` makes it the claimer of
/// each syscall in `claimed` and leaves the claimer of every other syscall
/// as it was.
pub proof fn lemma_last_registration_wins(
    claims: Seq<Seq<SyscallName>>,
    claimed: Seq<SyscallName>,
    name: SyscallName,
)
    ensures
        last_claimer(claims.push(claimed), name) == if claimed.contains(name) {
            Some(claims.len() as int)
        } else {
            last_claimer(claims, name)
        },
{
    assert(claims.push(claimed).drop_last() =~= claims);
}

/// Entries that do not name `name` leave it unrouted.
proof fn lemma_route_absent(index: Seq<(SyscallName, usize)>, name: SyscallName)
    requires
        forall|i: int| 0 <= i < index.len() ==> (#[trigger] index[i]).0 != name,
    ensures
        index_route(index, name) is None,
    decreases index.len(),
{
    if index.len() > 0 {
        lemma_route_absent(index.drop_last(), name);
    }
}

/// Overwriting the entry for `name` reroutes `name` alone.
proof fn lemma_route_update(index: Seq<(SyscallName, usize)>, p: int, name: SyscallName, to: usize, other: SyscallName)
    requires
        names_unique(index),
        0 <= p < index.len(),
        index[p].0 == name,
    ensures
        index_route(index.update(p, (name, to)), other) == if other == name {
            Some(to as int)
        } else {
            index_route(index, other)
        },
    decreases index.len(),
{
    let u = index.update(p, (name, to));
    if p < index.len() - 1 {
        assert(u.drop_last() =~= index.drop_last().update(p, (name, to)));
        lemma_route_update(index.drop_last(), p, name, to, other);
        if other == name {
            assert(u.last().0 != name);
        }
    } else {
        assert(u.drop_last() =~= index.drop_last());
        if other == name {
        } else {
            assert(index.last().0 == name);
        }
    }
}

/// Route `name` to plugin position `to` in a routing index.
fn route_to(index: &mut Vec<(SyscallName, usize)>, name: SyscallName, to: usize)
    requires
        names_unique(old(index)@),
    ensures
        names_unique(final(index)@),
        forall|n: SyscallName| #[trigger] index_route(final(index)@, n) == if n == name {
            Some(to as int)
        } else {
            index_route(old(index)@, n)
        },
{
    let mut i: usize = 0;
    while i < index.len()
        invariant
            0 <= i <= index@.len(),
            index@ == old(index)@,
            names_unique(index@),
            forall|j: int| 0 <= j < i ==> (#[trigger] index@[j]).0 != name,
        decreases index@.len() - i,
    {
        if index[i].0 == name {
            let ghost before = index@;
            index.set(i, (name, to));
            assert(index@ == before.update(i as int, (name, to)));
            assert(names_unique(index@)) by {
                assert forall|a: int, b: int| 0 <= a < b < index@.len() implies index@[a].0 != index@[b].0 by {
                    assert(before[a].0 != before[b].0);
                }
            }
            assert forall|n: SyscallName| #[trigger] index_route(index@, n) == if n == name {
                Some(to as int)
            } else {
                index_route(before, n)
            } by {
                lemma_route_update(before, i as int, name, to, n);
            }
            return;
        }
        i += 1;
    }
    let ghost before = index@;
    index.push((name, to));
    assert forall|n: SyscallName| #[trigger] index_route(index@, n) == if n == name {
        Some(to as int)
    } else {
        index_route(before, n)
    } by {
        assert(index@.drop_last() =~= before);
    }
}

/// The plugin position that a routing index gives for `name`.
fn find_route(index: &Vec<(SyscallName, usize)>, name: SyscallName) -> (r: Option<usize>)
    requires
        names_unique(index@),
    ensures
        index_route(index@, name) == match r {
            Some(i) => Some(i as int),
            None => None::<int>,
        },
{
    let mut i: usize = 0;
    while i < index.len()
        invariant
            0 <= i <= index@.len(),
            names_unique(index@),
            forall|j: int| 0 <= j < i ==> (#[trigger] index@[j]).0 != name,
        decreases index@.len() - i,
    {
        if index[i].0 == name {
            let ghost u = index@.update(i as int, (name, index@[i as int].1));
            proof {
                assert(u =~= index@);
                lemma_route_update(index@, i as int, name, index@[i as int].1, name);
            }
            return Some(index[i].1);
        }
        i += 1;
    }
    proof {
        lemma_route_absent(index@, name);
    }
    None
}

/// Where a request goes once the base translator has answered: the answer
/// stands, or the plugin at the given position translates the request.
#[derive(Debug, PartialEq, Eq)]
pub enum Routing {
    Answer(Result<SyscallResult, SyscallError>),
    Delegate(usize),
}

/// Registry that holds plugins and routes translation requests between
/// them.
///
/// Each syscall is routed to the last registered plugin that claims it.
/// With a base translator, a number is first resolved to a name by the
/// base translator; without one, the plugins are tried in order.
pub struct PluginRegistry {
    plugins: Vec<Box<dyn SyscallTranslatorPlugin>>,
    index: Vec<(SyscallName, usize)>,
    base_translator: Option<Box<dyn SharedTranslator>>,
    claims: Ghost<Seq<Seq<SyscallName>>>,
}

impl PluginRegistry {
    /// One list of claims per plugin, and the index routes each syscall to
    /// its last claimer.
    #[verifier::type_invariant]
    spec fn well_formed(self) -> bool {
        &&& self.claims@.len() == self.plugins@.len()
        &&& names_unique(self.index@)
        &&& forall|n: SyscallName| #[trigger] index_route(self.index@, n) == last_claimer(self.claims@, n)
        &&& forall|i: int| 0 <= i < self.claims@.len() ==> reports_claims(&self.plugins@[i], #[trigger] self.claims@[i])
    }

    /// The number of registered plugins.
    pub closed spec fn plugin_count(&self) -> nat {
        self.plugins@.len()
    }

    /// The syscalls that each registered plugin claimed when it was
    /// registered, in registration order.
    pub closed spec fn claims(&self) -> Seq<Seq<SyscallName>> {
        self.claims@
    }

    /// The first `k` plugins of `self` are the first `k` plugins of `other`.
    pub closed spec fn keeps_plugins_of(&self, other: &Self, k: int) -> bool {
        forall|i: int| 0 <= i < k ==> self.plugins@[i] == other.plugins@[i]
    }

    /// The plugin at position `i` reported `claims` as its supported
    /// syscalls when asked through its box.
    pub closed spec fn reports_claims_at(&self, i: int, claims: Seq<SyscallName>) -> bool {
        reports_claims(&self.plugins@[i], claims)
    }

    /// `r` is an answer that the plugin at position `i` can give to
    /// `translate(syscall_num, args)`.
    pub closed spec fn answers_translation_at(
        &self,
        i: int,
        syscall_num: u64,
        args: [u64; 6],
        r: Result<SyscallResult, SyscallError>,
    ) -> bool {
        answers_translation(&self.plugins@[i], syscall_num, args, r)
    }

    /// `name` is an answer that the plugin at position `i` can give to
    /// `name()`.
    pub closed spec fn answers_name_at(&self, i: int, name: &str) -> bool {
        answers_name(&self.plugins@[i], name)
    }

    /// `found` holds the plugin registered at position `i`.
    pub closed spec fn holds_plugin_at(&self, i: int, found: Option<&dyn SyscallTranslatorPlugin>) -> bool {
        let plugin: &dyn SyscallTranslatorPlugin = &*self.plugins@[i];
        found == Some(plugin)
    }

    /// `m` is the manifest built from what the plugin at position `i`
    /// answered to `name()`, `version()` and `supported_syscalls()`.
    pub closed spec fn describes_at(&self, i: int, m: PluginManifest) -> bool {
        describes(&self.plugins@[i], m)
    }

    /// Asking the plugins before position `k` anything gives the same
    /// answers as asking those of `other`.
    pub proof fn lemma_kept_plugins_answer_alike(&self, other: &Self, k: int)
        requires
            self.keeps_plugins_of(other, k),
        ensures
            forall|i: int, n: u64, a: [u64; 6], r: Result<SyscallResult, SyscallError>|
                0 <= i < k ==> (#[trigger] self.answers_translation_at(i, n, a, r)
                    == other.answers_translation_at(i, n, a, r)),
            forall|i: int, name: &str|
                0 <= i < k ==> (#[trigger] self.answers_name_at(i, name) == other.answers_name_at(i, name)),
            forall|i: int, m: PluginManifest|
                0 <= i < k ==> (#[trigger] self.describes_at(i, m) == other.describes_at(i, m)),
            forall|i: int, c: Seq<SyscallName>|
                0 <= i < k ==> (#[trigger] self.reports_claims_at(i, c) == other.reports_claims_at(i, c)),
    {
    }

    /// Whether a base translator is configured.
    pub closed spec fn has_base(&self) -> bool {
        self.base_translator is Some
    }

    /// The position of the plugin that `name` is routed to, if any.
    pub open spec fn route(&self, name: SyscallName) -> Option<int> {
        last_claimer(self.claims(), name)
    }

    /// `b` is an answer that the base translator can give to
    /// `translate(syscall_num, args)`; never so without a base.
    pub closed spec fn base_answers(&self, syscall_num: u64, args: [u64; 6], b: Result<SyscallResult, SyscallError>) -> bool {
        match self.base_translator {
            Some(base) => base.shared_answers(syscall_num, args, b),
            None => false,
        }
    }

    /// Where the base translator's answer `b` sends a request: its error
    /// stands; a name that some plugin claims goes to the plugin it is
    /// routed to; any other name stands as the answer.
    pub open spec fn routing_of(&self, b: Result<SyscallResult, SyscallError>) -> Routing {
        match b {
            Err(e) => Routing::Answer(Err(e)),
            Ok(res) => match self.route(res.name) {
                Some(i) => Routing::Delegate(i as usize),
                None => Routing::Answer(Ok(res)),
            },
        }
    }

    /// The plugin at position `j` answered the request with an error.
    pub open spec fn fails_at(&self, j: int, syscall_num: u64, args: [u64; 6]) -> bool {
        exists|e: SyscallError| self.answers_translation_at(j, syscall_num, args, Err(e))
    }

    /// The plugin at position `j` answered `name()` with a name other than
    /// `name`.
    pub open spec fn named_otherwise_at(&self, j: int, name: Seq<char>) -> bool {
        exists|other: &str| self.answers_name_at(j, other) && other@ != name
    }

    /// Each plugin before position `k` answered the request with an error.
    pub open spec fn all_fail_before(&self, k: int, syscall_num: u64, args: [u64; 6]) -> bool {
        forall|j: int| 0 <= j < k ==> #[trigger] self.fails_at(j, syscall_num, args)
    }

    /// Each plugin before position `k` answered `name()` with another name.
    pub open spec fn all_named_otherwise_before(&self, k: int, name: Seq<char>) -> bool {
        forall|j: int| 0 <= j < k ==> #[trigger] self.named_otherwise_at(j, name)
    }

    /// Create an empty registry with no base translator.
    pub fn new() -> (r: Self)
        ensures
            r.plugin_count() == 0,
            r.claims() == Seq::<Seq<SyscallName>>::empty(),
            !r.has_base(),
    {
        Self { plugins: Vec::new(), index: Vec::new(), base_translator: None, claims: Ghost(Seq::empty()) }
    }

    /// Create an empty registry with a base translator for number-to-name
    /// mapping.
    pub fn with_translator<T: SyscallTranslator + Send + Sync + 'static>(translator: T) -> (r: Self)
        ensures
            r.plugin_count() == 0,
            r.claims() == Seq::<Seq<SyscallName>>::empty(),
            r.has_base(),
            forall|n: u64, a: [u64; 6], b: Result<SyscallResult, SyscallError>|
                #[trigger] r.base_answers(n, a, b) <==> call_ensures(T::translate, (&translator, n, a), b),
    {
        Self {
            plugins: Vec::new(),
            index: Vec::new(),
            base_translator: Some(Box::new(translator)),
            claims: Ghost(Seq::empty()),
        }
    }

    /// Set or replace the base translator.
    pub fn set_translator<T: SyscallTranslator + Send + Sync + 'static>(&mut self, translator: T)
        ensures
            final(self).has_base(),
            final(self).plugin_count() == old(self).plugin_count(),
            final(self).claims() == old(self).claims(),
            final(self).keeps_plugins_of(&*old(self), old(self).plugin_count() as int),
            forall|n: u64, a: [u64; 6], b: Result<SyscallResult, SyscallError>|
                #[trigger] final(self).base_answers(n, a, b) <==> call_ensures(T::translate, (&translator, n, a), b),
    {
        proof {
            use_type_invariant(&*self);
        }
        self.base_translator = Some(Box::new(translator));
    }

    /// Register a plugin.
    ///
    /// Each syscall that the plugin reports as supported is routed to it;
    /// a syscall that another plugin claimed before is taken over
    /// (the last registration wins).
    pub fn register(&mut self, plugin: Box<dyn SyscallTranslatorPlugin>)
        ensures
            final(self).plugin_count() == old(self).plugin_count() + 1,
            final(self).claims() == old(self).claims().push(final(self).claims().last()),
            final(self).has_base() == old(self).has_base(),
            forall|n: u64, a: [u64; 6], b: Result<SyscallResult, SyscallError>|
                #[trigger] final(self).base_answers(n, a, b) == old(self).base_answers(n, a, b),
            final(self).keeps_plugins_of(&*old(self), old(self).plugin_count() as int),
            final(self).reports_claims_at(old(self).plugin_count() as int, final(self).claims().last()),
            forall|i: int|
                0 <= i < final(self).plugin_count() ==> final(self).reports_claims_at(
                    i,
                    #[trigger] final(self).claims()[i],
                ),
            forall|n: SyscallName| #[trigger] final(self).route(n) == if final(self).claims().last().contains(n) {
                Some(old(self).plugin_count() as int)
            } else {
                old(self).route(n)
            },
    {
        proof {
            use_type_invariant(&*self);
        }
        let mut taken = PluginRegistry::new();
        std::mem::swap(self, &mut taken);
        proof {
            use_type_invariant(&taken);
        }
        let PluginRegistry { mut plugins, mut index, base_translator, claims } = taken;
        let position = plugins.len();
        let ghost held = plugins@;
        let ghost added = plugin;
        plugins.push(plugin);
        proof {
            vstd::seq::axiom_seq_push_len(held, added);
            assert forall|i: int| 0 <= i < held.len() implies plugins@[i] == held[i] by {
                vstd::seq::axiom_seq_push_index_different(held, added, i);
            }
        }
        let names = SyscallTranslatorPlugin::supported_syscalls(&plugins[position]);
        let ghost claimed = names@;
        proof {
            assert(answers_claims(&plugins@[position as int], names));
            assert(reports_claims(&plugins@[position as int], claimed));
        }
        let ghost before = index@;
        let mut k: usize = 0;
        while k < names.len()
            invariant
                0 <= k <= names@.len(),
                names@ == claimed,
                names_unique(index@),
                forall|n: SyscallName| #[trigger] index_route(index@, n) == if claimed.take(k as int).contains(n) {
                    Some(position as int)
                } else {
                    index_route(before, n)
                },
            decreases names@.len() - k,
        {
            route_to(&mut index, names[k], position);
            proof {
                assert forall|n: SyscallName| #[trigger] claimed.take(k + 1).contains(n) == (claimed.take(k as int).contains(n) || n == claimed[k as int]) by {
                    let t1 = claimed.take(k + 1);
                    let t0 = claimed.take(k as int);
                    if t1.contains(n) {
                        let j = choose|j: int| 0 <= j < t1.len() && t1[j] == n;
                        if j < k {
                            assert(t0[j] == n);
                        }
                    }
                    if t0.contains(n) {
                        let j = choose|j: int| 0 <= j < t0.len() && t0[j] == n;
                        assert(t1[j] == n);
                    }
                    if n == claimed[k as int] {
                        assert(t1[k as int] == n);
                    }
                }
            }
            k += 1;
        }
        proof {
            assert(claimed.take(names@.len() as int) =~= claimed);
            assert forall|n: SyscallName| #[trigger] index_route(index@, n) == last_claimer(claims@.push(claimed), n) by {
                lemma_last_registration_wins(claims@, claimed, n);
            }
            let all = claims@.push(claimed);
            assert forall|i: int| 0 <= i < all.len() implies reports_claims(&plugins@[i], #[trigger] all[i]) by {
                if i < held.len() {
                    assert(all[i] == claims@[i]);
                    assert(plugins@[i] == held[i]);
                } else {
                    assert(all[i] == claimed);
                }
            }
        }
        *self = PluginRegistry { plugins, index, base_translator, claims: Ghost(claims@.push(claimed)) };
        proof {
            use_type_invariant(&*self);
            assert(self.claims@.last() == claimed);
            assert(self.claims@[held.len() as int] == claimed);
            assert(reports_claims(&self.plugins@[held.len() as int], claimed));
            assert forall|n: SyscallName| #[trigger] self.route(n) == if claimed.contains(n) {
                Some(held.len() as int)
            } else {
                old(self).route(n)
            } by {
                lemma_last_registration_wins(claims@, claimed, n);
            }
        }
    }

    /// The position of the plugin that `name` is routed to, if any.
    pub fn plugin_for(&self, name: SyscallName) -> (r: Option<usize>)
        ensures
            self.route(name) == match r {
                Some(i) => Some(i as int),
                None => None::<int>,
            },
            r matches Some(i) ==> i < self.plugin_count(),
    {
        proof {
            use_type_invariant(self);
            lemma_last_claimer_claims(self.claims@, name);
        }
        find_route(&self.index, name)
    }

    /// Where the base translator's answer sends a request: its error stands;
    /// a name that some plugin claims goes to the plugin it is routed to;
    /// any other name stands as the answer.
    pub fn dispatch(&self, base_result: Result<SyscallResult, SyscallError>) -> (d: Routing)
        ensures
            d == self.routing_of(base_result),
            d matches Routing::Delegate(i) ==> i < self.plugin_count(),
    {
        match base_result {
            Err(e) => Routing::Answer(Err(e)),
            Ok(res) => match self.plugin_for(res.name) {
                Some(i) => Routing::Delegate(i),
                None => Routing::Answer(Ok(res)),
            },
        }
    }

    /// Translate a syscall.
    ///
    /// With a base translator, the number is first resolved to a name by
    /// the base translator, and [`PluginRegistry::dispatch`] decides: the
    /// base translator's error is returned as is, the plugin that claims the
    /// name translates the request, and when none claims it the base
    /// translator's result is returned.  Without a base translator, the
    /// plugins are tried in registration order and the first successful
    /// translation is returned; a plugin's error passes the request on to
    /// the next plugin, and when none succeeds the syscall is unknown.
    pub fn translate(&self, syscall_num: u64, args: [u64; 6]) -> (r: Result<SyscallResult, SyscallError>)
        ensures
            self.has_base() ==> exists|b: Result<SyscallResult, SyscallError>|
                #[trigger] self.base_answers(syscall_num, args, b) && match self.routing_of(b) {
                    Routing::Answer(x) => r == x,
                    Routing::Delegate(i) => self.answers_translation_at(i as int, syscall_num, args, r),
                },
            !self.has_base() ==> match r {
                Ok(x) => exists|i: int|
                    0 <= i < self.plugin_count() && #[trigger] self.answers_translation_at(i, syscall_num, args, Ok(x))
                        && self.all_fail_before(i, syscall_num, args),
                Err(e) => e == SyscallError::UnknownSyscall(syscall_num)
                    && self.all_fail_before(self.plugin_count() as int, syscall_num, args),
            },
    {
        proof {
            use_type_invariant(self);
        }
        match &self.base_translator {
            Some(base) => {
                let b = SharedTranslator::translate_shared(base, syscall_num, args);
                proof {
                    assert(self.base_answers(syscall_num, args, b));
                }
                let d = self.dispatch(b);
                let r = match d {
                    Routing::Answer(answer) => answer,
                    Routing::Delegate(i) => SyscallTranslatorPlugin::translate(&self.plugins[i], syscall_num, args),
                };
                proof {
                    assert(self.base_answers(syscall_num, args, b) && match self.routing_of(b) {
                        Routing::Answer(x) => r == x,
                        Routing::Delegate(i) => self.answers_translation_at(i as int, syscall_num, args, r),
                    });
                    assert(self.has_base());
                    assert(exists|b2: Result<SyscallResult, SyscallError>|
                        #[trigger] self.base_answers(syscall_num, args, b2) && match self.routing_of(b2) {
                            Routing::Answer(x) => r == x,
                            Routing::Delegate(i) => self.answers_translation_at(i as int, syscall_num, args, r),
                        });
                }
                r
            },
            None => {
                assert(!self.has_base());
                let mut i: usize = 0;
                while i < self.plugins.len()
                    invariant
                        0 <= i <= self.plugins@.len(),
                        !self.has_base(),
                        self.all_fail_before(i as int, syscall_num, args),
                    decreases self.plugins@.len() - i,
                {
                    let outcome = SyscallTranslatorPlugin::translate(&self.plugins[i], syscall_num, args);
                    proof {
                        assert(self.answers_translation_at(i as int, syscall_num, args, outcome));
                    }
                    match outcome {
                        Ok(result) => {
                            return Ok(result);
                        },
                        Err(e) => {
                            proof {
                                assert(self.fails_at(i as int, syscall_num, args));
                                assert forall|j: int| 0 <= j < i + 1 implies #[trigger] self.fails_at(j, syscall_num, args) by {
                                    if j < i {
                                        assert(self.fails_at(j, syscall_num, args));
                                    }
                                }
                            }
                        },
                    }
                    i += 1;
                }
                Err(SyscallError::UnknownSyscall(syscall_num))
            },
        }
    }

    /// The manifests of all registered plugins, in registration order:
    /// each built from what its plugin answers to `name()`, `version()`
    /// and `supported_syscalls()`.
    pub fn list_plugins(&self) -> (r: Vec<PluginManifest>)
        ensures
            r@.len() == self.plugin_count(),
            forall|i: int| 0 <= i < r@.len() ==> self.describes_at(i, #[trigger] r@[i]),
    {
        let mut out: Vec<PluginManifest> = Vec::new();
        let mut i: usize = 0;
        while i < self.plugins.len()
            invariant
                0 <= i <= self.plugins@.len(),
                out@.len() == i,
                forall|j: int| 0 <= j < i ==> self.describes_at(j, #[trigger] out@[j]),
            decreases self.plugins@.len() - i,
        {
            let p = &self.plugins[i];
            let plugin: &dyn SyscallTranslatorPlugin = &**p;
            let name = SyscallTranslatorPlugin::name(&plugin);
            let version = SyscallTranslatorPlugin::version(p);
            let syscalls = SyscallTranslatorPlugin::supported_syscalls(p);
            let m = PluginManifest::describe(name, version, syscalls);
            proof {
                assert(answers_name(&self.plugins@[i as int], name));
                assert(answers_version(&self.plugins@[i as int], version));
                assert(answers_claims(&self.plugins@[i as int], syscalls));
                assert(answers_name(&self.plugins@[i as int], name) && answers_version(
                    &self.plugins@[i as int],
                    version,
                ) && answers_claims(&self.plugins@[i as int], syscalls) && m.name@ == name@
                    && m.version@ == version@ && m.supported_syscalls@ == syscalls@);
                assert(describes(&self.plugins@[i as int], m));
            }
            out.push(m);
            i += 1;
        }
        out
    }

    /// The number of registered plugins.
    pub fn len(&self) -> (n: usize)
        ensures
            n == self.plugin_count(),
    {
        self.plugins.len()
    }

    /// Whether no plugin is registered.
    pub fn is_empty(&self) -> (b: bool)
        ensures
            b <==> self.plugin_count() == 0,
    {
        self.plugins.len() == 0
    }

    /// The first registered plugin whose `name()` answers `name`.
    pub fn find_plugin(&self, name: &str) -> (r: Option<&dyn SyscallTranslatorPlugin>)
        ensures
            r is None ==> self.all_named_otherwise_before(self.plugin_count() as int, name@),
            r is Some ==> exists|i: int, answered: &str|
                0 <= i < self.plugin_count() && self.holds_plugin_at(i, r) && #[trigger] self.answers_name_at(i, answered)
                    && answered@ == name@ && self.all_named_otherwise_before(i, name@),
            r matches Some(p) ==> exists|answered: &str|
                #[trigger] call_ensures(<&dyn SyscallTranslatorPlugin as SyscallTranslatorPlugin>::name, (&p,), answered)
                    && answered@ == name@,
    {
        let wanted = String::from_str(name);
        let mut i: usize = 0;
        while i < self.plugins.len()
            invariant
                0 <= i <= self.plugins@.len(),
                wanted@ == name@,
                self.all_named_otherwise_before(i as int, name@),
            decreases self.plugins@.len() - i,
        {
            let held = &self.plugins[i];
            let plugin: &dyn SyscallTranslatorPlugin = &**held;
            let answered = SyscallTranslatorPlugin::name(&plugin);
            proof {
                assert(self.answers_name_at(i as int, answered));
            }
            if String::from_str(answered) == wanted {
                proof {
                    assert(answered@ == name@);
                }
                let found = Some(plugin);
                proof {
                    assert(self.holds_plugin_at(i as int, found));
                    assert(call_ensures(
                        <&dyn SyscallTranslatorPlugin as SyscallTranslatorPlugin>::name,
                        (&found->0,),
                        answered,
                    ));
                }
                return found;
            }
            proof {
                assert(self.named_otherwise_at(i as int, name@));
                assert forall|j: int| 0 <= j < i + 1 implies #[trigger] self.named_otherwise_at(j, name@) by {
                    if j < i {
                        assert(self.named_otherwise_at(j, name@));
                    }
                }
            }
            i += 1;
        }
        None
    }
}

impl Default for PluginRegistry {
    fn default() -> (r: Self)
        ensures
            r.plugin_count() == 0,
            r.claims() == Seq::<Seq<SyscallName>>::empty(),
            !r.has_base(),
    {
        Self::new()
    }
}

/// Loader that registers plugins with a registry.  Plugins compiled into
/// the program are registered directly; shared libraries are loaded by the
/// application, which hands the plugins they hold to a registry.
pub struct PluginLoader;

impl PluginLoader {
    /// Create a new plugin loader.
    pub fn new() -> (l: Self) {
        Self
    }

    /// Register a statically linked plugin with `registry`.
    pub fn register_static<P: SyscallTranslatorPlugin + 'static>(&self, registry: &mut PluginRegistry, plugin: P)
        ensures
            final(registry).plugin_count() == old(registry).plugin_count() + 1,
            final(registry).claims() == old(registry).claims().push(final(registry).claims().last()),
            final(registry).has_base() == old(registry).has_base(),
            final(registry).keeps_plugins_of(&*old(registry), old(registry).plugin_count() as int),
            forall|n: u64, a: [u64; 6], b: Result<SyscallResult, SyscallError>|
                #[trigger] final(registry).base_answers(n, a, b) == old(registry).base_answers(n, a, b),
            final(registry).reports_claims_at(old(registry).plugin_count() as int, final(registry).claims().last()),
            forall|n: SyscallName| #[trigger] final(registry).route(n) == if final(registry).claims().last().contains(n) {
                Some(old(registry).plugin_count() as int)
            } else {
                old(registry).route(n)
            },
    {
        registry.register(Box::new(plugin));
    }
}

/// Whether a file extension is that of a shared library that may hold a
/// plugin (`so`, `dylib` or `dll`).
pub fn is_plugin_extension(ext: &str) -> (b: bool)
    ensures
        b <==> (ext@ == "so"@ || ext@ == "dylib"@ || ext@ == "dll"@),
{
    let chars = crate::text::chars_of(ext);
    proof {
        reveal_strlit("so");
        reveal_strlit("dylib");
        reveal_strlit("dll");
    }
    let b = if chars.len() == 2 {
        chars[0] == 's' && chars[1] == 'o'
    } else if chars.len() == 3 {
        chars[0] == 'd' && chars[1] == 'l' && chars[2] == 'l'
    } else if chars.len() == 5 {
        chars[0] == 'd' && chars[1] == 'y' && chars[2] == 'l' && chars[3] == 'i' && chars[4] == 'b'
    } else {
        false
    };
    proof {
        if b {
            assert(ext@ =~= "so"@ || ext@ =~= "dll"@ || ext@ =~= "dylib"@);
        } else {
            assert(ext@ != "so"@ && ext@ != "dll"@ && ext@ != "dylib"@) by {
                if ext@ == "so"@ || ext@ == "dll"@ || ext@ == "dylib"@ {
                    assert(chars@[0] == ext@[0] && chars@[1] == ext@[1]);
                    assert(ext@.len() >= 3 ==> chars@[2] == ext@[2]);
                    assert(ext@.len() == 5 ==> chars@[3] == ext@[3] && chars@[4] == ext@[4]);
                }
            }
        }
    }
    b
}

} // verus!
