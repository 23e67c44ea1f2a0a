use pine::syscall::plugin::{
    PluginLoader, Routing, PluginLoaderError, PluginManifest, PluginRegistry,
    SyscallTranslatorPlugin,
};
use pine::syscall::linux::LinuxSyscallTranslator;
use pine::syscall::{SyscallError, SyscallName, SyscallResult, X86_64SyscallTranslator};
use std::path::PathBuf;

/// A plugin that answers every request with a fixed outcome, so that a
/// test can tell which plugin answered.
struct FixedPlugin {
    name: &'static str,
    claims: Vec<SyscallName>,
    answer: Result<SyscallName, SyscallError>,
}

impl SyscallTranslatorPlugin for FixedPlugin {
    fn name(&self) -> &str {
        self.name
    }
    fn version(&self) -> &str {
        "0.0.1"
    }
    fn supported_syscalls(&self) -> &[SyscallName] {
        &self.claims
    }
    fn translate(&self, syscall_num: u64, args: [u64; 6]) -> Result<SyscallResult, SyscallError> {
        match &self.answer {
            Ok(name) => Ok(SyscallResult { name: *name, number: syscall_num, args }),
            Err(e) => Err(e.clone()),
        }
    }
}

fn fixed(name: &'static str, claims: Vec<SyscallName>, answer: Result<SyscallName, SyscallError>) -> Box<FixedPlugin> {
    Box::new(FixedPlugin { name, claims, answer })
}

#[test]
fn later_registration_takes_over_a_claimed_syscall() {
    let mut registry = PluginRegistry::with_translator(X86_64SyscallTranslator::new());
    registry.register(fixed("first", vec![SyscallName::Read], Ok(SyscallName::Write)));
    registry.register(fixed("second", vec![SyscallName::Read, SyscallName::Open], Ok(SyscallName::Close)));
    assert_eq!(registry.plugin_for(SyscallName::Read), Some(1));
    assert_eq!(registry.plugin_for(SyscallName::Open), Some(1));
    assert_eq!(registry.plugin_for(SyscallName::Write), None);
    let result = registry.translate(0, [9, 8, 7, 6, 5, 4]).unwrap();
    assert_eq!(result.name, SyscallName::Close);
    assert_eq!(result.number, 0);
    assert_eq!(result.args, [9, 8, 7, 6, 5, 4]);
}

#[test]
fn earlier_claims_stay_routed_when_not_taken_over() {
    let mut registry = PluginRegistry::with_translator(X86_64SyscallTranslator::new());
    registry.register(fixed("first", vec![SyscallName::Read, SyscallName::Write], Ok(SyscallName::Mmap)));
    registry.register(fixed("second", vec![SyscallName::Read], Ok(SyscallName::Brk)));
    assert_eq!(registry.plugin_for(SyscallName::Write), Some(0));
    assert_eq!(registry.translate(1, [0; 6]).unwrap().name, SyscallName::Mmap);
    assert_eq!(registry.translate(0, [0; 6]).unwrap().name, SyscallName::Brk);
}

#[test]
fn base_translator_error_is_returned_unchanged() {
    let mut registry = PluginRegistry::with_translator(X86_64SyscallTranslator::new());
    registry.register(fixed("any", vec![SyscallName::Read], Ok(SyscallName::Read)));
    assert_eq!(registry.translate(9999, [0; 6]), Err(SyscallError::UnknownSyscall(9999)));
}

#[test]
fn claimed_syscall_uses_the_plugin_answer_even_when_it_fails() {
    let mut registry = PluginRegistry::with_translator(X86_64SyscallTranslator::new());
    registry.register(fixed("broken", vec![SyscallName::Read], Err(SyscallError::InvalidArgument)));
    assert_eq!(registry.translate(0, [0; 6]), Err(SyscallError::InvalidArgument));
    assert_eq!(registry.translate(1, [0; 6]).unwrap().name, SyscallName::Write);
}

#[test]
fn scan_without_base_skips_unknown_answers() {
    let mut registry = PluginRegistry::new();
    registry.register(fixed("unknown", vec![], Err(SyscallError::UnknownSyscall(77))));
    registry.register(fixed("answers", vec![], Ok(SyscallName::Getpid)));
    registry.register(fixed("later", vec![], Ok(SyscallName::Kill)));
    assert_eq!(registry.translate(39, [0; 6]).unwrap().name, SyscallName::Getpid);
}

#[test]
fn scan_without_base_skips_every_error() {
    let mut registry = PluginRegistry::new();
    registry.register(fixed("invalid", vec![], Err(SyscallError::InvalidArgument)));
    registry.register(fixed("answers", vec![], Ok(SyscallName::Getpid)));
    assert_eq!(registry.translate(39, [0; 6]).unwrap().name, SyscallName::Getpid);
}

#[test]
fn scan_without_base_reports_unknown_when_every_plugin_fails() {
    let mut registry = PluginRegistry::new();
    registry.register(fixed("invalid", vec![], Err(SyscallError::InvalidArgument)));
    registry.register(fixed("unknown", vec![], Err(SyscallError::UnknownSyscall(1))));
    assert_eq!(registry.translate(7, [0; 6]), Err(SyscallError::UnknownSyscall(7)));
}

#[test]
fn scan_without_base_reports_the_number_asked() {
    let mut registry = PluginRegistry::new();
    registry.register(fixed("unknown", vec![], Err(SyscallError::UnknownSyscall(5))));
    assert_eq!(registry.translate(12, [0; 6]), Err(SyscallError::UnknownSyscall(12)));
}

#[test]
fn set_translator_enables_routing() {
    let mut registry = PluginRegistry::default();
    registry.register(fixed("exit", vec![SyscallName::Exit], Ok(SyscallName::ExitGroup)));
    assert!(registry.translate(60, [0; 6]).is_ok());
    registry.set_translator(LinuxSyscallTranslator::new());
    assert_eq!(registry.translate(60, [0; 6]).unwrap().name, SyscallName::ExitGroup);
    assert_eq!(registry.translate(61, [0; 6]).unwrap().name, SyscallName::Wait4);
}

#[test]
fn find_plugin_picks_the_first_with_the_name() {
    let mut registry = PluginRegistry::new();
    assert!(registry.find_plugin("twin").is_none());
    registry.register(fixed("twin", vec![SyscallName::Read], Ok(SyscallName::Read)));
    registry.register(fixed("twin", vec![SyscallName::Write], Ok(SyscallName::Write)));
    let found = registry.find_plugin("twin").unwrap();
    assert_eq!(found.supported_syscalls(), &[SyscallName::Read]);
    assert!(registry.find_plugin("twi").is_none());
}

#[test]
fn list_plugins_in_registration_order() {
    let mut registry = PluginRegistry::new();
    assert!(registry.is_empty());
    assert!(registry.list_plugins().is_empty());
    registry.register(fixed("one", vec![SyscallName::Read], Ok(SyscallName::Read)));
    registry.register(fixed("two", vec![], Ok(SyscallName::Read)));
    let list = registry.list_plugins();
    assert_eq!(registry.len(), 2);
    assert_eq!(list.len(), 2);
    assert_eq!(list[0].name, "one");
    assert_eq!(list[0].supported_syscalls, vec![SyscallName::Read]);
    assert_eq!(list[1].name, "two");
    assert_eq!(list[1].version, "0.0.1");
}

#[test]
fn manifest_describe_copies_its_inputs() {
    let m = PluginManifest::describe("n", "1.2.3", &[SyscallName::Close, SyscallName::Open]);
    assert_eq!(m.name, "n");
    assert_eq!(m.version, "1.2.3");
    assert_eq!(m.supported_syscalls, vec![SyscallName::Close, SyscallName::Open]);
}

#[test]
fn register_static_routes_the_plugin() {
    let loader = PluginLoader::new();
    let mut registry = PluginRegistry::with_translator(X86_64SyscallTranslator::new());
    loader.register_static(&mut registry, FixedPlugin { name: "s", claims: vec![SyscallName::Open], answer: Ok(SyscallName::Openat) });
    assert_eq!(registry.plugin_for(SyscallName::Open), Some(0));
    assert_eq!(registry.translate(2, [0; 6]).unwrap().name, SyscallName::Openat);
}

#[test]
fn plugin_loader_error_messages() {
    assert_eq!(
        PluginLoaderError::LibraryLoadFailed("boom".to_string()).to_string(),
        "failed to load library: boom"
    );
    assert_eq!(
        PluginLoaderError::DirectoryReadFailed("gone".to_string()).to_string(),
        "failed to read directory: gone"
    );
    assert_eq!(
        PluginLoaderError::InvalidPath(PathBuf::from("/opt/plugins/x.so")).to_string(),
        "invalid plugin path: /opt/plugins/x.so"
    );
    assert_eq!(PluginLoaderError::SymbolNotFound(String::new()).to_string(), "symbol not found: ");
}

#[test]
fn dispatch_decides_from_the_base_answer() {
    let mut registry = PluginRegistry::with_translator(X86_64SyscallTranslator::new());
    registry.register(fixed("reads", vec![SyscallName::Read], Ok(SyscallName::Read)));
    let read = SyscallResult { name: SyscallName::Read, number: 0, args: [0; 6] };
    let write = SyscallResult { name: SyscallName::Write, number: 1, args: [2; 6] };
    assert_eq!(registry.dispatch(Ok(read)), Routing::Delegate(0));
    assert_eq!(registry.dispatch(Ok(write.clone())), Routing::Answer(Ok(write)));
    assert_eq!(
        registry.dispatch(Err(SyscallError::UnknownSyscall(400))),
        Routing::Answer(Err(SyscallError::UnknownSyscall(400)))
    );
}
