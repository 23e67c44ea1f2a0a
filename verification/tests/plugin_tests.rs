use pine::syscall::plugin::{
    is_plugin_extension, PluginLoader, PluginLoaderError, PluginManifest, PluginRegistry, SyscallTranslatorPlugin,
};
use pine::syscall::{SyscallError, SyscallName, SyscallResult, X86_64SyscallTranslator};
use std::path::PathBuf;

struct TestPlugin {
    name: String,
    version: String,
    syscalls: Vec<SyscallName>,
}

impl SyscallTranslatorPlugin for TestPlugin {
    fn name(&self) -> &str {
        &self.name
    }
    fn version(&self) -> &str {
        &self.version
    }
    fn supported_syscalls(&self) -> &[SyscallName] {
        &self.syscalls
    }
    fn translate(&self, syscall_num: u64, args: [u64; 6]) -> Result<SyscallResult, SyscallError> {
        if let Some(&name) = self.syscalls.first() {
            Ok(SyscallResult {
                name,
                number: syscall_num,
                args,
            })
        } else {
            Err(SyscallError::UnknownSyscall(syscall_num))
        }
    }
}

#[test]
fn registry_empty_translate_fails() {
    let registry = PluginRegistry::new();
    let result = registry.translate(0, [0; 6]);
    assert!(matches!(result, Err(SyscallError::UnknownSyscall(0))));
}

#[test]
fn registry_static_plugin() {
    let mut registry = PluginRegistry::new();
    let plugin = TestPlugin {
        name: "test".to_string(),
        version: "0.1.0".to_string(),
        syscalls: vec![SyscallName::Read, SyscallName::Write],
    };
    registry.register(Box::new(plugin));
    assert_eq!(registry.len(), 1);
    assert!(!registry.is_empty());
}

#[test]
fn registry_translate_with_base_translator() {
    let mut registry = PluginRegistry::with_translator(X86_64SyscallTranslator::new());
    let plugin = TestPlugin {
        name: "file-plugin".to_string(),
        version: "1.0.0".to_string(),
        syscalls: vec![SyscallName::Read],
    };
    registry.register(Box::new(plugin));
    let result = registry.translate(0, [1, 2, 3, 4, 5, 6]).unwrap();
    assert_eq!(result.name, SyscallName::Read);
    assert_eq!(result.number, 0);
    assert_eq!(result.args, [1, 2, 3, 4, 5, 6]);
}

#[test]
fn registry_fallback_to_base_translator() {
    let mut registry = PluginRegistry::with_translator(X86_64SyscallTranslator::new());
    let plugin = TestPlugin {
        name: "empty".to_string(),
        version: "0.0.0".to_string(),
        syscalls: vec![],
    };
    registry.register(Box::new(plugin));
    let result = registry.translate(0, [0; 6]).unwrap();
    assert_eq!(result.name, SyscallName::Read);
}

#[test]
fn registry_list_plugins() {
    let mut registry = PluginRegistry::new();
    registry.register(Box::new(TestPlugin {
        name: "a".to_string(),
        version: "1.0.0".to_string(),
        syscalls: vec![SyscallName::Read],
    }));
    let list = registry.list_plugins();
    assert_eq!(list.len(), 1);
    assert_eq!(list[0].name, "a");
    assert_eq!(list[0].version, "1.0.0");
    assert_eq!(list[0].supported_syscalls, vec![SyscallName::Read]);
}

#[test]
fn registry_find_plugin() {
    let mut registry = PluginRegistry::new();
    registry.register(Box::new(TestPlugin {
        name: "finder".to_string(),
        version: "2.0.0".to_string(),
        syscalls: vec![],
    }));
    assert!(registry.find_plugin("finder").is_some());
    assert!(registry.find_plugin("missing").is_none());
}

#[test]
fn plugin_loader_register_static() {
    let loader = PluginLoader::new();
    let mut registry = PluginRegistry::new();
    loader.register_static(&mut registry, TestPlugin {
        name: "static".to_string(),
        version: "1.0.0".to_string(),
        syscalls: vec![SyscallName::Open],
    });
    assert_eq!(registry.len(), 1);
}

#[test]
fn plugin_manifest_from_plugin() {
    let plugin = TestPlugin {
        name: "manifest-test".to_string(),
        version: "0.5.0".to_string(),
        syscalls: vec![SyscallName::Close],
    };
    let manifest = PluginManifest::from_plugin(&plugin);
    assert_eq!(manifest.name, "manifest-test");
    assert_eq!(manifest.version, "0.5.0");
    assert_eq!(manifest.supported_syscalls, vec![SyscallName::Close]);
}

#[test]
fn plugin_loader_error_display() {
    let e = PluginLoaderError::SymbolNotFound("foo".to_string());
    assert_eq!(e.to_string(), "symbol not found: foo");
    let e2 = PluginLoaderError::InvalidPath(PathBuf::from("/tmp"));
    assert!(e2.to_string().contains("/tmp"));
}

#[test]
fn plugin_extensions_are_recognised() {
    assert!(is_plugin_extension("so"));
    assert!(is_plugin_extension("dylib"));
    assert!(is_plugin_extension("dll"));
    assert!(!is_plugin_extension("txt"));
    assert!(!is_plugin_extension(""));
    assert!(!is_plugin_extension("SO"));
    assert!(!is_plugin_extension("dl"));
}
