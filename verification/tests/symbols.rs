use std::cell::Cell;
use wgl_bootstrap::symbols::{after_answer, first_source, resolve, Probe, Source, Strategy};

#[test]
fn resolution_starts_with_the_first_source_of_the_strategy() {
    assert_eq!(first_source(Strategy::ModuleThenExtension), Source::Module);
    assert_eq!(first_source(Strategy::ExtensionOnly), Source::Extension);
}

#[test]
fn known_symbol_is_resolved_by_the_source_asked() {
    assert_eq!(
        after_answer(Strategy::ModuleThenExtension, Source::Module, 0x1000),
        Probe::Resolved { address: 0x1000, source: Source::Module }
    );
    assert_eq!(
        after_answer(Strategy::ModuleThenExtension, Source::Extension, 0x2000),
        Probe::Resolved { address: 0x2000, source: Source::Extension }
    );
    assert_eq!(
        after_answer(Strategy::ExtensionOnly, Source::Extension, 0x3000),
        Probe::Resolved { address: 0x3000, source: Source::Extension }
    );
}

#[test]
fn unknown_symbol_falls_back_to_the_extension_resolver() {
    assert_eq!(
        after_answer(Strategy::ModuleThenExtension, Source::Module, 0),
        Probe::Ask(Source::Extension)
    );
}

#[test]
fn symbol_that_no_source_knows_is_missing() {
    assert_eq!(after_answer(Strategy::ModuleThenExtension, Source::Extension, 0), Probe::Missing);
    assert_eq!(after_answer(Strategy::ExtensionOnly, Source::Extension, 0), Probe::Missing);
    assert_eq!(after_answer(Strategy::ExtensionOnly, Source::Module, 0), Probe::Missing);
}

#[test]
fn module_symbol_never_reaches_the_extension_resolver() {
    let module_calls = Cell::new(0);
    let extension_calls = Cell::new(0);
    let module = |_: &str| {
        module_calls.set(module_calls.get() + 1);
        0x1000usize
    };
    let extension = |_: &str| {
        extension_calls.set(extension_calls.get() + 1);
        0x2000usize
    };
    let standing = resolve(Strategy::ModuleThenExtension, "glClear", &module, &extension);
    assert_eq!(standing, Probe::Resolved { address: 0x1000, source: Source::Module });
    assert_eq!(module_calls.get(), 1);
    assert_eq!(extension_calls.get(), 0);
}

#[test]
fn extension_resolver_is_the_fallback() {
    let module_calls = Cell::new(0);
    let extension_calls = Cell::new(0);
    let module = |_: &str| {
        module_calls.set(module_calls.get() + 1);
        0usize
    };
    let extension = |_: &str| {
        extension_calls.set(extension_calls.get() + 1);
        0x2000usize
    };
    let standing = resolve(Strategy::ModuleThenExtension, "glGetnColorTable", &module, &extension);
    assert_eq!(standing, Probe::Resolved { address: 0x2000, source: Source::Extension });
    assert_eq!(module_calls.get(), 1);
    assert_eq!(extension_calls.get(), 1);
}

#[test]
fn missing_symbol_does_not_stop_the_load() {
    let module = |_: &str| 0usize;
    let extension = |name: &str| if name == "glKnown" { 0x2000usize } else { 0usize };
    assert_eq!(
        resolve(Strategy::ModuleThenExtension, "glUnknown", &module, &extension),
        Probe::Missing
    );
    assert_eq!(
        resolve(Strategy::ModuleThenExtension, "glKnown", &module, &extension),
        Probe::Resolved { address: 0x2000, source: Source::Extension }
    );
}

#[test]
fn extension_only_strategy_skips_the_module_table() {
    let module_calls = Cell::new(0);
    let module = |_: &str| {
        module_calls.set(module_calls.get() + 1);
        0x1000usize
    };
    let extension = |_: &str| 0x2000usize;
    let standing = resolve(Strategy::ExtensionOnly, "wglChoosePixelFormatARB", &module, &extension);
    assert_eq!(standing, Probe::Resolved { address: 0x2000, source: Source::Extension });
    assert_eq!(module_calls.get(), 0);
    let nothing = |_: &str| 0usize;
    assert_eq!(
        resolve(Strategy::ExtensionOnly, "wglChoosePixelFormatARB", &module, &nothing),
        Probe::Missing
    );
    assert_eq!(module_calls.get(), 0);
}

#[test]
fn resolve_hands_the_name_to_the_lookups() {
    let module = |name: &str| name.len();
    let extension = |_: &str| 0usize;
    assert_eq!(
        resolve(Strategy::ModuleThenExtension, "glClear", &module, &extension),
        Probe::Resolved { address: 7, source: Source::Module }
    );
}

#[test]
fn names_of_the_library_and_the_chooser() {
    assert_eq!(wgl_bootstrap::symbols::graphics_library(), "opengl32.dll");
    assert_eq!(wgl_bootstrap::symbols::chooser_symbol(), "wglChoosePixelFormatARB");
}
