//! Resolution of graphics entry points by name.
//!
//! A symbol can come from two places: the export table of the graphics
//! runtime module, and the resolver of the context that is current. The
//! first place that knows the symbol decides, and a place that comes later
//! in the order is not asked once an earlier one has answered.

use vstd::prelude::*;

verus! {

/// A place that can be asked for the address of a symbol.
#[derive(Clone, Copy, Debug, PartialEq, Eq, Structural)]
pub enum Source {
    /// The export table of the graphics runtime module.
    Module,
    /// The extension resolver of the current context.
    Extension,
}

/// Which places are asked, and in what order.
#[derive(Clone, Copy, Debug, PartialEq, Eq, Structural)]
pub enum Strategy {
    /// The module table first, the extension resolver if the table does not
    /// know the symbol.
    ModuleThenExtension,
    /// The extension resolver alone.
    ExtensionOnly,
}

/// Where the resolution of one symbol stands.
#[derive(Clone, Copy, Debug, PartialEq, Eq, Structural)]
pub enum Probe {
    /// The symbol is not resolved yet: ask this source next.
    Ask(Source),
    /// The symbol is bound to a non-null address, which this source gave.
    Resolved { address: usize, source: Source },
    /// No source knows the symbol: its entry stays null, and a diagnostic is
    /// due. The load goes on with the next symbol.
    Missing,
}

/// The source a resolution starts with.
pub open spec fn spec_first_source(strategy: Strategy) -> Source {
    match strategy {
        Strategy::ModuleThenExtension => Source::Module,
        Strategy::ExtensionOnly => Source::Extension,
    }
}

/// Where the resolution stands once `asked` has answered `address`; null
/// is the answer of a source that does not know the symbol.
pub open spec fn spec_after_answer(strategy: Strategy, asked: Source, address: usize) -> Probe {
    if address != 0 {
        Probe::Resolved { address, source: asked }
    } else if strategy == Strategy::ModuleThenExtension && asked == Source::Module {
        Probe::Ask(Source::Extension)
    } else {
        Probe::Missing
    }
}

/// The sources that a resolution consults, in order, when the module table
/// would answer `module` and the extension resolver `extension`.
pub open spec fn lookups(strategy: Strategy, module: usize, extension: usize) -> Seq<Source> {
    match strategy {
        Strategy::ModuleThenExtension => if module != 0 {
            seq![Source::Module]
        } else {
            seq![Source::Module, Source::Extension]
        },
        Strategy::ExtensionOnly => seq![Source::Extension],
    }
}

/// How a resolution ends when the module table would answer `module` and
/// the extension resolver `extension`.
pub open spec fn resolution(strategy: Strategy, module: usize, extension: usize) -> Probe {
    if strategy == Strategy::ModuleThenExtension && module != 0 {
        Probe::Resolved { address: module, source: Source::Module }
    } else if extension != 0 {
        Probe::Resolved { address: extension, source: Source::Extension }
    } else {
        Probe::Missing
    }
}

/// What `source` answers, given the answers of the two places.
pub open spec fn answer_of(source: Source, module: usize, extension: usize) -> usize {
    match source {
        Source::Module => module,
        Source::Extension => extension,
    }
}

/// How many sources come after `source` in the order of asking.
pub open spec fn sources_after(source: Source) -> nat {
    match source {
        Source::Module => 1,
        Source::Extension => 0,
    }
}

/// The sources asked, and the final standing, when a resolution is run
/// step by step from `asked` on against the answers of the two places.
pub open spec fn run_from(strategy: Strategy, asked: Source, module: usize, extension: usize) -> (
    Seq<Source>,
    Probe,
)
    decreases sources_after(asked),
{
    let standing = spec_after_answer(strategy, asked, answer_of(asked, module, extension));
    match standing {
        Probe::Ask(next) if sources_after(next) < sources_after(asked) => {
            let rest = run_from(strategy, next, module, extension);
            (seq![asked] + rest.0, rest.1)
        },
        _ => (seq![asked], standing),
    }
}

#[verifier::when_used_as_spec(spec_first_source)]
pub fn first_source(strategy: Strategy) -> (source: Source)
    ensures
        source == spec_first_source(strategy),
{
    match strategy {
        Strategy::ModuleThenExtension => Source::Module,
        Strategy::ExtensionOnly => Source::Extension,
    }
}

#[verifier::when_used_as_spec(spec_after_answer)]
pub fn after_answer(strategy: Strategy, asked: Source, address: usize) -> (standing: Probe)
    ensures
        standing == spec_after_answer(strategy, asked, address),
{
    if address != 0 {
        Probe::Resolved { address, source: asked }
    } else {
        match (strategy, asked) {
            (Strategy::ModuleThenExtension, Source::Module) => Probe::Ask(Source::Extension),
            _ => Probe::Missing,
        }
    }
}

/// First match wins: a source that knows the symbol ends the resolution,
/// whatever the strategy, so no later source is asked.
pub proof fn known_symbol_ends_resolution(strategy: Strategy, asked: Source, address: usize)
    requires
        address != 0,
    ensures
        after_answer(strategy, asked, address) == (Probe::Resolved { address, source: asked }),
        after_answer(strategy, asked, address) !is Ask,
{
}

/// Run step by step, a resolution consults exactly the sources of
/// `lookups` and ends as `resolution` says. In particular a symbol that the
/// module table knows never reaches the extension resolver, and the
/// extension resolver is the fallback when the table does not know it.
pub proof fn resolution_runs_in_order(strategy: Strategy, module: usize, extension: usize)
    ensures
        run_from(strategy, first_source(strategy), module, extension) == (
            lookups(strategy, module, extension),
            resolution(strategy, module, extension),
        ),
        resolution(strategy, module, extension) !is Ask,
        strategy == Strategy::ModuleThenExtension && module != 0 ==> {
            &&& !lookups(strategy, module, extension).contains(Source::Extension)
            &&& resolution(strategy, module, extension) == (Probe::Resolved {
                address: module,
                source: Source::Module,
            })
        },
        strategy == Strategy::ExtensionOnly ==> !lookups(strategy, module, extension).contains(
            Source::Module,
        ),
{
    reveal_with_fuel(run_from, 3);
    let first = first_source(strategy);
    let got = run_from(strategy, first, module, extension);
    assert(got.0 =~= lookups(strategy, module, extension));
}

/// Asks `source` for `name` through the lookup that stands for it.
fn ask<M, E>(source: Source, name: &str, module: &M, extension: &E) -> (address: usize) where
    M: Fn(&str) -> usize,
    E: Fn(&str) -> usize,

    requires
        source == Source::Module ==> module.requires((name,)),
        source == Source::Extension ==> extension.requires((name,)),
    ensures
        source == Source::Module ==> module.ensures((name,), address),
        source == Source::Extension ==> extension.ensures((name,), address),
{
    match source {
        Source::Module => module(name),
        Source::Extension => extension(name),
    }
}

/// Resolves `name` against the two lookups, in the order of `strategy`.
///
/// The extension lookup may be called for a name only when the strategy
/// starts with it or when the module lookup has answered null for that
/// name: the function needs no more than that, so it makes no call beyond
/// it.
pub fn resolve<M, E>(strategy: Strategy, name: &str, module: &M, extension: &E) -> (standing:
    Probe) where M: Fn(&str) -> usize, E: Fn(&str) -> usize
    requires
        strategy == Strategy::ModuleThenExtension ==> module.requires((name,)),
        strategy == Strategy::ModuleThenExtension ==> forall|answer: usize|
            module.ensures((name,), answer) && answer == 0 ==> extension.requires((name,)),
        strategy == Strategy::ExtensionOnly ==> extension.requires((name,)),
    ensures
        standing !is Ask,
        strategy == Strategy::ModuleThenExtension ==> exists|m: usize| #[trigger]
            module.ensures((name,), m) && if m != 0 {
                standing == resolution(strategy, m, 0)
            } else {
                exists|e: usize| #[trigger]
                    extension.ensures((name,), e) && standing == resolution(strategy, m, e)
            },
        strategy == Strategy::ExtensionOnly ==> exists|e: usize| #[trigger]
            extension.ensures((name,), e) && standing == resolution(strategy, 0, e),
{
    let first = first_source(strategy);
    let answer = ask(first, name, module, extension);
    match after_answer(strategy, first, answer) {
        Probe::Ask(second) => {
            let fallback = ask(second, name, module, extension);
            after_answer(strategy, second, fallback)
        },
        standing => standing,
    }
}

/// The name of the graphics runtime module, whose export table is the
/// first source of a symbol.
pub open spec fn spec_graphics_library() -> Seq<char> {
    "opengl32.dll"@
}

/// The name of the extended pixel-format chooser. The module table does
/// not have it: it is resolved with `Strategy::ExtensionOnly`.
pub open spec fn spec_chooser_symbol() -> Seq<char> {
    "wglChoosePixelFormatARB"@
}

pub fn graphics_library() -> (name: &'static str)
    ensures
        name@ == spec_graphics_library(),
{
    "opengl32.dll"
}

pub fn chooser_symbol() -> (name: &'static str)
    ensures
        name@ == spec_chooser_symbol(),
{
    "wglChoosePixelFormatARB"
}

} // verus!
