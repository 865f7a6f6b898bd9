//! Build-frontend dispatcher: the data model of one build invocation — which
//! binding strategy is active, which runtimes are targeted — and the
//! compatibility-tag computation each command reports from.
//!
//! The commands themselves are one-shot process invocations driven by an
//! external build front-end; writing metadata, archives and the final
//! machine-readable line is done outside the library.

use vstd::prelude::*;
use vstd::string::StringExecFns;

use crate::decimal::decimal_string;
use crate::decimal::spec_decimal;
use crate::sysconfig::InterpreterKind;

verus! {

/// One concrete runtime to build for, supplied by the caller; the driver
/// never enumerates these itself.
pub struct RuntimeDescriptor {
    pub major: usize,
    pub minor: usize,
    /// Absolute path of the runtime's executable, when locally available.
    pub executable: String,
    /// Which implementation the descriptor names.
    pub kind: InterpreterKind,
}

/// Mathematical value of a runtime descriptor.
pub ghost struct RuntimeDescriptorView {
    pub major: nat,
    pub minor: nat,
    pub executable: Seq<char>,
    pub kind: InterpreterKind,
}

impl View for RuntimeDescriptor {
    type V = RuntimeDescriptorView;

    open spec fn view(&self) -> RuntimeDescriptorView {
        RuntimeDescriptorView {
            major: self.major as nat,
            minor: self.minor as nat,
            executable: self.executable@,
            kind: self.kind,
        }
    }
}

/// How the compiled native code exposes itself to the managed runtime. The
/// active variant changes which compatibility tags are legal and whether a
/// per-runtime rebuild is required at all.
pub enum BindingStrategy {
    /// A plain executable: no runtime linkage at all.
    Executable,
    /// Runtime-agnostic C-style export; no version-specific linkage.
    RawFFI,
    /// Linked against one specific runtime major version through the named
    /// helper library.
    VersionedBindings { name: String },
    /// Linked against the version-independent stable interface starting at
    /// `major.minor`.
    StableABIBindings { major: usize, minor: usize },
}

/// Mathematical value of a binding strategy.
pub ghost enum BindingStrategyView {
    Executable,
    RawFFI,
    VersionedBindings { name: Seq<char> },
    StableABIBindings { major: nat, minor: nat },
}

impl View for BindingStrategy {
    type V = BindingStrategyView;

    open spec fn view(&self) -> BindingStrategyView {
        match self {
            BindingStrategy::Executable => BindingStrategyView::Executable,
            BindingStrategy::RawFFI => BindingStrategyView::RawFFI,
            BindingStrategy::VersionedBindings { name } => BindingStrategyView::VersionedBindings {
                name: name@,
            },
            BindingStrategy::StableABIBindings { major, minor } => BindingStrategyView::StableABIBindings {
                major: *major as nat,
                minor: *minor as nat,
            },
        }
    }
}

/// Immutable per-build configuration, created once per dispatcher
/// invocation and read-only for the lifetime of a build.
pub struct BuildContext {
    /// Name of the binding library crate.
    pub binding_crate: String,
    /// Debug build; release otherwise.
    pub debug: bool,
    /// The active binding strategy.
    pub strategy: BindingStrategy,
    /// The runtimes targeted by this build.
    pub runtimes: Vec<RuntimeDescriptor>,
}

/// The three commands of the build-frontend protocol; each is a one-shot
/// process invocation whose last line of standard output is its
/// machine-readable result.
pub enum Pep517Command {
    /// Compute the tags for the one selected runtime and write distribution
    /// metadata into the given directory.
    WriteDistInfo { metadata_directory: String, strip: bool },
    /// Full build of one wheel archive; strip and editable are accepted but
    /// presently informational only for this command.
    BuildWheel { strip: bool, editable: bool },
    /// Write a source archive; independent of the driver entirely.
    WriteSDist { sdist_directory: String, manifest_path: String },
}

/// Whether a command is only legal with exactly one selected runtime.
pub fn command_requires_single_runtime(cmd: &Pep517Command) -> (r: bool)
    ensures
        r == (cmd is WriteDistInfo),
{
    match cmd {
        Pep517Command::WriteDistInfo { .. } => true,
        _ => false,
    }
}

/// Whether this context selects exactly one runtime.
pub fn single_runtime_selected(ctx: &BuildContext) -> (r: bool)
    ensures
        r == (ctx.runtimes@.len() == 1),
{
    ctx.runtimes.len() == 1
}

/// The version-independent stable-interface tag: `cp{major}{minor}-abi3-`
/// followed by the platform part, computed purely from the platform and the
/// strategy's version floor, independent of any installed runtime.
pub open spec fn spec_abi3_tag(major: nat, minor: nat, platform: Seq<char>) -> Seq<char> {
    "cp"@ + spec_decimal(major) + spec_decimal(minor) + "-abi3-"@ + platform
}

/// Renders the stable-interface tag.
pub fn abi3_tag(major: usize, minor: usize, platform_tag: &str) -> (r: String)
    ensures
        r@ == spec_abi3_tag(major as nat, minor as nat, platform_tag@),
{
    let mut s = String::from_str("cp");
    let ma = decimal_string(major);
    s.append(ma.as_str());
    let mi = decimal_string(minor);
    s.append(mi.as_str());
    s.append("-abi3-");
    s.append(platform_tag);
    proof {
        assert(s@ =~= spec_abi3_tag(major as nat, minor as nat, platform_tag@));
    }
    s
}

/// The compatibility tag set of one build under the active strategy:
/// version-specific bindings carry the selected runtime's own tag; stable
/// bindings carry the one platform-derived stable tag; an executable or a
/// raw C-style export carries the universal tags.
pub open spec fn spec_wheel_tags(
    strategy: BindingStrategyView,
    runtime_tag: Seq<char>,
    platform_tag: Seq<char>,
    universal_tags: Seq<Seq<char>>,
) -> Seq<Seq<char>> {
    match strategy {
        BindingStrategyView::VersionedBindings { .. } => seq![runtime_tag],
        BindingStrategyView::StableABIBindings { major, minor } => seq![
            spec_abi3_tag(major, minor, platform_tag),
        ],
        BindingStrategyView::Executable => universal_tags,
        BindingStrategyView::RawFFI => universal_tags,
    }
}

/// Computes the compatibility tag set. `runtime_tag` is the selected
/// runtime's own tag and `universal_tags` the platform's universal tag
/// list, both supplied by the packaging services; only the strategy decides
/// which of them, or which computed tag, applies.
pub fn wheel_tags(
    strategy: &BindingStrategy,
    runtime_tag: &str,
    platform_tag: &str,
    universal_tags: &Vec<String>,
) -> (r: Vec<String>)
    ensures
        r.deep_view() == spec_wheel_tags(
            strategy@,
            runtime_tag@,
            platform_tag@,
            universal_tags.deep_view(),
        ),
{
    match strategy {
        BindingStrategy::VersionedBindings { .. } => {
            let mut v: Vec<String> = Vec::new();
            v.push(String::from_str(runtime_tag));
            proof {
                assert(v.deep_view() =~= seq![runtime_tag@]);
            }
            v
        },
        BindingStrategy::StableABIBindings { major, minor } => {
            let mut v: Vec<String> = Vec::new();
            v.push(abi3_tag(*major, *minor, platform_tag));
            proof {
                assert(v.deep_view() =~= seq![
                    spec_abi3_tag(*major as nat, *minor as nat, platform_tag@),
                ]);
            }
            v
        },
        _ => {
            let mut v: Vec<String> = Vec::new();
            let n = universal_tags.len();
            let mut i: usize = 0;
            while i < n
                invariant
                    0 <= i <= n,
                    n == universal_tags@.len(),
                    v.deep_view() =~= universal_tags.deep_view().take(i as int),
                decreases n - i,
            {
                let tag = universal_tags[i].clone();
                proof {
                    assert(tag@ == universal_tags.deep_view()[i as int]);
                }
                v.push(tag);
                proof {
                    assert(v.deep_view() =~= universal_tags.deep_view().take(i as int).push(tag@));
                    assert(universal_tags.deep_view().take(i as int + 1) =~= universal_tags.deep_view()
                        .take(i as int).push(universal_tags.deep_view()[i as int]));
                }
                i = i + 1;
            }
            proof {
                assert(universal_tags.deep_view().take(n as int) =~= universal_tags.deep_view());
                assert(v.deep_view() =~= universal_tags.deep_view());
            }
            v
        },
    }
}

} // verus!
