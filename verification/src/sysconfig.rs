//! Compatibility knowledge base: a static table of well-known runtime
//! configurations keyed by (operating system, architecture, major, minor),
//! and the generator for the binding layer's textual configuration block.
//!
//! The table substitutes for runtime introspection when the target runtime
//! cannot be executed on the build host (cross builds). It is pure data: a
//! lookup returns the same row, or the same absence, for the same key on
//! every call.

use vstd::prelude::*;
use vstd::string::StringExecFns;

use crate::decimal::decimal_string;
use crate::decimal::spec_decimal;

verus! {

/// Target operating system.
#[derive(Clone, Copy, Debug, PartialEq, Eq, Structural)]
pub enum Os {
    Linux,
    Windows,
    Macos,
    FreeBsd,
}

/// Target CPU architecture.
#[derive(Clone, Copy, Debug, PartialEq, Eq, Structural)]
pub enum Arch {
    X86,
    X86_64,
    Aarch64,
    Armv7L,
}

/// Which implementation of the managed runtime a configuration describes.
#[derive(Clone, Copy, Debug, PartialEq, Eq, Structural)]
pub enum InterpreterKind {
    CPython,
    PyPy,
}

/// One row of the knowledge base: the sysconfig values of a well-known
/// runtime build that the binding layer needs.
#[derive(Debug)]
pub struct Sysconfig {
    /// The runtime's major version.
    pub major: usize,
    /// The runtime's minor version.
    pub minor: usize,
    /// Reference implementation or alternate implementation.
    pub interpreter_kind: InterpreterKind,
    /// ABI flags, e.g. "m" for older versions; empty on newer ones and on
    /// Windows.
    pub abiflags: String,
    /// Suffix used for extension modules, as sysconfig reports it.
    pub ext_suffix: String,
    /// The `{major}{minor}{abiflags}` part of the SOABI; absent on Windows.
    pub abi_tag: Option<String>,
    /// Pointer width in bytes.
    pub calcsize_pointer: usize,
}

/// The mathematical value of one `Sysconfig` row.
pub ghost struct SysconfigView {
    pub major: nat,
    pub minor: nat,
    pub interpreter_kind: InterpreterKind,
    pub abiflags: Seq<char>,
    pub ext_suffix: Seq<char>,
    pub abi_tag: Option<Seq<char>>,
    pub calcsize_pointer: nat,
}

impl View for Sysconfig {
    type V = SysconfigView;

    open spec fn view(&self) -> SysconfigView {
        SysconfigView {
            major: self.major as nat,
            minor: self.minor as nat,
            interpreter_kind: self.interpreter_kind,
            abiflags: self.abiflags@,
            ext_suffix: self.ext_suffix@,
            abi_tag: match self.abi_tag {
                Some(t) => Some(t@),
                None => None,
            },
            calcsize_pointer: self.calcsize_pointer as nat,
        }
    }
}

/// One keyed entry of the knowledge base.
#[derive(Debug)]
pub struct SysconfigEntry {
    pub os: Os,
    pub arch: Arch,
    pub config: Sysconfig,
}

/// The mathematical value of one keyed entry.
pub ghost struct SysconfigEntryView {
    pub os: Os,
    pub arch: Arch,
    pub config: SysconfigView,
}

impl View for SysconfigEntry {
    type V = SysconfigEntryView;

    open spec fn view(&self) -> SysconfigEntryView {
        SysconfigEntryView { os: self.os, arch: self.arch, config: self.config@ }
    }
}

/// The view of a whole table.
pub open spec fn entries_view(v: Seq<SysconfigEntry>) -> Seq<SysconfigEntryView> {
    v.map_values(|e: SysconfigEntry| e@)
}

/// One row of the specification-level table.
pub open spec fn spec_row(
    os: Os,
    arch: Arch,
    major: nat,
    minor: nat,
    kind: InterpreterKind,
    abiflags: Seq<char>,
    ext_suffix: Seq<char>,
    abi_tag: Option<Seq<char>>,
    pointer: nat,
) -> SysconfigEntryView {
    SysconfigEntryView {
        os,
        arch,
        config: SysconfigView {
            major,
            minor,
            interpreter_kind: kind,
            abiflags,
            ext_suffix,
            abi_tag,
            calcsize_pointer: pointer,
        },
    }
}

/// The specification-level knowledge base: every row the library knows.
pub open spec fn spec_wellknown() -> Seq<SysconfigEntryView> {
    seq![
        spec_row(Os::Linux, Arch::X86_64, 3, 6, InterpreterKind::CPython, "m"@,
            ".cpython-36m-x86_64-linux-gnu.so"@, Some("36m"@), 8),
        spec_row(Os::Linux, Arch::X86_64, 3, 7, InterpreterKind::CPython, "m"@,
            ".cpython-37m-x86_64-linux-gnu.so"@, Some("37m"@), 8),
        spec_row(Os::Linux, Arch::X86_64, 3, 8, InterpreterKind::CPython, ""@,
            ".cpython-38-x86_64-linux-gnu.so"@, Some("38"@), 8),
        spec_row(Os::Linux, Arch::X86_64, 3, 9, InterpreterKind::CPython, ""@,
            ".cpython-39-x86_64-linux-gnu.so"@, Some("39"@), 8),
        spec_row(Os::Linux, Arch::X86_64, 3, 10, InterpreterKind::CPython, ""@,
            ".cpython-310-x86_64-linux-gnu.so"@, Some("310"@), 8),
        spec_row(Os::Linux, Arch::X86_64, 3, 11, InterpreterKind::CPython, ""@,
            ".cpython-311-x86_64-linux-gnu.so"@, Some("311"@), 8),
        spec_row(Os::Linux, Arch::Aarch64, 3, 9, InterpreterKind::CPython, ""@,
            ".cpython-39-aarch64-linux-gnu.so"@, Some("39"@), 8),
        spec_row(Os::Linux, Arch::Aarch64, 3, 10, InterpreterKind::CPython, ""@,
            ".cpython-310-aarch64-linux-gnu.so"@, Some("310"@), 8),
        spec_row(Os::Windows, Arch::X86_64, 3, 9, InterpreterKind::CPython, ""@,
            ".pyd"@, None, 8),
        spec_row(Os::Windows, Arch::X86_64, 3, 10, InterpreterKind::CPython, ""@,
            ".pyd"@, None, 8),
        spec_row(Os::Macos, Arch::X86_64, 3, 9, InterpreterKind::CPython, ""@,
            ".cpython-39-darwin.so"@, Some("39"@), 8),
        spec_row(Os::Macos, Arch::X86_64, 3, 10, InterpreterKind::CPython, ""@,
            ".cpython-310-darwin.so"@, Some("310"@), 8),
        spec_row(Os::Macos, Arch::Aarch64, 3, 10, InterpreterKind::CPython, ""@,
            ".cpython-310-darwin.so"@, Some("310"@), 8),
    ]
}

fn entry(
    os: Os,
    arch: Arch,
    major: usize,
    minor: usize,
    kind: InterpreterKind,
    abiflags: &str,
    ext_suffix: &str,
    abi_tag: Option<&str>,
    pointer: usize,
) -> (r: SysconfigEntry)
    ensures
        r@ == spec_row(
            os,
            arch,
            major as nat,
            minor as nat,
            kind,
            abiflags@,
            ext_suffix@,
            match abi_tag {
                Some(t) => Some(t@),
                None => None::<Seq<char>>,
            },
            pointer as nat,
        ),
{
    let tag: Option<String> = match abi_tag {
        Some(t) => Some(String::from_str(t)),
        None => None,
    };
    SysconfigEntry {
        os,
        arch,
        config: Sysconfig {
            major,
            minor,
            interpreter_kind: kind,
            abiflags: String::from_str(abiflags),
            ext_suffix: String::from_str(ext_suffix),
            abi_tag: tag,
            calcsize_pointer: pointer,
        },
    }
}

/// The well-known runtime configurations, one entry per
/// (operating system, architecture, major, minor) key.
pub fn wellknown_sysconfig() -> (r: Vec<SysconfigEntry>)
    ensures
        entries_view(r@) == spec_wellknown(),
{
    let mut v: Vec<SysconfigEntry> = Vec::new();
    v.push(entry(Os::Linux, Arch::X86_64, 3, 6, InterpreterKind::CPython, "m",
        ".cpython-36m-x86_64-linux-gnu.so", Some("36m"), 8));
    v.push(entry(Os::Linux, Arch::X86_64, 3, 7, InterpreterKind::CPython, "m",
        ".cpython-37m-x86_64-linux-gnu.so", Some("37m"), 8));
    v.push(entry(Os::Linux, Arch::X86_64, 3, 8, InterpreterKind::CPython, "",
        ".cpython-38-x86_64-linux-gnu.so", Some("38"), 8));
    v.push(entry(Os::Linux, Arch::X86_64, 3, 9, InterpreterKind::CPython, "",
        ".cpython-39-x86_64-linux-gnu.so", Some("39"), 8));
    v.push(entry(Os::Linux, Arch::X86_64, 3, 10, InterpreterKind::CPython, "",
        ".cpython-310-x86_64-linux-gnu.so", Some("310"), 8));
    v.push(entry(Os::Linux, Arch::X86_64, 3, 11, InterpreterKind::CPython, "",
        ".cpython-311-x86_64-linux-gnu.so", Some("311"), 8));
    v.push(entry(Os::Linux, Arch::Aarch64, 3, 9, InterpreterKind::CPython, "",
        ".cpython-39-aarch64-linux-gnu.so", Some("39"), 8));
    v.push(entry(Os::Linux, Arch::Aarch64, 3, 10, InterpreterKind::CPython, "",
        ".cpython-310-aarch64-linux-gnu.so", Some("310"), 8));
    v.push(entry(Os::Windows, Arch::X86_64, 3, 9, InterpreterKind::CPython, "",
        ".pyd", None, 8));
    v.push(entry(Os::Windows, Arch::X86_64, 3, 10, InterpreterKind::CPython, "",
        ".pyd", None, 8));
    v.push(entry(Os::Macos, Arch::X86_64, 3, 9, InterpreterKind::CPython, "",
        ".cpython-39-darwin.so", Some("39"), 8));
    v.push(entry(Os::Macos, Arch::X86_64, 3, 10, InterpreterKind::CPython, "",
        ".cpython-310-darwin.so", Some("310"), 8));
    v.push(entry(Os::Macos, Arch::Aarch64, 3, 10, InterpreterKind::CPython, "",
        ".cpython-310-darwin.so", Some("310"), 8));
    proof {
        assert(entries_view(v@) =~= spec_wellknown());
    }
    v
}

/// Whether an entry carries the given key.
pub open spec fn key_matches(e: SysconfigEntryView, os: Os, arch: Arch, major: nat, minor: nat) -> bool {
    e.os == os && e.arch == arch && e.config.major == major && e.config.minor == minor
}

/// First entry of `s` with the given key, if any.
pub open spec fn spec_lookup_in(
    s: Seq<SysconfigEntryView>,
    os: Os,
    arch: Arch,
    major: nat,
    minor: nat,
) -> Option<SysconfigView>
    decreases s.len(),
{
    if s.len() == 0 {
        None
    } else if key_matches(s[0], os, arch, major, minor) {
        Some(s[0].config)
    } else {
        spec_lookup_in(s.drop_first(), os, arch, major, minor)
    }
}

/// The knowledge base lookup, as a pure function of the key alone.
pub open spec fn spec_lookup(os: Os, arch: Arch, major: nat, minor: nat) -> Option<SysconfigView> {
    spec_lookup_in(spec_wellknown(), os, arch, major, minor)
}

impl Sysconfig {
    /// A copy of this row, equal to it field by field.
    pub fn duplicate(&self) -> (r: Sysconfig)
        ensures
            r == *self,
    {
        Sysconfig {
            major: self.major,
            minor: self.minor,
            interpreter_kind: self.interpreter_kind,
            abiflags: self.abiflags.clone(),
            ext_suffix: self.ext_suffix.clone(),
            abi_tag: match &self.abi_tag {
                Some(t) => Some(t.clone()),
                None => None,
            },
            calcsize_pointer: self.calcsize_pointer,
        }
    }

    /// Looks a well-known configuration up by operating system, architecture
    /// and runtime version. Returns the matching row, or `None` when the
    /// table has no entry for that key; never a default.
    ///
    /// The contract pins the result to `spec_lookup`, a function of the key
    /// alone: equal keys give equal results (or the same absence), whatever
    /// was looked up before — there is no hidden state to mutate.
    pub fn lookup(os: Os, arch: Arch, python_version: (usize, usize)) -> (r: Option<Sysconfig>)
        ensures
            match r {
                Some(c) => Some(c@) == spec_lookup(os, arch, python_version.0 as nat, python_version.1 as nat),
                None => spec_lookup(os, arch, python_version.0 as nat, python_version.1 as nat) is None,
            },
    {
        let major = python_version.0;
        let minor = python_version.1;
        let table = wellknown_sysconfig();
        let ghost full = entries_view(table@);
        proof {
            assert(full.skip(0) =~= full);
        }
        let mut i: usize = 0;
        while i < table.len()
            invariant
                0 <= i <= table.len(),
                major == python_version.0,
                minor == python_version.1,
                full == entries_view(table@),
                full == spec_wellknown(),
                full.len() == table@.len(),
                forall|j: int| 0 <= j < table@.len() ==> full[j] == #[trigger] table@[j]@,
                spec_lookup(os, arch, major as nat, minor as nat) == spec_lookup_in(
                    full.skip(i as int),
                    os,
                    arch,
                    major as nat,
                    minor as nat,
                ),
            decreases table.len() - i,
        {
            let e = &table[i];
            proof {
                assert(full.skip(i as int)[0] == full[i as int]);
                assert(full.skip(i as int).drop_first() =~= full.skip(i as int + 1));
            }
            if e.os == os && e.arch == arch && e.config.major == major && e.config.minor == minor {
                proof {
                    assert(key_matches(full[i as int], os, arch, major as nat, minor as nat));
                }
                return Some(e.config.duplicate());
            }
            i = i + 1;
        }
        proof {
            assert(full.skip(table@.len() as int) =~= Seq::<SysconfigEntryView>::empty());
        }
        None
    }

    /// Renders the configuration block the binding layer's own build step
    /// reads in place of runtime introspection: fixed keys, fixed order,
    /// `key=value` lines. The text is a function of the row's fields alone,
    /// so it is byte-stable for a fixed configuration.
    pub fn pyo3_config_file(&self) -> (r: String)
        ensures
            r@ == spec_pyo3_config_file(self@),
    {
        let mut s = String::from_str("implementation=");
        s.append(kind_name(self.interpreter_kind));
        s.append("\nversion=");
        let major = decimal_string(self.major);
        s.append(major.as_str());
        s.append(".");
        let minor = decimal_string(self.minor);
        s.append(minor.as_str());
        s.append("\nshared=true\nabi3=false\npointer_width=");
        let pointer = decimal_string(self.calcsize_pointer);
        s.append(pointer.as_str());
        s.append("\nbuild_flags=WITH_THREAD\nsuppress_build_script_link_lines=false");
        proof {
            assert(s@ =~= spec_pyo3_config_file(self@));
        }
        s
    }
}

/// Display name of a runtime implementation.
pub fn kind_name(kind: InterpreterKind) -> (r: &'static str)
    ensures
        r@ == spec_kind_name(kind),
{
    match kind {
        InterpreterKind::CPython => "CPython",
        InterpreterKind::PyPy => "PyPy",
    }
}

/// Specification of `kind_name`.
pub open spec fn spec_kind_name(kind: InterpreterKind) -> Seq<char> {
    match kind {
        InterpreterKind::CPython => "CPython"@,
        InterpreterKind::PyPy => "PyPy"@,
    }
}

/// Specification of the generated configuration block.
pub open spec fn spec_pyo3_config_file(c: SysconfigView) -> Seq<char> {
    "implementation="@ + spec_kind_name(c.interpreter_kind) + "\nversion="@ + spec_decimal(c.major)
        + "."@ + spec_decimal(c.minor) + "\nshared=true\nabi3=false\npointer_width="@
        + spec_decimal(c.calcsize_pointer)
        + "\nbuild_flags=WITH_THREAD\nsuppress_build_script_link_lines=false"@
}

/// The knowledge base holds at most one row per key, so a lookup never has
/// to choose between two configurations.
pub proof fn lemma_wellknown_keys_unique()
    ensures
        forall|i: int, j: int|
            0 <= i < j < spec_wellknown().len() ==> !(#[trigger] key_matches(
                spec_wellknown()[i],
                spec_wellknown()[j].os,
                spec_wellknown()[j].arch,
                spec_wellknown()[j].config.major,
                spec_wellknown()[j].config.minor,
            )),
{
}

} // verus!
