use pyo3_pack::Arch;
use pyo3_pack::InterpreterKind;
use pyo3_pack::Os;
use pyo3_pack::Sysconfig;
use pyo3_pack::decimal_string;
use pyo3_pack::wellknown_sysconfig;

#[test]
fn test_load_sysconfig() {
    let linux_sysconfig: Vec<_> = wellknown_sysconfig()
        .into_iter()
        .filter(|e| e.os == Os::Linux)
        .collect();
    assert!(linux_sysconfig.iter().any(|e| e.arch == Arch::X86_64));
}

#[test]
fn test_pyo3_config_file() {
    let sysconfig = Sysconfig::lookup(Os::Linux, Arch::X86_64, (3, 10)).unwrap();
    let config_file = sysconfig.pyo3_config_file();
    assert_eq!(config_file, "implementation=CPython\nversion=3.10\nshared=true\nabi3=false\npointer_width=8\nbuild_flags=WITH_THREAD\nsuppress_build_script_link_lines=false");
}

#[test]
fn lookup_absent_key_is_none() {
    assert!(Sysconfig::lookup(Os::Windows, Arch::Aarch64, (3, 10)).is_none());
    assert!(Sysconfig::lookup(Os::Linux, Arch::X86_64, (2, 7)).is_none());
}

#[test]
fn lookup_same_key_twice_gives_same_row() {
    let first = Sysconfig::lookup(Os::Macos, Arch::X86_64, (3, 9)).unwrap();
    let second = Sysconfig::lookup(Os::Macos, Arch::X86_64, (3, 9)).unwrap();
    assert_eq!(first.major, second.major);
    assert_eq!(first.minor, second.minor);
    assert_eq!(first.interpreter_kind, second.interpreter_kind);
    assert_eq!(first.abiflags, second.abiflags);
    assert_eq!(first.ext_suffix, second.ext_suffix);
    assert_eq!(first.abi_tag, second.abi_tag);
    assert_eq!(first.calcsize_pointer, second.calcsize_pointer);
}

#[test]
fn lookup_returns_the_requested_version() {
    let sysconfig = Sysconfig::lookup(Os::Linux, Arch::X86_64, (3, 7)).unwrap();
    assert_eq!(sysconfig.major, 3);
    assert_eq!(sysconfig.minor, 7);
    assert_eq!(sysconfig.abiflags, "m");
    assert_eq!(sysconfig.abi_tag.as_deref(), Some("37m"));
}

#[test]
fn windows_rows_have_no_abi_tag() {
    let sysconfig = Sysconfig::lookup(Os::Windows, Arch::X86_64, (3, 9)).unwrap();
    assert!(sysconfig.abi_tag.is_none());
    assert_eq!(sysconfig.ext_suffix, ".pyd");
}

#[test]
fn config_file_renders_pypy_name() {
    let sysconfig = Sysconfig {
        major: 3,
        minor: 8,
        interpreter_kind: InterpreterKind::PyPy,
        abiflags: String::new(),
        ext_suffix: String::from(".pypy38-pp73-x86_64-linux-gnu.so"),
        abi_tag: Some(String::from("pp38")),
        calcsize_pointer: 8,
    };
    let config_file = sysconfig.pyo3_config_file();
    assert!(config_file.starts_with("implementation=PyPy\nversion=3.8\n"));
}

#[test]
fn decimal_rendering_is_exact() {
    assert_eq!(decimal_string(0), "0");
    assert_eq!(decimal_string(7), "7");
    assert_eq!(decimal_string(10), "10");
    assert_eq!(decimal_string(311), "311");
    assert_eq!(decimal_string(1004), "1004");
}
