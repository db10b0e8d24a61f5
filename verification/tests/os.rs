use tauri_wasm::plugin::os;
use tauri_wasm::plugin::os::Arch;
use tauri_wasm::plugin::os::OsKind;
use tauri_wasm::plugin::os::Platform;
use tauri_wasm::Error;

#[test]
fn arch_names() {
    assert_eq!(Arch::X86_64.name(), "x86_64");
    assert_eq!(Arch::Aarch64.name(), "aarch64");
    assert_eq!(Arch::S390x.name(), "s390x");
}

#[test]
fn arch_parse() {
    assert_eq!(Arch::parse("arm"), Some(Arch::Arm));
    assert_eq!(Arch::parse("powerpc64"), Some(Arch::Powerpc64));
    assert_eq!(Arch::parse("amiga"), None);
    assert_eq!(Arch::parse(""), None);
    assert_eq!(Arch::parse("X86"), None);
}

#[test]
fn arch_name_round_trip() {
    let all = [
        Arch::X86,
        Arch::X86_64,
        Arch::Arm,
        Arch::Aarch64,
        Arch::Mips,
        Arch::Mips64,
        Arch::Powerpc,
        Arch::Powerpc64,
        Arch::Riscv64,
        Arch::S390x,
        Arch::Sparc64,
    ];
    for a in all {
        assert_eq!(Arch::parse(a.name()), Some(a));
    }
}

#[test]
fn platform_names() {
    assert_eq!(Platform::Linux.name(), "linux");
    assert_eq!(Platform::Dragonfly.name(), "dragonfly");
    assert_eq!(Platform::Windows.name(), "windows");
}

#[test]
fn platform_parse() {
    assert_eq!(Platform::parse("macos"), Some(Platform::Macos));
    assert_eq!(Platform::parse("solaris"), Some(Platform::Solaris));
    assert_eq!(Platform::parse("beos"), None);
}

#[test]
fn platform_name_round_trip() {
    let all = [
        Platform::Linux,
        Platform::Macos,
        Platform::Ios,
        Platform::Freebsd,
        Platform::Dragonfly,
        Platform::Netbsd,
        Platform::Openbsd,
        Platform::Solaris,
        Platform::Android,
        Platform::Windows,
    ];
    for p in all {
        assert_eq!(Platform::parse(p.name()), Some(p));
    }
}

#[test]
fn os_kind_name_round_trip() {
    let all = [OsKind::Linux, OsKind::Windows, OsKind::Macos, OsKind::Ios, OsKind::Android];
    for k in all {
        assert_eq!(OsKind::parse(k.name()), Some(k));
    }
    assert_eq!(OsKind::parse("freebsd"), None);
}

#[test]
fn arch_from_name_ok_and_err() {
    assert_eq!(os::arch_from_name("riscv64"), Ok(Arch::Riscv64));
    assert_eq!(
        os::arch_from_name("amiga"),
        Err(Error::Serde(String::from("unknown value: amiga")))
    );
}

#[test]
fn platform_from_name_ok_and_err() {
    assert_eq!(os::platform_from_name("openbsd"), Ok(Platform::Openbsd));
    assert_eq!(
        os::platform_from_name("plan9"),
        Err(Error::Serde(String::from("unknown value: plan9")))
    );
}

#[test]
fn os_kind_from_name_ok_and_err() {
    assert_eq!(os::os_kind_from_name("windows"), Ok(OsKind::Windows));
    assert_eq!(
        os::os_kind_from_name("netbsd"),
        Err(Error::Serde(String::from("unknown value: netbsd")))
    );
}
