use mq_update::error::UpdateError;
use mq_update::platform::{get_target_arch, Arch, Libc, Os};
use mq_update::text::{is_white_space, joined, last_token, same_text, strip_leading_v, trim};

#[test]
fn same_text_compares_characters() {
    assert!(same_text("0.5.12", "0.5.12"));
    assert!(!same_text("0.5.2", "0.5.12"));
    assert!(!same_text("abc", "abd"));
    assert!(same_text("", ""));
}

#[test]
fn joined_concatenates() {
    assert_eq!(joined("mq-", "check"), "mq-check");
    assert_eq!(joined("", "x"), "x");
}

#[test]
fn trim_removes_surrounding_whitespace() {
    assert_eq!(trim("  y \n"), "y");
    assert_eq!(trim("\t\n "), "");
    assert_eq!(trim("a b"), "a b");
    assert_eq!(trim("\u{3000}x\u{a0}"), "x");
}

#[test]
fn last_token_takes_the_final_word() {
    assert_eq!(last_token("mq 0.5.12").as_deref(), Some("0.5.12"));
    assert_eq!(last_token("mq-check 0.1.0\n").as_deref(), Some("0.1.0"));
    assert_eq!(last_token("single").as_deref(), Some("single"));
    assert_eq!(last_token("  \n\t"), None);
    assert_eq!(last_token(""), None);
}

#[test]
fn strip_leading_v_removes_every_leading_v() {
    assert_eq!(strip_leading_v("v0.5.12"), "0.5.12");
    assert_eq!(strip_leading_v("vv1"), "1");
    assert_eq!(strip_leading_v("0.5.12"), "0.5.12");
    assert_eq!(strip_leading_v("1.0v"), "1.0v");
}

#[test]
fn platform_names_are_read() {
    assert_eq!(Os::from_name("macos"), Os::MacOs);
    assert_eq!(Os::from_name("linux"), Os::Linux);
    assert_eq!(Os::from_name("windows"), Os::Windows);
    assert_eq!(Os::from_name("freebsd"), Os::Other);
    assert_eq!(Arch::from_name("x86_64"), Arch::X86_64);
    assert_eq!(Arch::from_name("aarch64"), Arch::Aarch64);
    assert_eq!(Arch::from_name("riscv64"), Arch::Other);
    assert_eq!(Libc::from_name("gnu"), Libc::Gnu);
    assert_eq!(Libc::from_name("musl"), Libc::Musl);
    assert_eq!(Libc::from_name(""), Libc::Other);
}

fn triple(os: Os, arch: Arch, libc: Libc) -> String {
    match get_target_arch(os, arch, libc) {
        Ok(t) => t,
        Err(_) => panic!("unsupported"),
    }
}

#[test]
fn triples_for_supported_hosts() {
    assert_eq!(triple(Os::MacOs, Arch::Aarch64, Libc::Other), "aarch64-apple-darwin");
    assert_eq!(triple(Os::MacOs, Arch::X86_64, Libc::Other), "x86_64-apple-darwin");
    assert_eq!(triple(Os::Linux, Arch::X86_64, Libc::Musl), "x86_64-unknown-linux-musl");
    assert_eq!(triple(Os::Linux, Arch::X86_64, Libc::Gnu), "x86_64-unknown-linux-gnu");
    assert_eq!(triple(Os::Linux, Arch::X86_64, Libc::Other), "x86_64-unknown-linux-gnu");
    assert_eq!(triple(Os::Linux, Arch::Aarch64, Libc::Musl), "aarch64-unknown-linux-musl");
    assert_eq!(triple(Os::Linux, Arch::Aarch64, Libc::Gnu), "aarch64-unknown-linux-gnu");
    assert_eq!(triple(Os::Linux, Arch::Aarch64, Libc::Other), "aarch64-unknown-linux-gnu");
    assert_eq!(triple(Os::Windows, Arch::X86_64, Libc::Other), "x86_64-pc-windows-msvc.exe");
}

#[test]
fn unsupported_hosts_are_refused() {
    assert!(matches!(
        get_target_arch(Os::Windows, Arch::Aarch64, Libc::Other),
        Err(UpdateError::UnsupportedPlatform)
    ));
    assert!(matches!(
        get_target_arch(Os::Other, Arch::X86_64, Libc::Gnu),
        Err(UpdateError::UnsupportedPlatform)
    ));
    assert!(matches!(
        get_target_arch(Os::Linux, Arch::Other, Libc::Gnu),
        Err(UpdateError::UnsupportedPlatform)
    ));
}

#[test]
fn white_space_agrees_with_std_on_every_char() {
    for u in 0u32..=0x10FFFF {
        if let Some(c) = char::from_u32(u) {
            assert_eq!(is_white_space(c), c.is_whitespace(), "U+{:04X}", u);
        }
    }
}
