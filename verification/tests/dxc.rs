use naga::dxc::{
    cache_subdir, is_supported_target, link_lib_directive, project_url, release_download_url,
    release_file_url, target_triple, unsupported_target_message,
};

#[test]
fn project_url_names_the_compiler() {
    assert_eq!(project_url(), "https://github.com/hexops/mach-dxcompiler");
}

#[test]
fn triple_joins_with_hyphens() {
    assert_eq!(target_triple("x86_64", "linux", Some("gnu")), "x86_64-linux-gnu");
    assert_eq!(target_triple("aarch64", "macos", None), "aarch64-macos-none");
    assert_eq!(target_triple("x86_64", "macos", Some("")), "x86_64-macos-");
}

#[test]
fn supported_targets() {
    for t in [
        "x86_64-linux-gnu",
        "x86_64-linux-musl",
        "aarch64-linux-gnu",
        "aarch64-linux-musl",
        "x86_64-windows-gnu",
        "aarch64-windows-gnu",
        "x86_64-macos-none",
        "aarch64-macos-none",
    ] {
        assert!(is_supported_target(t), "{t}");
    }
    for t in ["x86_64-windows-msvc", "riscv64-linux-gnu", "x86_64-macos-", "", "x86_64-linux-gnux"] {
        assert!(!is_supported_target(t), "{t}");
    }
}

#[test]
fn release_url_of_a_triple() {
    assert_eq!(
        release_file_url("aarch64-linux-gnu"),
        "https://github.com/hexops/mach-dxcompiler/releases/download/2024.10.16+da605cf.1/aarch64-linux-gnu_ReleaseFast_lib.tar.gz"
    );
}

#[test]
fn download_url_for_a_supported_target() {
    assert_eq!(
        release_download_url("x86_64", "windows", Some("gnu")),
        Ok("https://github.com/hexops/mach-dxcompiler/releases/download/2024.10.16+da605cf.1/x86_64-windows-gnu_ReleaseFast_lib.tar.gz".to_string())
    );
    assert_eq!(
        release_download_url("aarch64", "macos", None),
        Ok("https://github.com/hexops/mach-dxcompiler/releases/download/2024.10.16+da605cf.1/aarch64-macos-none_ReleaseFast_lib.tar.gz".to_string())
    );
}

#[test]
fn download_url_for_an_unsupported_target() {
    assert_eq!(
        release_download_url("x86_64", "windows", Some("msvc")),
        Err("Unsupported target: x86_64-windows-msvc\nCheck support targets on https://github.com/hexops/mach-dxcompiler".to_string())
    );
    assert_eq!(
        unsupported_target_message("wasm32-unknown-none"),
        "Unsupported target: wasm32-unknown-none\nCheck support targets on https://github.com/hexops/mach-dxcompiler"
    );
}

#[test]
fn cache_and_link_names() {
    assert_eq!(cache_subdir(), "mach-dxcompiler-sys");
    assert_eq!(link_lib_directive(), "cargo::rustc-link-lib=machdxcompiler");
}
