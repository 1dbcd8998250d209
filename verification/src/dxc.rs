//! Where the prebuilt DXC shader compiler library comes from: the target
//! triple of the build, which triples have a prebuilt release, and the URL of
//! the release archive for a triple.

use vstd::prelude::*;
use crate::text::str_eq;

verus! {

/// The URL of the project that publishes the prebuilt compiler.
pub open spec fn project_url_spec() -> Seq<char> {
    "https://github.com/hexops/mach-"@ + "dxcompiler"@
}

/// The release whose archives are downloaded.
pub open spec fn release_spec() -> Seq<char> {
    "2024.10.16+da605cf.1"@
}

/// The environment part of a triple: the one the build names, else `none`.
pub open spec fn abi_spec(abi: Option<Seq<char>>) -> Seq<char> {
    match abi {
        Some(a) => a,
        None => "none"@,
    }
}

/// `arch-os-abi`.
pub open spec fn triple_spec(arch: Seq<char>, os: Seq<char>, abi: Option<Seq<char>>) -> Seq<char> {
    arch + "-"@ + os + "-"@ + abi_spec(abi)
}

/// The triples for which a prebuilt release exists.
pub open spec fn supported_triples() -> Seq<Seq<char>> {
    seq![
        "x86_64-linux-gnu"@,
        "x86_64-linux-musl"@,
        "aarch64-linux-gnu"@,
        "aarch64-linux-musl"@,
        "x86_64-windows-gnu"@,
        "aarch64-windows-gnu"@,
        "x86_64-macos-none"@,
        "aarch64-macos-none"@,
    ]
}

/// The URL of the release archive for `triple`.
pub open spec fn release_url_spec(triple: Seq<char>) -> Seq<char> {
    project_url_spec() + "/releases/download/"@ + release_spec() + "/"@ + triple
        + "_ReleaseFast_lib.tar.gz"@
}

/// What the build reports when `triple` has no prebuilt release.
pub open spec fn unsupported_message_spec(triple: Seq<char>) -> Seq<char> {
    "Unsupported target: "@ + triple + "\nCheck support targets on "@ + project_url_spec()
}

/// The target triple keeps each part verbatim: the architecture, a hyphen,
/// the operating system, a hyphen, then the environment as given, or `none`
/// when none is given. The environment is the triple's last characters.
pub proof fn lemma_triple_parts(arch: Seq<char>, os: Seq<char>, abi: Option<Seq<char>>)
    ensures
        forall|a: Seq<char>|
            abi == Some(a) ==> triple_spec(arch, os, abi) == arch + seq!['-'] + os + seq!['-']
                + a,
        abi is None ==> triple_spec(arch, os, abi) == arch + seq!['-'] + os + seq!['-'] + seq![
            'n',
            'o',
            'n',
            'e',
        ],
        forall|a: Seq<char>|
            abi == Some(a) ==> #[trigger] triple_spec(arch, os, abi).subrange(
                (arch.len() + os.len() + 2) as int,
                triple_spec(arch, os, abi).len() as int,
            ) == a,
        triple_spec(arch, os, abi).subrange(0, arch.len() as int) == arch,
{
    reveal_strlit("-");
    reveal_strlit("none");
    assert("-"@ =~= seq!['-']);
    assert("none"@ =~= seq!['n', 'o', 'n', 'e']);
    let t = triple_spec(arch, os, abi);
    assert(t.subrange(0, arch.len() as int) =~= arch);
    assert forall|a: Seq<char>| abi == Some(a) implies #[trigger] triple_spec(arch, os, abi).subrange(
        (arch.len() + os.len() + 2) as int,
        triple_spec(arch, os, abi).len() as int,
    ) == a by {
        assert(t.subrange((arch.len() + os.len() + 2) as int, t.len() as int) =~= a);
    }
}

/// A prebuilt release exists for exactly eight triples: `x86_64` and `aarch64`
/// on Linux with glibc or musl, on Windows with the GNU toolchain, and on
/// macOS. Any other triple, for instance one for the MSVC toolchain, has none.
pub proof fn lemma_supported_triples_exactly()
    ensures
        supported_triples().len() == 8,
        forall|t: Seq<char>|
            supported_triples().contains(t) <==> (t == "x86_64-linux-gnu"@ || t
                == "x86_64-linux-musl"@ || t == "aarch64-linux-gnu"@ || t == "aarch64-linux-musl"@
                || t == "x86_64-windows-gnu"@ || t == "aarch64-windows-gnu"@ || t
                == "x86_64-macos-none"@ || t == "aarch64-macos-none"@),
{
    let s = supported_triples();
    assert forall|t: Seq<char>|
        s.contains(t) <==> (t == "x86_64-linux-gnu"@ || t == "x86_64-linux-musl"@ || t
            == "aarch64-linux-gnu"@ || t == "aarch64-linux-musl"@ || t == "x86_64-windows-gnu"@
            || t == "aarch64-windows-gnu"@ || t == "x86_64-macos-none"@ || t
            == "aarch64-macos-none"@) by {
        if t == "x86_64-linux-gnu"@ {
            assert(s[0] == t);
        } else if t == "x86_64-linux-musl"@ {
            assert(s[1] == t);
        } else if t == "aarch64-linux-gnu"@ {
            assert(s[2] == t);
        } else if t == "aarch64-linux-musl"@ {
            assert(s[3] == t);
        } else if t == "x86_64-windows-gnu"@ {
            assert(s[4] == t);
        } else if t == "aarch64-windows-gnu"@ {
            assert(s[5] == t);
        } else if t == "x86_64-macos-none"@ {
            assert(s[6] == t);
        } else if t == "aarch64-macos-none"@ {
            assert(s[7] == t);
        }
    }
}

/// Every release archive URL follows one template: the same prefix, naming
/// the project and the release, for every triple, then the triple, then
/// `_ReleaseFast_lib.tar.gz`.
pub proof fn lemma_release_url_template(triple: Seq<char>)
    ensures
        release_url_spec(triple)
            == "https://github.com/hexops/mach-dxcompiler/releases/download/2024.10.16+da605cf.1/"@
            + triple + "_ReleaseFast_lib.tar.gz"@,
{
    reveal_strlit("https://github.com/hexops/mach-");
    reveal_strlit("dxcompiler");
    reveal_strlit("/releases/download/");
    reveal_strlit("2024.10.16+da605cf.1");
    reveal_strlit("/");
    reveal_strlit("https://github.com/hexops/mach-dxcompiler/releases/download/2024.10.16+da605cf.1/");
    assert("https://github.com/hexops/mach-"@ + "dxcompiler"@ + "/releases/download/"@
        + "2024.10.16+da605cf.1"@ + "/"@
        =~= "https://github.com/hexops/mach-dxcompiler/releases/download/2024.10.16+da605cf.1/"@);
    assert(release_url_spec(triple)
        =~= "https://github.com/hexops/mach-dxcompiler/releases/download/2024.10.16+da605cf.1/"@
        + triple + "_ReleaseFast_lib.tar.gz"@);
}

/// The URL of the project that publishes the prebuilt compiler.
pub fn project_url() -> (r: String)
    ensures
        r@ == project_url_spec(),
{
    let mut url = String::from_str("https://github.com/hexops/mach-");
    url.append("dxcompiler");
    url
}

/// The target triple `arch-os-abi`, where a missing `abi` reads `none`.
pub fn target_triple(arch: &str, os: &str, abi: Option<&str>) -> (r: String)
    ensures
        r@ == triple_spec(
            arch@,
            os@,
            match abi {
                Some(a) => Some(a@),
                None => None,
            },
        ),
{
    let mut triple = String::from_str(arch);
    triple.append("-");
    triple.append(os);
    triple.append("-");
    match abi {
        Some(a) => triple.append(a),
        None => triple.append("none"),
    }
    triple
}

/// Whether a prebuilt release exists for `triple`.
pub fn is_supported_target(triple: &str) -> (r: bool)
    ensures
        r == supported_triples().contains(triple@),
{
    let ghost s = supported_triples();
    let found = str_eq(triple, "x86_64-linux-gnu") || str_eq(triple, "x86_64-linux-musl")
        || str_eq(triple, "aarch64-linux-gnu") || str_eq(triple, "aarch64-linux-musl")
        || str_eq(triple, "x86_64-windows-gnu") || str_eq(triple, "aarch64-windows-gnu")
        || str_eq(triple, "x86_64-macos-none") || str_eq(triple, "aarch64-macos-none");
    proof {
        if found {
            assert(s.contains(triple@)) by {
                if triple@ == s[0] {
                } else if triple@ == s[1] {
                } else if triple@ == s[2] {
                } else if triple@ == s[3] {
                } else if triple@ == s[4] {
                } else if triple@ == s[5] {
                } else if triple@ == s[6] {
                } else {
                    assert(triple@ == s[7]);
                }
            }
        } else {
            assert forall|i: int| 0 <= i < s.len() implies s[i] != triple@ by {}
        }
    }
    found
}

/// The URL of the release archive for `triple`.
pub fn release_file_url(triple: &str) -> (r: String)
    ensures
        r@ == release_url_spec(triple@),
{
    let mut url = project_url();
    url.append("/releases/download/");
    url.append("2024.10.16+da605cf.1");
    url.append("/");
    url.append(triple);
    url.append("_ReleaseFast_lib.tar.gz");
    url
}

/// What the build reports when `triple` has no prebuilt release.
pub fn unsupported_target_message(triple: &str) -> (r: String)
    ensures
        r@ == unsupported_message_spec(triple@),
{
    let mut msg = String::from_str("Unsupported target: ");
    msg.append(triple);
    msg.append("\nCheck support targets on ");
    let url = project_url();
    msg.append(url.as_str());
    msg
}

/// For the build target `arch`, `os`, `abi`: the URL of the release archive
/// when a prebuilt release exists for its triple, else the message that the
/// build stops with.
pub fn release_download_url(arch: &str, os: &str, abi: Option<&str>) -> (r: Result<String, String>)
    ensures
        ({
            let triple = triple_spec(
                arch@,
                os@,
                match abi {
                    Some(a) => Some(a@),
                    None => None,
                },
            );
            match r {
                Ok(url) => supported_triples().contains(triple) && url@ == release_url_spec(triple),
                Err(msg) => !supported_triples().contains(triple) && msg@
                    == unsupported_message_spec(triple),
            }
        }),
{
    let triple = target_triple(arch, os, abi);
    if is_supported_target(triple.as_str()) {
        Ok(release_file_url(triple.as_str()))
    } else {
        Err(unsupported_target_message(triple.as_str()))
    }
}

/// The subdirectory of the download cache that the archive is unpacked into.
pub fn cache_subdir() -> (r: String)
    ensures
        r@ == "mach-dxcompiler-sys"@,
{
    String::from_str("mach-dxcompiler-sys")
}

/// The build-script directive that links the compiler library.
pub fn link_lib_directive() -> (r: String)
    ensures
        r@ == "cargo::rustc-link-lib=machdxcompiler"@,
{
    String::from_str("cargo::rustc-link-lib=machdxcompiler")
}

} // verus!
