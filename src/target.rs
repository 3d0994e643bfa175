use vstd::prelude::*;
use vstd::string::*;

verus! {

/// The target triples that have a package of their own.
pub open spec fn supported(target: Seq<char>) -> bool {
    ||| target == "x86_64-apple-darwin"@
    ||| target == "aarch64-apple-darwin"@
    ||| target == "x86_64-unknown-linux-gnu"@
    ||| target == "x86_64-unknown-linux-musl"@
    ||| target == "aarch64-unknown-linux-gnu"@
    ||| target == "aarch64-unknown-linux-musl"@
    ||| target == "x86_64-pc-windows-msvc"@
    ||| target == "x86_64-pc-windows-gnu"@
    ||| target == "i686-pc-windows-msvc"@
    ||| target == "i686-pc-windows-gnu"@
    ||| target == "armv7-unknown-linux-gnueabihf"@
    ||| target == "arm-unknown-linux-gnueabihf"@
}

/// The package taken for a target triple that has none of its own.
pub open spec fn default_binary_name() -> Seq<char> {
    "HiGHS.v1.11.0.x86_64-linux-gnu.tar.gz"@
}

/// The file name of the package for `target`.
pub open spec fn binary_name_of(target: Seq<char>) -> Seq<char> {
    if target == "x86_64-apple-darwin"@ {
        "HiGHS.v1.11.0.x86_64-apple-darwin.tar.gz"@
    } else if target == "aarch64-apple-darwin"@ {
        "HiGHS.v1.11.0.aarch64-apple-darwin.tar.gz"@
    } else if target == "x86_64-unknown-linux-gnu"@ {
        "HiGHS.v1.11.0.x86_64-linux-gnu-cxx11.tar.gz"@
    } else if target == "x86_64-unknown-linux-musl"@ {
        "HiGHS.v1.11.0.x86_64-linux-musl-cxx11.tar.gz"@
    } else if target == "aarch64-unknown-linux-gnu"@ {
        "HiGHS.v1.11.0.aarch64-linux-gnu-cxx11.tar.gz"@
    } else if target == "aarch64-unknown-linux-musl"@ {
        "HiGHS.v1.11.0.aarch64-linux-musl-cxx11.tar.gz"@
    } else if target == "x86_64-pc-windows-msvc"@ || target == "x86_64-pc-windows-gnu"@ {
        "HiGHS.v1.11.0.x86_64-w64-mingw32-cxx11.tar.gz"@
    } else if target == "i686-pc-windows-msvc"@ || target == "i686-pc-windows-gnu"@ {
        "HiGHS.v1.11.0.i686-w64-mingw32-cxx11.tar.gz"@
    } else if target == "armv7-unknown-linux-gnueabihf"@ {
        "HiGHS.v1.11.0.armv7l-linux-gnueabihf-cxx11.tar.gz"@
    } else if target == "arm-unknown-linux-gnueabihf"@ {
        "HiGHS.v1.11.0.armv6l-linux-gnueabihf-cxx11.tar.gz"@
    } else {
        default_binary_name()
    }
}

/// Where the packages of all targets are published.
pub open spec fn base_url() -> Seq<char> {
    "https://github.com/JuliaBinaryWrappers/HiGHS_jll.jl/releases/download"@
}

/// The release directory of the pinned version (`HiGHS-v1.11.0+1`, with the
/// `+` percent-encoded).
pub open spec fn release_dir() -> Seq<char> {
    "HiGHS-v1.11.0%2B1"@
}

/// The URL of the package for `target`: `<base>/<release>/<file name>`.
pub open spec fn url_of(target: Seq<char>) -> Seq<char> {
    base_url() + "/"@ + release_dir() + "/"@ + binary_name_of(target)
}

/// Whether `a` and `b` hold the same text, compared byte by byte.
fn same_text(a: &str, b: &str) -> (r: bool)
    ensures
        r == (a@ == b@),
{
    let x = a.as_bytes();
    let y = b.as_bytes();
    if x.len() != y.len() {
        return false;
    }
    let mut i: usize = 0;
    while i < x.len()
        invariant
            x@ == a.spec_bytes(),
            y@ == b.spec_bytes(),
            x@.len() == y@.len(),
            i <= x@.len(),
            forall|k: int| 0 <= k < i ==> x@[k] == y@[k],
        decreases x@.len() - i,
    {
        if x[i] != y[i] {
            return false;
        }
        i = i + 1;
    }
    proof {
        assert(x@ =~= y@);
        vstd::utf8::encode_utf8_decode_utf8(a@);
        vstd::utf8::encode_utf8_decode_utf8(b@);
    }
    true
}

/// Whether `target` has a package of its own. For any other target
/// `binary_name` falls back to the default package, and a build should warn.
pub fn is_supported_target(target: &str) -> (r: bool)
    ensures
        r == supported(target@),
{
    same_text(target, "x86_64-apple-darwin")
        || same_text(target, "aarch64-apple-darwin")
        || same_text(target, "x86_64-unknown-linux-gnu")
        || same_text(target, "x86_64-unknown-linux-musl")
        || same_text(target, "aarch64-unknown-linux-gnu")
        || same_text(target, "aarch64-unknown-linux-musl")
        || same_text(target, "x86_64-pc-windows-msvc")
        || same_text(target, "x86_64-pc-windows-gnu")
        || same_text(target, "i686-pc-windows-msvc")
        || same_text(target, "i686-pc-windows-gnu")
        || same_text(target, "armv7-unknown-linux-gnueabihf")
        || same_text(target, "arm-unknown-linux-gnueabihf")
}

/// The file name of the package to download for the target triple `target`.
pub fn binary_name(target: &str) -> (r: &'static str)
    ensures
        r@ == binary_name_of(target@),
{
    if same_text(target, "x86_64-apple-darwin") {
        "HiGHS.v1.11.0.x86_64-apple-darwin.tar.gz"
    } else if same_text(target, "aarch64-apple-darwin") {
        "HiGHS.v1.11.0.aarch64-apple-darwin.tar.gz"
    } else if same_text(target, "x86_64-unknown-linux-gnu") {
        "HiGHS.v1.11.0.x86_64-linux-gnu-cxx11.tar.gz"
    } else if same_text(target, "x86_64-unknown-linux-musl") {
        "HiGHS.v1.11.0.x86_64-linux-musl-cxx11.tar.gz"
    } else if same_text(target, "aarch64-unknown-linux-gnu") {
        "HiGHS.v1.11.0.aarch64-linux-gnu-cxx11.tar.gz"
    } else if same_text(target, "aarch64-unknown-linux-musl") {
        "HiGHS.v1.11.0.aarch64-linux-musl-cxx11.tar.gz"
    } else if same_text(target, "x86_64-pc-windows-msvc") || same_text(target, "x86_64-pc-windows-gnu") {
        "HiGHS.v1.11.0.x86_64-w64-mingw32-cxx11.tar.gz"
    } else if same_text(target, "i686-pc-windows-msvc") || same_text(target, "i686-pc-windows-gnu") {
        "HiGHS.v1.11.0.i686-w64-mingw32-cxx11.tar.gz"
    } else if same_text(target, "armv7-unknown-linux-gnueabihf") {
        "HiGHS.v1.11.0.armv7l-linux-gnueabihf-cxx11.tar.gz"
    } else if same_text(target, "arm-unknown-linux-gnueabihf") {
        "HiGHS.v1.11.0.armv6l-linux-gnueabihf-cxx11.tar.gz"
    } else {
        "HiGHS.v1.11.0.x86_64-linux-gnu.tar.gz"
    }
}

/// The URL of the package to download for the target triple `target`.
pub fn download_url(target: &str) -> (r: String)
    ensures
        r@ == url_of(target@),
{
    let mut url = String::from_str("https://github.com/JuliaBinaryWrappers/HiGHS_jll.jl/releases/download");
    url.append("/");
    url.append("HiGHS-v1.11.0%2B1");
    url.append("/");
    url.append(binary_name(target));
    url
}

/// Every target triple resolves to a non-empty file name, and equal triples
/// to equal file names.
pub proof fn lemma_binary_name_well_defined(a: Seq<char>, b: Seq<char>)
    requires
        a == b,
    ensures
        binary_name_of(a).len() > 0,
        binary_name_of(a) == binary_name_of(b),
{
    reveal_strlit("HiGHS.v1.11.0.x86_64-apple-darwin.tar.gz");
    reveal_strlit("HiGHS.v1.11.0.aarch64-apple-darwin.tar.gz");
    reveal_strlit("HiGHS.v1.11.0.x86_64-linux-gnu-cxx11.tar.gz");
    reveal_strlit("HiGHS.v1.11.0.x86_64-linux-musl-cxx11.tar.gz");
    reveal_strlit("HiGHS.v1.11.0.aarch64-linux-gnu-cxx11.tar.gz");
    reveal_strlit("HiGHS.v1.11.0.aarch64-linux-musl-cxx11.tar.gz");
    reveal_strlit("HiGHS.v1.11.0.x86_64-w64-mingw32-cxx11.tar.gz");
    reveal_strlit("HiGHS.v1.11.0.i686-w64-mingw32-cxx11.tar.gz");
    reveal_strlit("HiGHS.v1.11.0.armv7l-linux-gnueabihf-cxx11.tar.gz");
    reveal_strlit("HiGHS.v1.11.0.armv6l-linux-gnueabihf-cxx11.tar.gz");
    reveal_strlit("HiGHS.v1.11.0.x86_64-linux-gnu.tar.gz");
}

/// A target triple without a package of its own resolves to the default
/// package.
pub proof fn lemma_unsupported_falls_back(target: Seq<char>)
    requires
        !supported(target),
    ensures
        binary_name_of(target) == default_binary_name(),
{
}

} // verus!
