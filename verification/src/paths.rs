//! The fixed path constants and the path-joining rule that every candidate
//! is built from.

use vstd::prelude::*;
use vstd::string::*;

verus! {

/// Fixed relative subpath, under the user's local application-cache
/// directory, where the sandboxed (UWP) installer keeps the launcher's files.
pub const UWP_PATH: &'static str = "Packages/Microsoft.4297127D64EC6_8wekyb3d8bbwe/LocalCache/Local/";

/// The platform's conventional default install location of the launcher.
pub const PROGRAM_FILES_PATH: &'static str = "C:/Program Files (x86)/Minecraft Launcher/";

/// Name of the windowed Java executable this platform looks for.
pub const PLATFORM_JAVA_EXECUTABLE_NAME: &'static str = "javaw";

/// 64-bit gamma-channel runtime, first in the fixed order.
pub const SUFFIX_GAMMA_X64: &'static str = "runtime/java-runtime-gamma/windows-x64/java-runtime-gamma/bin/javaw.exe";

/// 64-bit beta-channel runtime.
pub const SUFFIX_BETA_X64: &'static str = "runtime/java-runtime-beta/windows-x64/java-runtime-beta/bin/javaw.exe";

/// 64-bit delta-channel runtime.
pub const SUFFIX_DELTA_X64: &'static str = "runtime/java-runtime-delta/windows-x64/java-runtime-delta/bin/javaw.exe";

/// 32-bit gamma-channel runtime.
pub const SUFFIX_GAMMA_X86: &'static str = "runtime/java-runtime-gamma/windows-x86/java-runtime-gamma/bin/javaw.exe";

/// 32-bit beta-channel runtime.
pub const SUFFIX_BETA_X86: &'static str = "runtime/java-runtime-beta/windows-x86/java-runtime-beta/bin/javaw.exe";

/// 32-bit delta-channel runtime, last in the fixed order.
pub const SUFFIX_DELTA_X86: &'static str = "runtime/java-runtime-delta/windows-x86/java-runtime-delta/bin/javaw.exe";

/// A character that separates path components on this platform.
pub open spec fn is_separator(c: char) -> bool {
    c == '/' || c == '\\'
}

/// What joining a root directory with a relative suffix means: the two are
/// concatenated, with a `/` inserted unless the root is empty or already ends
/// in a separator.
pub open spec fn join_spec(root: Seq<char>, suffix: Seq<char>) -> Seq<char> {
    if root.len() == 0 {
        suffix
    } else if is_separator(root.last()) {
        root + suffix
    } else {
        root + "/"@ + suffix
    }
}

/// The six runtime-variant suffixes in their fixed, semantically meaningful
/// order: the three build channels at 64 bit, then the same three at 32 bit.
pub open spec fn suffix_table() -> Seq<Seq<char>> {
    seq![
        SUFFIX_GAMMA_X64@,
        SUFFIX_BETA_X64@,
        SUFFIX_DELTA_X64@,
        SUFFIX_GAMMA_X86@,
        SUFFIX_BETA_X86@,
        SUFFIX_DELTA_X86@,
    ]
}

/// The candidates contributed by one resolved installation root: one per
/// suffix, in the fixed suffix order.
pub open spec fn root_candidates(root: Seq<char>) -> Seq<Seq<char>> {
    suffix_table().map_values(|s: Seq<char>| join_spec(root, s))
}

/// Joins a root directory and a relative suffix into one path string.
pub fn join_path(root: &str, suffix: &str) -> (r: String)
    ensures
        r@ == join_spec(root@, suffix@),
{
    let n = root.unicode_len();
    if n == 0 {
        return suffix.to_owned();
    }
    let last = root.get_char(n - 1);
    let mut out = root.to_owned();
    if !(last == '/' || last == '\\') {
        out.append("/");
    }
    out.append(suffix);
    out
}

/// The six runtime-variant suffixes as an executable table, in the same
/// fixed order that `suffix_table` gives them.
pub fn runtime_suffixes() -> (r: Vec<&'static str>)
    ensures
        r@.len() == suffix_table().len(),
        forall|i: int| 0 <= i < r@.len() ==> r@[i]@ == suffix_table()[i],
{
    let mut v: Vec<&'static str> = Vec::new();
    v.push(SUFFIX_GAMMA_X64);
    v.push(SUFFIX_BETA_X64);
    v.push(SUFFIX_DELTA_X64);
    v.push(SUFFIX_GAMMA_X86);
    v.push(SUFFIX_BETA_X86);
    v.push(SUFFIX_DELTA_X86);
    v
}

} // verus!
