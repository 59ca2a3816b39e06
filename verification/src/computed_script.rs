//! Bundling the scripts of computed fields: which build of the bundler fits
//! the machine, and what of the bundler's complaints is shown.

use vstd::prelude::*;
use crate::text::{concat2, concat3, str_eq};

verus! {

pub const DENO_VERSION: &'static str = "2.5.4";

/// The end of the warning that the bundler prints about itself.
pub open spec fn bundle_warning() -> Seq<u8> {
    seq![
        105u8, 115, 32, 101, 120, 112, 101, 114, 105, 109, 101, 110, 116, 97, 108, 32, 97, 110, 100,
        32, 115, 117, 98, 106, 101, 99, 116, 32, 116, 111, 32, 99, 104, 97, 110, 103, 101, 115,
    ]
}

/// The name of the bundler's executable on an operating system.
pub fn deno_executable(os: &str) -> (r: &'static str)
    ensures
        r@ == if os@ == "windows"@ {
            "deno.exe"@
        } else {
            "deno"@
        },
{
    if str_eq(os, "windows") {
        "deno.exe"
    } else {
        "deno"
    }
}

/// The build of the bundler for a machine, or why there is none.
pub open spec fn platform_of(os: Seq<char>, arch: Seq<char>) -> Result<Seq<char>, Seq<char>> {
    if os == "macos"@ && arch == "x86_64"@ {
        Err("Intel Macs (x86_64) are no longer supported."@)
    } else if os == "macos"@ && arch == "aarch64"@ {
        Ok("aarch64-apple-darwin"@)
    } else if os == "linux"@ && arch == "x86_64"@ {
        Ok("x86_64-unknown-linux-gnu"@)
    } else if os == "windows"@ && arch == "x86_64"@ {
        Ok("x86_64-pc-windows-msvc"@)
    } else {
        Err("Unsupported platform: "@ + os + "-"@ + arch)
    }
}

/// Picks the build of the bundler for a machine.
pub fn deno_platform(os: &str, arch: &str) -> (r: Result<String, String>)
    ensures
        crate::health::text_result_view(r) == platform_of(os@, arch@),
{
    if str_eq(os, "macos") && str_eq(arch, "x86_64") {
        Err("Intel Macs (x86_64) are no longer supported.".to_owned())
    } else if str_eq(os, "macos") && str_eq(arch, "aarch64") {
        Ok("aarch64-apple-darwin".to_owned())
    } else if str_eq(os, "linux") && str_eq(arch, "x86_64") {
        Ok("x86_64-unknown-linux-gnu".to_owned())
    } else if str_eq(os, "windows") && str_eq(arch, "x86_64") {
        Ok("x86_64-pc-windows-msvc".to_owned())
    } else {
        Err(concat2(concat3("Unsupported platform: ", os, "-").as_str(), arch))
    }
}

/// Where the build of the bundler for a platform is downloaded from.
pub fn deno_download_url(platform: &str) -> (r: String)
    ensures
        r@ == ("https://github.com/denoland/deno/releases/download/v"@ + DENO_VERSION@ + "/deno-"@)
            + platform@ + ".zip"@,
{
    concat3(
        concat3(
            "https://github.com/denoland/deno/releases/download/v",
            DENO_VERSION,
            "/deno-",
        ).as_str(),
        platform,
        ".zip",
    )
}

/// The position of the first line feed at or after `from`, or the length of
/// the text where there is none.
pub open spec fn line_end(bytes: Seq<u8>, from: int) -> int
    decreases bytes.len() - from,
{
    if from < 0 || from >= bytes.len() {
        bytes.len() as int
    } else if bytes[from] == 10u8 {
        from
    } else {
        line_end(bytes, from + 1)
    }
}

/// Whether a line ends with `suffix`.
pub open spec fn ends_with(line: Seq<u8>, suffix: Seq<u8>) -> bool {
    line.len() >= suffix.len() && line.subrange(line.len() - suffix.len(), line.len() as int)
        == suffix
}

/// The lines of a text from position `from` on, without the lines that end
/// with `suffix`, joined by line feeds; `first` says that no line was kept
/// before.
pub open spec fn kept_lines(bytes: Seq<u8>, suffix: Seq<u8>, from: int, first: bool) -> Seq<u8>
    decreases bytes.len() - from + 1,
{
    if from < 0 || from > bytes.len() {
        Seq::empty()
    } else {
        let end = line_end(bytes, from);
        let line = bytes.subrange(from, end);
        if end < from || end > bytes.len() {
            Seq::empty()
        } else if ends_with(line, suffix) {
            if end < bytes.len() {
                kept_lines(bytes, suffix, end + 1, first)
            } else {
                Seq::empty()
            }
        } else {
            let shown = if first {
                line
            } else {
                seq![10u8] + line
            };
            if end < bytes.len() {
                shown + kept_lines(bytes, suffix, end + 1, false)
            } else {
                shown
            }
        }
    }
}

/// Whether the bytes of `bytes` from `start` to `end` end with `suffix`.
fn line_ends_with(bytes: &Vec<u8>, start: usize, end: usize, suffix: &Vec<u8>) -> (r: bool)
    requires
        start <= end <= bytes@.len(),
    ensures
        r == ends_with(bytes@.subrange(start as int, end as int), suffix@),
{
    let n = suffix.len();
    if end - start < n {
        return false;
    }
    let ghost line = bytes@.subrange(start as int, end as int);
    let mut i: usize = 0;
    while i < n
        invariant
            i <= n,
            n == suffix@.len(),
            start <= end <= bytes@.len(),
            end - start >= n,
            line == bytes@.subrange(start as int, end as int),
            forall|k: int| 0 <= k < i ==> line[line.len() - n + k] == suffix@[k],
        decreases n - i,
    {
        if bytes[end - n + i] != suffix[i] {
            proof {
                let tail = line.subrange(line.len() - n, line.len() as int);
                assert(tail[i as int] == bytes@[end - n + i]);
            }
            return false;
        }
        i += 1;
    }
    proof {
        assert(line.subrange(line.len() - n, line.len() as int) =~= suffix@);
    }
    true
}

/// Drops the lines of the bundler's output that end with `suffix`.
pub fn strip_lines_ending_with(output: &Vec<u8>, suffix: &Vec<u8>) -> (r: Vec<u8>)
    ensures
        r@ == kept_lines(output@, suffix@, 0, true),
{
    let n = output.len();
    let mut out: Vec<u8> = Vec::new();
    let mut first = true;
    let mut from: usize = 0;
    let mut finished = false;
    while !finished
        invariant
            n == output@.len(),
            from <= n,
            !finished ==> out@ + kept_lines(output@, suffix@, from as int, first) == kept_lines(
                output@,
                suffix@,
                0,
                true,
            ),
            finished ==> out@ == kept_lines(output@, suffix@, 0, true),
        decreases n - from + (if finished { 0int } else { 1int }),
    {
        let mut end = from;
        while end < n && output[end] != 10
            invariant
                from <= end <= n,
                n == output@.len(),
                line_end(output@, end as int) == line_end(output@, from as int),
            decreases n - end,
        {
            end += 1;
        }
        let ghost before = out@;
        let ghost rest = if end < n {
            kept_lines(
                output@,
                suffix@,
                end + 1,
                first && ends_with(output@.subrange(from as int, end as int), suffix@),
            )
        } else {
            Seq::empty()
        };
        if !line_ends_with(output, from, end, suffix) {
            if !first {
                out.push(10);
            }
            let mut k = from;
            let ghost start = out@;
            while k < end
                invariant
                    from <= k <= end <= n,
                    n == output@.len(),
                    out@ == start + output@.subrange(from as int, k as int),
                decreases end - k,
            {
                out.push(output[k]);
                proof {
                    assert(output@.subrange(from as int, k + 1) =~= output@.subrange(
                        from as int,
                        k as int,
                    ).push(output@[k as int]));
                }
                k += 1;
            }
            proof {
                let line = output@.subrange(from as int, end as int);
                let shown = if first {
                    line
                } else {
                    seq![10u8] + line
                };
                assert(out@ =~= before + shown);
                if end < n {
                    let tail = kept_lines(output@, suffix@, end + 1, false);
                    assert(before + (shown + tail) =~= (before + shown) + tail);
                } else {
                    assert(before + shown =~= out@);
                }
            }
            first = false;
        } else {
            proof {
                if end >= n {
                    assert(before + Seq::<u8>::empty() =~= before);
                }
            }
        }
        if end < n {
            from = end + 1;
        } else {
            from = n;
            finished = true;
        }
    }
    out
}

/// The bytes of the warning that the bundler prints about itself.
pub fn deno_bundle_warning() -> (r: Vec<u8>)
    ensures
        r@ == bundle_warning(),
{
    let r = vec![
        105u8, 115, 32, 101, 120, 112, 101, 114, 105, 109, 101, 110, 116, 97, 108, 32, 97, 110, 100,
        32, 115, 117, 98, 106, 101, 99, 116, 32, 116, 111, 32, 99, 104, 97, 110, 103, 101, 115,
    ];
    assert(r@ =~= bundle_warning());
    r
}

/// The text that `String::from_utf8_lossy` reads from bytes: the bytes as
/// UTF-8, with the replacement character in the place of what is none.
pub uninterp spec fn lossy_text(bytes: Seq<u8>) -> Seq<char>;

/// What `str::replace` makes of a text: the text with every occurrence of
/// `pattern`, from the left and without overlap, replaced by `with`.
pub uninterp spec fn replaced(text: Seq<char>, pattern: Seq<char>, with: Seq<char>) -> Seq<char>;

/// Reads bytes as text with `String::from_utf8_lossy`.
#[verifier::external_body]
fn utf8_lossy(bytes: &Vec<u8>) -> (r: String)
    ensures
        r@ == lossy_text(bytes@),
{
    String::from_utf8_lossy(bytes).to_string()
}

/// Replaces every occurrence of a pattern in a text with `str::replace`.
#[verifier::external_body]
fn replace_all(text: &str, pattern: &str, with: &str) -> (r: String)
    ensures
        r@ == replaced(text@, pattern@, with@),
{
    text.replace(pattern, with)
}

/// What is shown of the bundler's complaints, given the text that the lines
/// without the warning read as: the text without the URL of the current directory.
pub fn shorten_paths(text: &str, current_dir_url: &str) -> (r: String)
    ensures
        r@ == replaced(text@, current_dir_url@, Seq::empty()),
{
    proof {
        reveal_strlit("");
        assert(""@ =~= Seq::<char>::empty());
    }
    replace_all(text, current_dir_url, "")
}

/// What is shown of the bundler's complaints: its output without its warning
/// about itself, read as text, and without the URL of the current directory.
pub fn simplify_error(output: &Vec<u8>, current_dir_url: &str) -> (r: String)
    ensures
        r@ == replaced(
            lossy_text(kept_lines(output@, bundle_warning(), 0, true)),
            current_dir_url@,
            Seq::empty(),
        ),
{
    let warning = deno_bundle_warning();
    let kept = strip_lines_ending_with(output, &warning);
    shorten_paths(utf8_lossy(&kept).as_str(), current_dir_url)
}

} // verus!
