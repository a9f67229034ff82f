//! Output-format resolution.
//!
//! A run renders to one of three artifact formats. The format is chosen
//! once, with this precedence: an explicit `--format` value validated
//! against the closed enumeration; else the output path's extension,
//! matched case-insensitively; else a default of `Gif` together with a
//! warning flag for the caller to log.

use vstd::prelude::*;
use vstd::string::StringExecFns;
use vstd::string::StrSliceExecFns;
use crate::errors::{CliError, ErrorKind};

verus! {

/// The closed set of artifact formats a recording can be rendered to.
#[derive(Clone, Copy, Debug, PartialEq, Eq, Structural)]
pub enum OutputFormat {
    Gif,
    Png,
    Svg,
}

/// The format named by an explicit `--format` value: exactly `gif`, `png`
/// or `svg`, anything else naming no format.
pub open spec fn format_from_name(s: Seq<char>) -> Option<OutputFormat> {
    if s == "gif"@ {
        Some(OutputFormat::Gif)
    } else if s == "png"@ {
        Some(OutputFormat::Png)
    } else if s == "svg"@ {
        Some(OutputFormat::Svg)
    } else {
        None
    }
}

/// A character folded to lower case over the ASCII letters, as a code point.
pub open spec fn lower_code(c: char) -> int {
    if 65 <= c as u32 <= 90 {
        c as u32 + 32
    } else {
        c as u32 as int
    }
}

/// Two texts are equal up to ASCII case.
pub open spec fn eq_ignore_ascii_case(a: Seq<char>, b: Seq<char>) -> bool {
    a.len() == b.len() && forall|i: int| 0 <= i < a.len() ==> lower_code(a[i]) == lower_code(b[i])
}

/// Position `i` starts the extension of path `s`: a dot with a nonempty
/// file name before it and neither a separator nor a later dot after it.
pub open spec fn is_ext_dot(s: Seq<char>, i: int) -> bool {
    &&& 0 < i < s.len()
    &&& s[i] == '.'
    &&& s[i - 1] != '/'
    &&& forall|k: int| i < k < s.len() ==> (#[trigger] s[k]) != '.' && s[k] != '/'
}

/// The extension of a path: the text after the last dot of its last
/// component, provided that dot does not begin the component.
pub open spec fn extension_spec(s: Seq<char>) -> Option<Seq<char>> {
    if exists|i: int| is_ext_dot(s, i) {
        let i = choose|i: int| is_ext_dot(s, i);
        Some(s.subrange(i + 1, s.len() as int))
    } else {
        None
    }
}

/// The format inferred from a path's extension, matched case-insensitively.
pub open spec fn inferred_format(path: Seq<char>) -> Option<OutputFormat> {
    match extension_spec(path) {
        Some(e) => {
            if eq_ignore_ascii_case(e, "gif"@) {
                Some(OutputFormat::Gif)
            } else if eq_ignore_ascii_case(e, "png"@) {
                Some(OutputFormat::Png)
            } else if eq_ignore_ascii_case(e, "svg"@) {
                Some(OutputFormat::Svg)
            } else {
                None
            }
        },
        None => None,
    }
}

/// At most one position starts an extension.
proof fn lemma_ext_dot_unique(s: Seq<char>, i: int, j: int)
    requires
        is_ext_dot(s, i),
        is_ext_dot(s, j),
    ensures
        i == j,
{
    if i < j {
        assert(s[j] == '.');
    } else if j < i {
        assert(s[i] == '.');
    }
}

/// Character-for-character text equality.
pub fn str_eq(a: &str, b: &str) -> (r: bool)
    ensures
        r == (a@ == b@),
{
    let la = a.unicode_len();
    let lb = b.unicode_len();
    if la != lb {
        proof {
            assert(a@ != b@);
        }
        return false;
    }
    let mut i: usize = 0;
    while i < la
        invariant
            i <= la,
            la == a@.len(),
            lb == b@.len(),
            la == lb,
            forall|k: int| 0 <= k < i ==> a@[k] == b@[k],
        decreases la - i,
    {
        let ca = a.get_char(i);
        let cb = b.get_char(i);
        if ca != cb {
            proof {
                assert(a@[i as int] != b@[i as int]);
            }
            return false;
        }
        i += 1;
    }
    proof {
        assert(a@ =~= b@);
    }
    true
}

/// A character's code point folded to ASCII lower case.
fn lower_code_of(c: char) -> (r: u32)
    ensures
        r == lower_code(c),
{
    let x = c as u32;
    if 65 <= x && x <= 90 {
        x + 32
    } else {
        x
    }
}

/// Text equality up to ASCII case.
pub fn str_eq_ignore_ascii_case(a: &str, b: &str) -> (r: bool)
    ensures
        r == eq_ignore_ascii_case(a@, b@),
{
    let la = a.unicode_len();
    let lb = b.unicode_len();
    if la != lb {
        return false;
    }
    let mut i: usize = 0;
    while i < la
        invariant
            i <= la,
            la == a@.len(),
            lb == b@.len(),
            la == lb,
            forall|k: int| 0 <= k < i ==> lower_code(a@[k]) == lower_code(b@[k]),
        decreases la - i,
    {
        let ca = lower_code_of(a.get_char(i));
        let cb = lower_code_of(b.get_char(i));
        if ca != cb {
            proof {
                assert(lower_code(a@[i as int]) != lower_code(b@[i as int]));
            }
            return false;
        }
        i += 1;
    }
    true
}

/// Match an explicit `--format` value against the closed enumeration.
pub fn parse_format_name(s: &str) -> (r: Option<OutputFormat>)
    ensures
        r == format_from_name(s@),
{
    if str_eq(s, "gif") {
        Some(OutputFormat::Gif)
    } else if str_eq(s, "png") {
        Some(OutputFormat::Png)
    } else if str_eq(s, "svg") {
        Some(OutputFormat::Svg)
    } else {
        None
    }
}

/// The extension of a path, if its last component has one.
pub fn extension_of(path: &str) -> (r: Option<&str>)
    ensures
        match r {
            Some(e) => extension_spec(path@) == Some(e@),
            None => extension_spec(path@) is None,
        },
{
    let n = path.unicode_len();
    let mut j = n;
    while j > 0
        invariant
            j <= n,
            n == path@.len(),
            forall|k: int| j <= k < n ==> (#[trigger] path@[k]) != '.' && path@[k] != '/',
        decreases j,
    {
        let c = path.get_char(j - 1);
        if c == '/' {
            proof {
                assert forall|i: int| !is_ext_dot(path@, i) by {
                    if is_ext_dot(path@, i) {
                        assert(path@[j - 1] == '/');
                        assert(path@[i] == '.');
                        assert(i < j - 1);
                        assert(path@[j - 1] != '/');
                    }
                }
            }
            return None;
        }
        if c == '.' {
            if j - 1 > 0 && path.get_char(j - 2) != '/' {
                proof {
                    assert(is_ext_dot(path@, j - 1));
                    let ci = choose|t: int| is_ext_dot(path@, t);
                    lemma_ext_dot_unique(path@, ci, j - 1);
                }
                let ext = path.substring_char(j, n);
                return Some(ext);
            } else {
                proof {
                    assert forall|i: int| !is_ext_dot(path@, i) by {
                        if is_ext_dot(path@, i) {
                            assert(path@[j - 1] == '.');
                            if i < j - 1 {
                                assert(path@[j - 1] != '.');
                            } else if i > j - 1 {
                                assert(path@[i] != '.');
                            }
                        }
                    }
                }
                return None;
            }
        }
        j -= 1;
    }
    proof {
        assert forall|i: int| !is_ext_dot(path@, i) by {
            if is_ext_dot(path@, i) {
                assert(path@[i] != '.');
            }
        }
    }
    None
}

/// A chosen format together with whether the choice fell back to the
/// default and so owes the user a warning.
#[derive(Clone, Copy, Debug, PartialEq, Eq, Structural)]
pub struct FormatChoice {
    pub format: OutputFormat,
    pub warned: bool,
}

/// Resolve the output format: an explicit value wins and must name a
/// format; otherwise the output path's extension decides; otherwise the
/// default is `Gif` and the choice is flagged for a warning.
pub fn resolve_format(explicit: Option<&str>, out_path: &str) -> (r: Result<
    FormatChoice,
    CliError,
>)
    ensures
        match explicit {
            Some(name) => match format_from_name(name@) {
                Some(f) => (r matches Ok(c) && c.format == f && !c.warned),
                None => (r matches Err(e) && e.kind == ErrorKind::Argument && e.context@
                    == "Invalid option to --format"@ && e.cause@ == name@),
            },
            None => match inferred_format(out_path@) {
                Some(f) => (r matches Ok(c) && c.format == f && !c.warned),
                None => (r matches Ok(c) && c.format == OutputFormat::Gif && c.warned),
            },
        },
{
    match explicit {
        Some(name) => match parse_format_name(name) {
            Some(f) => Ok(FormatChoice { format: f, warned: false }),
            None => Err(
                CliError::new(
                    ErrorKind::Argument,
                    String::from_str("Invalid option to --format"),
                    String::from_str(name),
                ),
            ),
        },
        None => {
            let inferred = match extension_of(out_path) {
                Some(ext) => {
                    if str_eq_ignore_ascii_case(ext, "gif") {
                        Some(OutputFormat::Gif)
                    } else if str_eq_ignore_ascii_case(ext, "png") {
                        Some(OutputFormat::Png)
                    } else if str_eq_ignore_ascii_case(ext, "svg") {
                        Some(OutputFormat::Svg)
                    } else {
                        None
                    }
                },
                None => None,
            };
            match inferred {
                Some(f) => Ok(FormatChoice { format: f, warned: false }),
                None => Ok(FormatChoice { format: OutputFormat::Gif, warned: true }),
            }
        },
    }
}

} // verus!
