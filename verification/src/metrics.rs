//! Locating the control group of a process.
//!
//! The kernel describes the control groups of a process in a small text file.
//! Reading that file is left to the caller; what the text means is decided
//! here.

use vstd::prelude::*;
use vstd::string::*;
use crate::error::ShimError;
use crate::error::ErrorKind;
use crate::text::join;
use crate::text::tail_from;

verus! {

/// Whether the text holds at least two colons, so that it splits into a
/// hierarchy id, a controller list and a path.
pub open spec fn has_three_parts(content: Seq<char>) -> bool {
    exists|i: int, j: int| 0 <= i < j < content.len() && content[i] == ':' && content[j] == ':'
}

/// Whether the text is an entry of the unified hierarchy: hierarchy id `0`
/// and no controller name.
pub open spec fn is_unified_entry(content: Seq<char>) -> bool {
    content.len() >= 3 && content[0] == '0' && content[1] == ':' && content[2] == ':'
}

/// The path without its leading slash, if it has one.
pub open spec fn without_leading_slash(path: Seq<char>) -> Seq<char> {
    if path.len() > 0 && path[0] == '/' {
        path.skip(1)
    } else {
        path
    }
}

/// The place in the file system of the control group that a unified entry
/// names.
pub open spec fn unified_path(content: Seq<char>) -> Seq<char> {
    "/sys/fs/cgroup/"@ + without_leading_slash(content.skip(3))
}

/// The text without the line feeds at its end.
pub open spec fn without_trailing_newlines(content: Seq<char>) -> Seq<char>
    decreases content.len(),
{
    if content.len() > 0 && content.last() == '\n' {
        without_trailing_newlines(content.drop_last())
    } else {
        content
    }
}

/// The decimal digits of a number, most significant first.
pub open spec fn decimal(n: nat) -> Seq<char>
    decreases n,
{
    if n < 10 {
        seq![digit(n)]
    } else {
        decimal(n / 10).push(digit(n % 10))
    }
}

/// The character of one decimal digit.
pub open spec fn digit(d: nat) -> char {
    if d == 0 {
        '0'
    } else if d == 1 {
        '1'
    } else if d == 2 {
        '2'
    } else if d == 3 {
        '3'
    } else if d == 4 {
        '4'
    } else if d == 5 {
        '5'
    } else if d == 6 {
        '6'
    } else if d == 7 {
        '7'
    } else if d == 8 {
        '8'
    } else {
        '9'
    }
}

/// The name of the file in which the kernel describes the control groups of
/// the process `pid`.
pub open spec fn cgroup_file(pid: nat) -> Seq<char> {
    "/proc/"@ + decimal(pid) + "/cgroup"@
}

fn digit_text(d: u32) -> (r: &'static str)
    requires
        d < 10,
    ensures
        r@ == seq![digit(d as nat)],
{
    proof {
        reveal_strlit("0");
        reveal_strlit("1");
        reveal_strlit("2");
        reveal_strlit("3");
        reveal_strlit("4");
        reveal_strlit("5");
        reveal_strlit("6");
        reveal_strlit("7");
        reveal_strlit("8");
        reveal_strlit("9");
    }
    let r = if d == 0 {
        "0"
    } else if d == 1 {
        "1"
    } else if d == 2 {
        "2"
    } else if d == 3 {
        "3"
    } else if d == 4 {
        "4"
    } else if d == 5 {
        "5"
    } else if d == 6 {
        "6"
    } else if d == 7 {
        "7"
    } else if d == 8 {
        "8"
    } else {
        "9"
    };
    assert(r@ =~= seq![digit(d as nat)]);
    r
}

/// Writes a number in decimal.
pub fn decimal_text(n: u32) -> (r: String)
    ensures
        r@ == decimal(n as nat),
    decreases n,
{
    if n < 10 {
        String::from_str(digit_text(n))
    } else {
        let mut r = decimal_text(n / 10);
        r.append(digit_text(n % 10));
        assert(r@ =~= decimal(n as nat));
        r
    }
}

/// Names the file in which the kernel describes the control groups of the
/// process `pid`.
pub fn cgroup_file_of_pid(pid: u32) -> (r: String)
    ensures
        r@ == cgroup_file(pid as nat),
{
    let digits = decimal_text(pid);
    let mut r = join("/proc/", digits.as_str());
    r.append("/cgroup");
    r
}

/// The position of the first colon at or after `from`, if there is one.
fn find_colon(content: &str, from: usize) -> (r: Option<usize>)
    requires
        from <= content@.len(),
    ensures
        match r {
            Some(i) => from <= i < content@.len() && content@[i as int] == ':' && forall|k: int|
                from <= k < i ==> content@[k] != ':',
            None => forall|k: int| from <= k < content@.len() ==> content@[k] != ':',
        },
{
    let n: usize = content.unicode_len();
    let mut i: usize = from;
    while i < n
        invariant
            from <= i <= n,
            n == content@.len(),
            forall|k: int| from <= k < i ==> content@[k] != ':',
        decreases n - i,
    {
        if content.get_char(i) == ':' {
            return Some(i);
        }
        i += 1;
    }
    None
}

/// Reads one line of a process's control group description and gives the
/// place of its control group in the unified hierarchy.
///
/// A line has the form `id:controllers:path`. The unified hierarchy has the
/// id `0` and no controllers; its path is taken below `/sys/fs/cgroup/`. A
/// line with fewer than three parts is refused as invalid, and a line of
/// another hierarchy as not found.
pub fn parse_cgroups_v2_path(content: &str) -> (r: Result<String, ShimError>)
    ensures
        is_unified_entry(content@) ==> r is Ok && r->Ok_0@ == unified_path(content@),
        !is_unified_entry(content@) && has_three_parts(content@) ==> r is Err && r->Err_0.is(
            ErrorKind::Others,
            "cgroup path not found"@,
        ),
        !has_three_parts(content@) ==> r is Err && r->Err_0.is(
            ErrorKind::Others,
            "invalid cgroup path: "@ + content@,
        ),
{
    let n: usize = content.unicode_len();
    let first = match find_colon(content, 0) {
        Some(i) => i,
        None => {
            return Err(ShimError::Others(join("invalid cgroup path: ", content)));
        },
    };
    let second = match find_colon(content, first + 1) {
        Some(j) => j,
        None => {
            return Err(ShimError::Others(join("invalid cgroup path: ", content)));
        },
    };
    assert(has_three_parts(content@));
    if first == 1 && content.get_char(0) == '0' && second == 2 {
        let rest = tail_from(content, 3);
        let path = if rest.unicode_len() > 0 && rest.get_char(0) == '/' {
            tail_from(rest, 1)
        } else {
            rest
        };
        return Ok(join("/sys/fs/cgroup/", path));
    }
    Err(ShimError::Others(String::from_str("cgroup path not found")))
}

/// Drops the line feeds at the end of the text.
pub fn trim_trailing_newlines(content: &str) -> (r: &str)
    ensures
        r@ == without_trailing_newlines(content@),
{
    let mut n: usize = content.unicode_len();
    assert(content@.subrange(0, n as int) =~= content@);
    while n > 0 && content.get_char(n - 1) == '\n'
        invariant
            n <= content@.len(),
            without_trailing_newlines(content@) == without_trailing_newlines(
                content@.subrange(0, n as int),
            ),
        decreases n,
    {
        assert(content@.subrange(0, n as int).drop_last() =~= content@.subrange(0, n - 1));
        n -= 1;
    }
    content.substring_char(0, n)
}

/// Gives the place of a process's control group in the unified hierarchy,
/// from what the kernel's description of that process holds (the file named
/// by [`cgroup_file_of_pid`]).
pub fn get_cgroups_v2_path_by_pid(content: &str) -> (r: Result<String, ShimError>)
    ensures
        ({
            let line = without_trailing_newlines(content@);
            &&& is_unified_entry(line) ==> r is Ok && r->Ok_0@ == unified_path(line)
            &&& !is_unified_entry(line) && has_three_parts(line) ==> r is Err && r->Err_0.is(
                ErrorKind::Others,
                "cgroup path not found"@,
            )
            &&& !has_three_parts(line) ==> r is Err && r->Err_0.is(
                ErrorKind::Others,
                "invalid cgroup path: "@ + line,
            )
        }),
{
    let line = trim_trailing_newlines(content);
    parse_cgroups_v2_path(line)
}

} // verus!
