//! Moving a file or directory to the platform's trash.
use vstd::prelude::*;
use vstd::string::*;

verus! {

#[verifier::external_type_specification]
#[verifier::external_body]
pub struct ExTrashError(trash::Error);

/// The text that every failure message of the trash crate starts with.
pub open spec fn trash_failure_prefix() -> Seq<char> {
    "Error during a `trash` operation: "@
}

/// `p` without what ends it and names no component: trailing `/`
/// separators and trailing `.` components, which paths ignore.
pub open spec fn trim_path_end(p: Seq<char>) -> Seq<char>
    decreases p.len(),
{
    if p.len() > 0 && p.last() == '/' {
        trim_path_end(p.drop_last())
    } else if p.len() >= 2 && p.last() == '.' && p[p.len() - 2] == '/' {
        trim_path_end(p.subrange(0, p.len() - 2))
    } else {
        p
    }
}

/// The last component of `p` is `..`.
pub open spec fn ends_in_parent_dir(p: Seq<char>) -> bool {
    let t = trim_path_end(p);
    &&& t.len() >= 2
    &&& t[t.len() - 1] == '.'
    &&& t[t.len() - 2] == '.'
    &&& (t.len() == 2 || t[t.len() - 3] == '/')
}

/// The message with which a path whose last component is `..` is refused.
pub open spec fn parent_dir_refusal(path: Seq<char>) -> Seq<char> {
    "refusing to trash a path whose last component is `..`: "@ + path
}

/// Relies on trash::delete to move the entry at `path` to the trash. The
/// crate refuses the empty path and a path without a parent (the root)
/// before it touches the file system. It unwraps the file name of the
/// resolved target, which a path ending in `..` can lack (`/..`), so such a
/// path is not handed to it. It also unwraps the names of mount points as
/// UTF-8, which depends on the machine and not on `path`.
#[verifier::external_body]
fn trash_delete(path: &str) -> (r: Result<(), trash::Error>)
    requires
        !ends_in_parent_dir(path@),
    ensures
        path@.len() == 0 ==> r is Err,
        path@ == "/"@ ==> r is Err,
{
    trash::delete(std::path::Path::new(path))
}

/// Relies on the `Display` impl of trash::Error for a readable description;
/// it writes "Error during a `trash` operation: " before the details.
#[verifier::external_body]
fn trash_error_text(e: &trash::Error) -> (r: String)
    ensures
        trash_failure_prefix().is_prefix_of(r@),
{
    e.to_string()
}

/// Whether the last component of `path` is `..`.
pub fn path_ends_in_parent_dir(path: &str) -> (r: bool)
    ensures
        r == ends_in_parent_dir(path@),
{
    let ghost p = path@;
    let mut n: usize = path.unicode_len();
    let mut trimmed = false;
    assert(p.subrange(0, n as int) =~= p);
    while n > 0 && !trimmed
        invariant
            n <= p.len(),
            p == path@,
            trim_path_end(p) == trim_path_end(p.subrange(0, n as int)),
            trimmed ==> trim_path_end(p.subrange(0, n as int)) == p.subrange(0, n as int),
        decreases n, if trimmed { 0int } else { 1int },
    {
        let ghost t = p.subrange(0, n as int);
        let c = path.get_char(n - 1);
        if c == '/' {
            assert(t.drop_last() =~= p.subrange(0, n - 1));
            n = n - 1;
        } else if c == '.' && n >= 2 && path.get_char(n - 2) == '/' {
            assert(t.subrange(0, n - 2) =~= p.subrange(0, n - 2));
            n = n - 2;
        } else {
            trimmed = true;
        }
    }
    let ghost t = p.subrange(0, n as int);
    assert(trim_path_end(t) == t);
    n >= 2 && path.get_char(n - 1) == '.' && path.get_char(n - 2) == '.' && (n == 2
        || path.get_char(n - 3) == '/')
}

/// Moves the file or directory at `path` to the trash.
///
/// A path whose last component is `..` is refused with its own message,
/// before anything is asked of the trash. Other failures (no such entry, no
/// permission, no trash on this system, ...) give the trash crate's readable
/// description. Every error message is non-empty; the empty path and the
/// root are always refused.
pub fn move_to_trash(path: String) -> (r: Result<(), String>)
    ensures
        path@.len() == 0 ==> r is Err,
        path@ == "/"@ ==> r is Err,
        ends_in_parent_dir(path@) ==> (r matches Err(m) && m@ == parent_dir_refusal(path@)),
        !ends_in_parent_dir(path@) ==> (r matches Err(m) ==> trash_failure_prefix().is_prefix_of(
            m@,
        )),
        r matches Err(m) ==> m@.len() > 0,
{
    proof {
        reveal_strlit("Error during a `trash` operation: ");
        reveal_strlit("refusing to trash a path whose last component is `..`: ");
    }
    if path_ends_in_parent_dir(path.as_str()) {
        return Err("refusing to trash a path whose last component is `..`: ".to_owned().concat(
            path.as_str(),
        ));
    }
    match trash_delete(path.as_str()) {
        Ok(()) => Ok(()),
        Err(e) => Err(trash_error_text(&e)),
    }
}

} // verus!
