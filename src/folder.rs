//! Choosing the file-manager invocation that shows a path in its folder.
//!
//! The decision is pure: given the platform family and the path, it yields
//! the program to launch and its arguments, or nothing when there is no
//! folder to open. Launching the process is left to the caller, which
//! discards any launch failure.
use vstd::prelude::*;
use vstd::string::*;

verus! {

/// The platform families that reveal a path differently.
#[derive(Clone, Copy, Debug, PartialEq, Eq, Structural)]
pub enum Platform {
    /// The file manager can select an item given its literal path.
    Windows,
    /// `open -R` reveals an item given its literal path.
    MacOs,
    /// No select-in-folder primitive: the parent folder is opened instead.
    Posix,
}

/// A process to launch: the program's name and its arguments.
pub struct Launch {
    pub program: String,
    pub args: Vec<String>,
}

impl View for Launch {
    type V = (Seq<char>, Seq<Seq<char>>);

    open spec fn view(&self) -> (Seq<char>, Seq<Seq<char>>) {
        (self.program@, self.args@.map_values(|a: String| a@))
    }
}

/// The launch, as text, of an optional `Launch`.
pub open spec fn launch_view(l: Option<Launch>) -> Option<(Seq<char>, Seq<Seq<char>>)> {
    match l {
        Some(l) => Some(l@),
        None => None,
    }
}

/// What std's `Path::parent` gives for a path, as text.
pub uninterp spec fn path_parent(path: Seq<char>) -> Option<Seq<char>>;

/// The invocation that reveals `path`, where `parent` is the parent folder
/// of `path` (consulted on the POSIX family only).
pub open spec fn reveal_plan(
    platform: Platform,
    path: Seq<char>,
    parent: Option<Seq<char>>,
) -> Option<(Seq<char>, Seq<Seq<char>>)> {
    match platform {
        Platform::Windows => Some(("explorer"@, seq!["/select,"@ + path])),
        Platform::MacOs => Some(("open"@, seq!["-R"@, path])),
        Platform::Posix => match parent {
            Some(dir) => Some(("xdg-open"@, seq![dir])),
            None => None,
        },
    }
}

/// Relies on std::path::Path::parent for the folder that holds `path`. Its
/// documentation gives `None` for the empty path and for a path that ends in
/// a root, such as `/`.
#[verifier::external_body]
fn parent_of(path: &str) -> (r: Option<String>)
    ensures
        r matches Some(d) ==> path_parent(path@) == Some(d@),
        r is None ==> path_parent(path@) is None,
        path@.len() == 0 ==> r is None,
        path@ == "/"@ ==> r is None,
{
    match std::path::Path::new(path).parent() {
        Some(dir) => Some(dir.to_string_lossy().into_owned()),
        None => None,
    }
}

fn one_arg(a: String) -> (r: Vec<String>)
    ensures
        r@.map_values(|s: String| s@) == seq![a@],
{
    let mut r: Vec<String> = Vec::new();
    r.push(a);
    assert(r@.map_values(|s: String| s@) =~= seq![a@]);
    r
}

/// The invocation that reveals `path`, given the parent folder of `path`
/// as `Path::parent` computes it (consulted on the POSIX family only).
pub fn launch_for_parent(platform: Platform, path: &str, parent: Option<String>) -> (r: Option<Launch>)
    ensures
        launch_view(r) == reveal_plan(
            platform,
            path@,
            match parent {
                Some(d) => Some(d@),
                None => None,
            },
        ),
{
    proof {
        reveal_strlit("explorer");
        reveal_strlit("/select,");
        reveal_strlit("open");
        reveal_strlit("-R");
        reveal_strlit("xdg-open");
    }
    match platform {
        Platform::Windows => {
            let select = "/select,".to_owned().concat(path);
            Some(Launch { program: "explorer".to_owned(), args: one_arg(select) })
        },
        Platform::MacOs => {
            let mut args: Vec<String> = Vec::new();
            args.push("-R".to_owned());
            args.push(path.to_owned());
            assert(args@.map_values(|s: String| s@) =~= seq!["-R"@, path@]);
            Some(Launch { program: "open".to_owned(), args })
        },
        Platform::Posix => match parent {
            Some(dir) => Some(Launch { program: "xdg-open".to_owned(), args: one_arg(dir) }),
            None => None,
        },
    }
}

/// The invocation that reveals `path` in the file manager of `platform`.
///
/// On the POSIX family the parent folder is opened, as `Path::parent`
/// computes it; a path without a parent (the empty path, the root) gives
/// `None`: nothing is launched.
pub fn reveal_launch(platform: Platform, path: &str) -> (r: Option<Launch>)
    ensures
        platform != Platform::Posix ==> launch_view(r) == reveal_plan(platform, path@, None),
        platform == Platform::Posix ==> launch_view(r) == reveal_plan(
            platform,
            path@,
            path_parent(path@),
        ),
        platform == Platform::Posix && (path@.len() == 0 || path@ == "/"@) ==> r is None,
{
    match platform {
        Platform::Posix => {
            let parent = parent_of(path);
            launch_for_parent(platform, path, parent)
        },
        _ => launch_for_parent(platform, path, None),
    }
}

} // verus!
