//! The identifier of the host machine.
use vstd::prelude::*;

verus! {

/// `c` is ASCII white space (all of which is Unicode white space).
pub open spec fn is_ascii_blank(c: char) -> bool {
    c == ' ' || c == '\t' || c == '\n' || c == '\r' || c == '\x0B' || c == '\x0C'
}

/// `s` neither starts nor ends with white space.
pub open spec fn no_outer_blank(s: Seq<char>) -> bool {
    s.len() > 0 ==> !is_ascii_blank(s[0]) && !is_ascii_blank(s.last())
}

/// Relies on machine_uid::get to read the host's identifier from the
/// platform (a file, the registry or a system tool); its error is kept as
/// its readable description. On every platform the crate trims white space
/// from both ends of the identifier it returns.
#[verifier::external_body]
fn read_machine_uid() -> (r: Result<String, String>)
    ensures
        r matches Ok(id) ==> no_outer_blank(id@),
{
    match machine_uid::get() {
        Ok(id) => Ok(id),
        Err(e) => Err(e.to_string()),
    }
}

/// The platform-derived identifier of this machine, or the description of
/// why it could not be read. What it holds depends on the machine alone; an
/// identifier never starts or ends with white space.
pub fn get_machine_id() -> (r: Result<String, String>)
    ensures
        r matches Ok(id) ==> no_outer_blank(id@),
{
    read_machine_uid()
}

} // verus!
