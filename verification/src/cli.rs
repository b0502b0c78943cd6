use vstd::prelude::*;
use crate::errors::Error;

verus! {

/// The one command word the tool recognises.
pub open spec fn ls_command() -> Seq<char> {
    "ls"@
}

/// Accepts exactly the command `ls`; any other word is rejected before any
/// network activity takes place.
pub fn validate_command(cmd: &str) -> (r: Result<(), Error>)
    ensures
        r is Ok <==> cmd@ == ls_command(),
        r matches Err(e) ==> e is UnknownCommand,
{
    let given = String::from_str(cmd);
    let known = String::from_str("ls");
    if given == known {
        Ok(())
    } else {
        Err(Error::UnknownCommand)
    }
}

} // verus!
