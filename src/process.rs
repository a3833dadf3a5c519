use vstd::prelude::*;
use crate::error::Error;

verus! {

/// The outcome of running `program`: success exactly when it exited successfully.
pub fn exec_outcome(program: &str, success: bool) -> (r: Result<(), Error>)
    ensures
        success ==> r is Ok,
        !success ==> (r matches Err(Error::Exec(p)) && p@ == program@),
{
    if success {
        Ok(())
    } else {
        Err(Error::Exec(program.to_string()))
    }
}

/// The outcome of looking `program` up on the search path: its location, or
/// the error that names it.
pub fn which_outcome(program: &str, found: Option<String>) -> (r: Result<String, Error>)
    ensures
        found matches Some(p) ==> r == Ok::<String, Error>(p),
        found is None ==> (r matches Err(Error::Which(p)) && p@ == program@),
{
    match found {
        Some(p) => Ok(p),
        None => Err(Error::Which(program.to_string())),
    }
}

} // verus!
