//! Reduction of a program run to the text shown to the user.

use vstd::prelude::*;
use crate::app::cmd::{stdout, Error, Execution};

verus! {

/// The program that the OS is asked to run on the file paths.
pub const CAT_PROGRAM: &'static str = "cat";

/// The message that an error carries.
pub open spec fn error_msg(err: Error) -> Seq<char> {
    match err {
        Error::NoProg(m) => m@,
        Error::NoFile(m) => m@,
        Error::NoPerm(m) => m@,
        Error::Other(m) => m@,
    }
}

/// The text to show for the outcome of a run: the captured output if all
/// went well, else the error's message.
pub fn report(result: Result<Execution, Error>) -> (r: String)
    ensures
        match result {
            Ok(execution) => r@ == execution@,
            Err(err) => r@ == error_msg(err),
        },
{
    match result {
        Err(err) => match err {
            Error::NoProg(msg) => msg,
            Error::NoFile(msg) => msg,
            Error::NoPerm(msg) => msg,
            Error::Other(msg) => msg,
        },
        Ok(execution) => stdout(execution),
    }
}

} // verus!
