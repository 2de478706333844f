//! Pre-canned messages for output.

use vstd::prelude::*;

verus! {

/// A message for when there are no arguments beyond the program name.
pub const NO_ARGS_ERR: &'static str = "Not enough arguments!";

/// The help/usage text.
pub const USAGE: &'static str = "USAGE: rcat [OPTIONS] [ARGEMNTS]\n\n  A simple cat program.\n\nEXAMPLES:\n  rcat --help\n  rcat /path/to/file1 /path/to/file2 ...\n\nOPTIONS:\n  -h, --help      Display this help.\n\nARGUMENTS:\n  /path/to/file1  A path to a file.\n  /path/to/file2  A path to another file.\n  ...             Ditto.\n\n";

/// The text put before the list of unrecognized options.
pub const INVALID_OPTS_START: &'static str = "Unrecognized option(s): ";

/// The text put after the list of unrecognized options.
pub const INVALID_OPTS_END: &'static str = "\nSee rcat --help";

/// The separator between two listed options.
pub const OPTS_SEPARATOR: &'static str = ", ";

/// The options, in order, with `", "` between each two of them.
pub open spec fn joined(opts: Seq<String>) -> Seq<char>
    decreases opts.len(),
{
    if opts.len() == 0 {
        Seq::empty()
    } else if opts.len() == 1 {
        opts[0]@
    } else {
        joined(opts.drop_last()) + OPTS_SEPARATOR@ + opts.last()@
    }
}

/// The message that reports the unrecognized options `opts`.
pub open spec fn invalid_opts_msg(opts: Seq<String>) -> Seq<char> {
    INVALID_OPTS_START@ + joined(opts) + INVALID_OPTS_END@
}

/// Generates the message to use when there are invalid options.
pub fn invalid_opts_err(opts: Vec<String>) -> (r: String)
    ensures
        r@ == invalid_opts_msg(opts@),
{
    let mut middle = String::new();
    let mut i: usize = 0;
    while i < opts.len()
        invariant
            i <= opts.len(),
            middle@ == joined(opts@.take(i as int)),
        decreases opts.len() - i,
    {
        assert(opts@.take(i + 1).drop_last() =~= opts@.take(i as int));
        if i > 0 {
            middle.append(OPTS_SEPARATOR);
        } else {
            assert(middle@ =~= Seq::<char>::empty());
        }
        middle.append(opts[i].as_str());
        i = i + 1;
    }
    assert(opts@.take(i as int) =~= opts@);
    let mut r = String::from_str(INVALID_OPTS_START);
    r.append(middle.as_str());
    r.append(INVALID_OPTS_END);
    r
}

} // verus!
