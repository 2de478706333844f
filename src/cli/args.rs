//! Parsing of the raw command line into a list of file paths.
//!
//! To parse a vector of arguments, use the `parse` function.

use vstd::prelude::*;
use crate::cli::output::{invalid_opts_err, invalid_opts_msg, NO_ARGS_ERR, USAGE};

verus! {

/// Explicit errors we handle.
#[derive(Debug, PartialEq)]
pub enum Error {
    Help(String),
    InvalidOpts(String),
    NoArgs(String),
}

/// Raw command line args will be parsed into this.
#[derive(Debug, PartialEq)]
pub struct Config {
    filepaths: Vec<String>,
}

impl View for Config {
    type V = Seq<String>;

    closed spec fn view(&self) -> Seq<String> {
        self.filepaths@
    }
}

/// The configuration that `make_config` builds from `filepaths`.
pub closed spec fn spec_make_config(filepaths: Vec<String>) -> Config {
    Config { filepaths }
}

/// The paths that `filepaths` takes out of `config`.
pub closed spec fn spec_filepaths(config: Config) -> Vec<String> {
    config.filepaths
}

/// The short help flag.
pub const HELP_SHORT: &'static str = "-h";

/// The long help flag.
pub const HELP_LONG: &'static str = "--help";

/// Whether `arg` is one of the help flags.
pub open spec fn is_help(arg: Seq<char>) -> bool {
    arg == HELP_SHORT@ || arg == HELP_LONG@
}

/// Whether `arg` is an option that is not recognized: it starts with a dash
/// and is not a help flag.
pub open spec fn is_invalid_opt(arg: Seq<char>) -> bool {
    arg.len() > 0 && arg[0] == '-' && !is_help(arg)
}

/// Whether some argument is a help flag.
pub open spec fn has_help(args: Seq<String>) -> bool {
    exists|i: int| 0 <= i < args.len() && is_help(#[trigger] args[i]@)
}

/// The unrecognized options among `args`, in their order.
pub open spec fn invalid_opts_of(args: Seq<String>) -> Seq<String>
    decreases args.len(),
{
    if args.len() == 0 {
        Seq::empty()
    } else if is_invalid_opt(args.last()@) {
        invalid_opts_of(args.drop_last()).push(args.last())
    } else {
        invalid_opts_of(args.drop_last())
    }
}

/// Construct a new `Config` instance.
pub fn make_config(filepaths: Vec<String>) -> (r: Config)
    ensures
        r == spec_make_config(filepaths),
        r@ == filepaths@,
{
    Config { filepaths }
}

/// Gets the filepaths from config.
pub fn filepaths(config: Config) -> (r: Vec<String>)
    ensures
        r == spec_filepaths(config),
        r@ == config@,
{
    config.filepaths
}

/// Taking the paths out of a configuration built from `v` gives back `v`.
pub proof fn lemma_filepaths_make_config(v: Vec<String>)
    ensures
        spec_filepaths(spec_make_config(v)) == v,
{
}

/// Returns all elements of `vec` but the first.
fn tail(vec: Vec<String>) -> (r: Vec<String>)
    requires
        vec@.len() >= 1,
    ensures
        r@ == vec@.subrange(1, vec@.len() as int),
{
    let mut r: Vec<String> = Vec::new();
    let mut i: usize = 1;
    while i < vec.len()
        invariant
            1 <= i <= vec@.len(),
            r@ == vec@.subrange(1, i as int),
        decreases vec.len() - i,
    {
        r.push(vec[i].clone());
        assert(r@ =~= vec@.subrange(1, i + 1));
        i = i + 1;
    }
    r
}

/// Checks if a vector of arguments contains the -h/--help option.
fn contains_help(args: Vec<String>) -> (r: bool)
    ensures
        r == has_help(args@),
{
    let short = String::from_str(HELP_SHORT);
    let long = String::from_str(HELP_LONG);
    let mut i: usize = 0;
    while i < args.len()
        invariant
            i <= args@.len(),
            short@ == HELP_SHORT@,
            long@ == HELP_LONG@,
            forall|j: int| 0 <= j < i ==> !is_help(#[trigger] args@[j]@),
        decreases args.len() - i,
    {
        if args[i] == short || args[i] == long {
            return true;
        }
        i = i + 1;
    }
    false
}

/// Whether `arg` starts with a dash.
fn starts_with_dash(arg: &String) -> (r: bool)
    ensures
        r == (arg@.len() > 0 && arg@[0] == '-'),
{
    let s = arg.as_str();
    s.unicode_len() > 0 && s.get_char(0) == '-'
}

/// Finds all unrecognized options in a vector of arguments: those that start
/// with a dash, but which are not `-h` or `--help`.
fn invalid_options(args: Vec<String>) -> (r: Vec<String>)
    ensures
        r@ == invalid_opts_of(args@),
{
    let short = String::from_str(HELP_SHORT);
    let long = String::from_str(HELP_LONG);
    let mut r: Vec<String> = Vec::new();
    let mut i: usize = 0;
    while i < args.len()
        invariant
            i <= args@.len(),
            short@ == HELP_SHORT@,
            long@ == HELP_LONG@,
            r@ == invalid_opts_of(args@.take(i as int)),
        decreases args.len() - i,
    {
        assert(args@.take(i + 1).drop_last() =~= args@.take(i as int));
        let arg = &args[i];
        if starts_with_dash(arg) && !(*arg == short) && !(*arg == long) {
            r.push(arg.clone());
        }
        i = i + 1;
    }
    assert(args@.take(i as int) =~= args@);
    r
}

/// Parses a vector of arguments.
///
/// The first argument is the name of the invoked program; the others are
/// file paths, or `-h` or `--help`. Too few arguments come first, then a
/// request for help, then unrecognized options; otherwise the arguments
/// but the first are the file paths.
pub fn parse(args: Vec<String>) -> (r: Result<Config, Error>)
    ensures
        args@.len() < 2 ==> r matches Err(Error::NoArgs(_)),
        args@.len() >= 2 && has_help(args@) ==> r matches Err(Error::Help(_)),
        args@.len() >= 2 && !has_help(args@) && invalid_opts_of(args@).len() > 0
            ==> r matches Err(Error::InvalidOpts(_)),
        args@.len() >= 2 && !has_help(args@) && invalid_opts_of(args@).len() == 0
            ==> r matches Ok(_),
        match r {
            Err(Error::NoArgs(m)) => m@ == NO_ARGS_ERR@,
            Err(Error::Help(m)) => m@ == USAGE@,
            Err(Error::InvalidOpts(m)) => m@ == invalid_opts_msg(invalid_opts_of(args@)),
            Ok(c) => c@ == args@.subrange(1, args@.len() as int),
        },
{
    if args.len() < 2 {
        return Err(Error::NoArgs(String::from_str(NO_ARGS_ERR)));
    }
    if contains_help(args.clone()) {
        return Err(Error::Help(String::from_str(USAGE)));
    }
    let invalid_opts = invalid_options(args.clone());
    if invalid_opts.len() > 0 {
        return Err(Error::InvalidOpts(invalid_opts_err(invalid_opts)));
    }
    Ok(make_config(tail(args)))
}

} // verus!
