//! The contract of [`command_run::Command`], as far as this library uses it.
//!
//! A `Command` is opaque to the verifier. Its program and its arguments are
//! modelled as byte strings, a string of the library standing for the bytes
//! of its UTF-8 encoding. The items of this file are believed, not proved:
//! each states what an item of `command_run` does to those byte strings.
//! Everything else in the library is proved from them.

use command_run::Command;
use vstd::prelude::*;
use vstd::utf8::encode_utf8;

verus! {

/// `command_run::Command`, carried through verified code as an opaque value.
#[verifier::external_type_specification]
#[verifier::external_body]
pub struct ExCommand(command_run::Command);

/// The `program` field of a command, as the bytes of its path.
pub uninterp spec fn command_program(c: Command) -> Seq<u8>;

/// The `args` field of a command: one byte string per argument, in order.
pub uninterp spec fn command_args(c: Command) -> Seq<Seq<u8>>;

/// Whether two paths, given by their bytes, are equal as `std::path::Path`
/// compares them on the platform that the library is built for: component by
/// component, so that on Unix `a/b` and `a//b/` are the same path. A path is
/// always the same as itself.
pub uninterp spec fn same_path(a: Seq<u8>, b: Seq<u8>) -> bool;

/// `Command::new`: a command with the given program and no arguments.
#[verifier::external_body]
pub(crate) fn new_command(program: &str) -> (cmd: Command)
    ensures
        command_program(cmd) == encode_utf8(program@),
        command_args(cmd) == Seq::<Seq<u8>>::empty(),
{
    Command::new(program)
}

/// `Command::with_args`: a command with the given program and arguments.
#[verifier::external_body]
pub(crate) fn new_command_with_args(program: &str, args: &[&str]) -> (cmd: Command)
    ensures
        command_program(cmd) == encode_utf8(program@),
        command_args(cmd) == Seq::new(args@.len(), |i: int| encode_utf8(args@[i]@)),
{
    Command::with_args(program, args)
}

/// `Clone::clone` of a command: a command with the same program, the same
/// arguments and the same settings.
pub assume_specification[ <Command as Clone>::clone ](cmd: &Command) -> (copy: Command)
    ensures
        copy == *cmd,
;

/// `Command::add_arg`: appends one argument and leaves the program as it is.
#[verifier::external_body]
pub(crate) fn add_arg(cmd: &mut Command, arg: &str)
    ensures
        command_program(*final(cmd)) == command_program(*old(cmd)),
        command_args(*final(cmd)) == command_args(*old(cmd)).push(encode_utf8(arg@)),
{
    cmd.add_arg(arg);
}

/// `Command::add_arg_pair`: appends two arguments, in the order given, and
/// leaves the program as it is.
#[verifier::external_body]
pub(crate) fn add_arg_pair(cmd: &mut Command, arg1: &str, arg2: &str)
    ensures
        command_program(*final(cmd)) == command_program(*old(cmd)),
        command_args(*final(cmd)) == command_args(*old(cmd)).push(encode_utf8(arg1@)).push(
            encode_utf8(arg2@),
        ),
{
    cmd.add_arg_pair(arg1, arg2);
}

/// `Command::add_args`: appends every argument of the list, in its order,
/// and leaves the program as it is.
#[verifier::external_body]
pub(crate) fn add_args(cmd: &mut Command, args: &Vec<String>)
    ensures
        command_program(*final(cmd)) == command_program(*old(cmd)),
        command_args(*final(cmd)) == command_args(*old(cmd)) + Seq::new(
            args@.len(),
            |i: int| encode_utf8(args@[i]@),
        ),
{
    cmd.add_args(args);
}

/// `PartialEq` between the `program` field and a path made of `name`: the
/// two are compared as paths, and equal bytes are the same path.
#[verifier::external_body]
pub(crate) fn program_is(cmd: &Command, name: &str) -> (same: bool)
    ensures
        same == same_path(command_program(*cmd), encode_utf8(name@)),
        command_program(*cmd) == encode_utf8(name@) ==> same,
{
    cmd.program.as_path() == std::path::Path::new(name)
}

/// `contains` on the `args` field: whether one of the arguments is `name`,
/// byte for byte.
#[verifier::external_body]
pub(crate) fn args_contain(cmd: &Command, name: &str) -> (found: bool)
    ensures
        found == command_args(*cmd).contains(encode_utf8(name@)),
{
    cmd.args.contains(&name.into())
}

} // verus!
