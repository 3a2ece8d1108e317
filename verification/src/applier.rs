//! Applying one recognized option to the parsed command line.
//!
//! Two entry points, dispatched by whether the option takes a value: a flag's
//! presence alone sets its field, a value-taking option first validates the
//! value.  A failed validation reports an error before any field changes.

use vstd::prelude::*;
use crate::args::{ArgsView, CommandArgs};
use crate::errors::{ErrorView, ParseError};
use crate::numeric::{is_u32_string, parse_u32, u32_string_val};
use crate::registry::{
    is_after_name,
    is_before_name,
    is_ignore_case_name,
    is_known_name,
    name_is_after,
    name_is_before,
    name_is_help,
    name_is_ignore_case,
};

verus! {

/// What applying a value-less option does: the one known flag sets
/// `ignore_case`; any other name is unknown.
pub open spec fn spec_apply_flag(st: ArgsView, name: Seq<char>) -> Result<ArgsView, ErrorView> {
    if is_ignore_case_name(name) {
        Ok(ArgsView { ignore_case: true, ..st })
    } else {
        Err(ErrorView::UnknownOption(name))
    }
}

/// What applying an option with a value does: a context option takes a
/// non-negative integer that fits in `u32`; a known option that expects no
/// value rejects whatever value it was given; any other name is unknown.
pub open spec fn spec_apply_value(st: ArgsView, name: Seq<char>, value: Seq<char>) -> Result<
    ArgsView,
    ErrorView,
> {
    if is_after_name(name) {
        if is_u32_string(value) {
            Ok(ArgsView { after_context: u32_string_val(value) as u32, ..st })
        } else {
            Err(ErrorView::InvalidOptionValue(name, value))
        }
    } else if is_before_name(name) {
        if is_u32_string(value) {
            Ok(ArgsView { before_context: u32_string_val(value) as u32, ..st })
        } else {
            Err(ErrorView::InvalidOptionValue(name, value))
        }
    } else if is_known_name(name) {
        Err(ErrorView::InvalidOptionValue(name, value))
    } else {
        Err(ErrorView::UnknownOption(name))
    }
}

/// Applies an option that carries no value, named without its dashes.
pub fn parse_flag(option: &str, command_args: &mut CommandArgs) -> (r: Result<(), ParseError>)
    ensures
        (match spec_apply_flag(old(command_args)@, option@) {
            Ok(st) => r is Ok && final(command_args)@ == st,
            Err(e) => (r matches Err(pe) && pe@ == e) && final(command_args)@ == old(
                command_args,
            )@,
        }),
{
    if name_is_ignore_case(option) {
        command_args.ignore_case = true;
        proof {
            assert(command_args@ =~= ArgsView { ignore_case: true, ..old(command_args)@ });
        }
        Ok(())
    } else {
        Err(ParseError::UnknownOption(String::from_str(option)))
    }
}

/// Applies an option that carries a value, named without its dashes.
pub fn parse_non_flag(option: &str, value: &str, command_args: &mut CommandArgs) -> (r: Result<
    (),
    ParseError,
>)
    ensures
        (match spec_apply_value(old(command_args)@, option@, value@) {
            Ok(st) => r is Ok && final(command_args)@ == st,
            Err(e) => (r matches Err(pe) && pe@ == e) && final(command_args)@ == old(
                command_args,
            )@,
        }),
{
    if name_is_after(option) {
        match parse_u32(value) {
            Some(v) => {
                command_args.after_context = v;
                proof {
                    assert(command_args@ =~= ArgsView {
                        after_context: u32_string_val(value@) as u32,
                        ..old(command_args)@
                    });
                }
                Ok(())
            }
            None => Err(
                ParseError::InvalidOptionValue(String::from_str(option), String::from_str(value)),
            ),
        }
    } else if name_is_before(option) {
        match parse_u32(value) {
            Some(v) => {
                command_args.before_context = v;
                proof {
                    assert(command_args@ =~= ArgsView {
                        before_context: u32_string_val(value@) as u32,
                        ..old(command_args)@
                    });
                }
                Ok(())
            }
            None => Err(
                ParseError::InvalidOptionValue(String::from_str(option), String::from_str(value)),
            ),
        }
    } else if name_is_ignore_case(option) || name_is_help(option) {
        Err(ParseError::InvalidOptionValue(String::from_str(option), String::from_str(value)))
    } else {
        Err(ParseError::UnknownOption(String::from_str(option)))
    }
}

} // verus!
