//! The driver: walks the raw token list and builds the parsed command line.
//!
//! Token zero is the program's invocation name and is skipped.  Options are
//! recognized anywhere in the stream; the first positional becomes the query
//! and every later positional a file.  A value-taking option without an
//! inline value consumes the immediately following token, in the same step.
//! The help option short-circuits the walk with a successful outcome, and the
//! first error ends it; in both cases the fields already parsed keep their
//! values and no later token is inspected.

use vstd::prelude::*;
use crate::applier::{parse_flag, parse_non_flag, spec_apply_flag, spec_apply_value};
use crate::args::{ArgsView, CommandArgs, ParseOutcome};
use crate::errors::{ErrorView, ParseError};
use crate::registry::{is_help_name, is_value_name, name_is_help, name_takes_value};
use crate::tokenizer::{classify, spec_classify, SpecToken, Token};

verus! {

/// Arity of the option an option token named.
#[derive(Debug, Clone, Copy, PartialEq, Eq, Structural)]
pub enum OptionType {
    /// A value-less option: one token was consumed.
    Flag,
    /// A value-taking option: this token and the next were consumed.
    NonFlag,
    /// The help option: parsing stops here with the help outcome.
    Help,
}

/// What one short or long-bare option token does, given the state `st` and
/// its position `i` in the token list.
#[verifier::ext_equal]
pub enum BareStep {
    Help,
    Flag(ArgsView),
    NonFlag(ArgsView),
    Fail(ErrorView),
}

/// The step for an option token without an inline value: help short-circuits;
/// a value-taking option takes the next token as its value and fails when
/// none is left; everything else goes through the flag applier.
pub open spec fn spec_bare_step(
    args: Seq<Seq<char>>,
    i: int,
    st: ArgsView,
    name: Seq<char>,
) -> BareStep {
    if is_help_name(name) {
        BareStep::Help
    } else if is_value_name(name) {
        if i + 1 >= args.len() {
            BareStep::Fail(ErrorView::MissingValue(name))
        } else {
            match spec_apply_value(st, name, args[i + 1]) {
                Ok(st2) => BareStep::NonFlag(st2),
                Err(e) => BareStep::Fail(e),
            }
        }
    } else {
        match spec_apply_flag(st, name) {
            Ok(st2) => BareStep::Flag(st2),
            Err(e) => BareStep::Fail(e),
        }
    }
}

/// How a parse ends: the populated result, the help request, or the first
/// error, each carrying the state the fields had at that point.
#[verifier::ext_equal]
pub enum SpecResult {
    Done(ArgsView),
    Help(ArgsView),
    Failed(ErrorView, ArgsView),
}

/// The whole parse, from token `i` on, starting in state `st`;
/// `query_parsed` says whether the query has been captured already.
pub open spec fn spec_parse_from(
    args: Seq<Seq<char>>,
    i: int,
    st: ArgsView,
    query_parsed: bool,
) -> SpecResult
    decreases args.len() - i,
{
    if i >= args.len() {
        SpecResult::Done(st)
    } else {
        let t = args[i];
        match spec_classify(t) {
            SpecToken::Malformed => SpecResult::Failed(ErrorView::MalformedToken(t), st),
            SpecToken::LongInline { name, value } => match spec_apply_value(st, name, value) {
                Ok(st2) => spec_parse_from(args, i + 1, st2, query_parsed),
                Err(e) => SpecResult::Failed(e, st),
            },
            SpecToken::LongBare { name } => match spec_bare_step(args, i, st, name) {
                BareStep::Help => SpecResult::Help(st),
                BareStep::Flag(st2) => spec_parse_from(args, i + 1, st2, query_parsed),
                BareStep::NonFlag(st2) => spec_parse_from(args, i + 2, st2, query_parsed),
                BareStep::Fail(e) => SpecResult::Failed(e, st),
            },
            SpecToken::Short { name } => match spec_bare_step(args, i, st, name) {
                BareStep::Help => SpecResult::Help(st),
                BareStep::Flag(st2) => spec_parse_from(args, i + 1, st2, query_parsed),
                BareStep::NonFlag(st2) => spec_parse_from(args, i + 2, st2, query_parsed),
                BareStep::Fail(e) => SpecResult::Failed(e, st),
            },
            SpecToken::Positional => if !query_parsed {
                spec_parse_from(args, i + 1, ArgsView { query: t, ..st }, true)
            } else {
                spec_parse_from(args, i + 1, ArgsView { files: st.files.push(t), ..st }, query_parsed)
            },
        }
    }
}

/// Handles one option token given without an inline value: decides the
/// option's arity and, when it takes a value, consumes `args[index + 1]` as
/// that value in the same step.
pub fn parse_nonflag_or_flag(
    argument: &str,
    args_length: usize,
    index: usize,
    args: &Vec<String>,
    command_args: &mut CommandArgs,
) -> (r: Result<OptionType, ParseError>)
    requires
        args_length == args@.len(),
        index < args_length,
    ensures
        (match spec_bare_step(args.deep_view(), index as int, old(command_args)@, argument@) {
            BareStep::Help => r == Ok::<OptionType, ParseError>(OptionType::Help)
                && final(command_args)@ == old(command_args)@,
            BareStep::Flag(st2) => r == Ok::<OptionType, ParseError>(OptionType::Flag)
                && final(command_args)@ == st2,
            BareStep::NonFlag(st2) => r == Ok::<OptionType, ParseError>(OptionType::NonFlag)
                && final(command_args)@ == st2,
            BareStep::Fail(e) => (r matches Err(pe) && pe@ == e)
                && final(command_args)@ == old(command_args)@,
        }),
{
    if name_is_help(argument) {
        Ok(OptionType::Help)
    } else if name_takes_value(argument) {
        if index + 1 < args_length {
            let value = &args[index + 1];
            proof {
                assert(args.deep_view()[index as int + 1] == value@);
            }
            match parse_non_flag(argument, value.as_str(), command_args) {
                Ok(()) => Ok(OptionType::NonFlag),
                Err(e) => Err(e),
            }
        } else {
            Err(ParseError::MissingValue(String::from_str(argument)))
        }
    } else {
        match parse_flag(argument, command_args) {
            Ok(()) => Ok(OptionType::Flag),
            Err(e) => Err(e),
        }
    }
}

/// Parses the whole raw argument list, token 0 (the program name) excluded,
/// into `command_args`, which enters with the defaults the caller chose and
/// leaves exactly as `spec_parse_from` says.
pub fn parse_args(args: Vec<String>, command_args: &mut CommandArgs) -> (r: Result<
    ParseOutcome,
    ParseError,
>)
    ensures
        (match spec_parse_from(args.deep_view(), 1, old(command_args)@, false) {
            SpecResult::Done(st) => r == Ok::<ParseOutcome, ParseError>(ParseOutcome::Completed)
                && final(command_args)@ == st,
            SpecResult::Help(st) => r == Ok::<ParseOutcome, ParseError>(ParseOutcome::HelpRequested)
                && final(command_args)@ == st,
            SpecResult::Failed(e, st) => (r matches Err(pe) && pe@ == e)
                && final(command_args)@ == st,
        }),
{
    let ghost argsv = args.deep_view();
    let ghost st0 = command_args@;
    let mut query_parsed: bool = false;
    let mut index: usize = 1;
    let n = args.len();
    while index < n
        invariant
            n == args@.len(),
            argsv == args.deep_view(),
            st0 == old(command_args)@,
            1 <= index,
            spec_parse_from(argsv, 1, st0, false) == spec_parse_from(
                argsv,
                index as int,
                command_args@,
                query_parsed,
            ),
        decreases n - index,
    {
        let arg = &args[index];
        proof {
            assert(argsv[index as int] == arg@);
        }
        let tok = classify(arg.as_str());
        match tok {
            Token::Malformed => {
                return Err(ParseError::MalformedToken(arg.clone()));
            }
            Token::LongInline { name, value } => {
                match parse_non_flag(name.as_str(), value.as_str(), command_args) {
                    Ok(()) => {
                        index = index + 1;
                    }
                    Err(e) => {
                        return Err(e);
                    }
                }
            }
            Token::LongBare { name } => {
                match parse_nonflag_or_flag(name.as_str(), n, index, &args, command_args) {
                    Ok(OptionType::Help) => {
                        return Ok(ParseOutcome::HelpRequested);
                    }
                    Ok(OptionType::Flag) => {
                        index = index + 1;
                    }
                    Ok(OptionType::NonFlag) => {
                        index = index + 2;
                    }
                    Err(e) => {
                        return Err(e);
                    }
                }
            }
            Token::Short { name } => {
                match parse_nonflag_or_flag(name.as_str(), n, index, &args, command_args) {
                    Ok(OptionType::Help) => {
                        return Ok(ParseOutcome::HelpRequested);
                    }
                    Ok(OptionType::Flag) => {
                        index = index + 1;
                    }
                    Ok(OptionType::NonFlag) => {
                        index = index + 2;
                    }
                    Err(e) => {
                        return Err(e);
                    }
                }
            }
            Token::Positional => {
                if !query_parsed {
                    let ghost before = command_args@;
                    command_args.query = arg.clone();
                    query_parsed = true;
                    proof {
                        assert(command_args@ =~= ArgsView { query: argsv[index as int], ..before });
                    }
                } else {
                    let ghost before = command_args@;
                    command_args.files.push(arg.clone());
                    proof {
                        assert(command_args@.files =~= before.files.push(argsv[index as int]));
                        assert(command_args@ =~= ArgsView {
                            files: before.files.push(argsv[index as int]),
                            ..before
                        });
                    }
                }
                index = index + 1;
            }
        }
    }
    Ok(ParseOutcome::Completed)
}

} // verus!
