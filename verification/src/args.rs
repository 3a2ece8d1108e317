//! The parsed command line: which files to search, what to search for, and
//! the option settings, together with its mathematical view.

use vstd::prelude::*;

verus! {

/// Mathematical view of a parsed command line.
#[verifier::ext_equal]
pub struct ArgsView {
    /// Trailing positionals, in command-line order.
    pub files: Seq<Seq<char>>,
    /// The first positional; empty while none has been seen.
    pub query: Seq<char>,
    /// Lines of trailing context to print.
    pub after_context: u32,
    /// Lines of leading context to print.
    pub before_context: u32,
    /// Whether matching ignores case.
    pub ignore_case: bool,
}

/// The state every parse starts from: no files, no query, zero context,
/// case-sensitive matching.
pub open spec fn init_args() -> ArgsView {
    ArgsView {
        files: Seq::empty(),
        query: Seq::empty(),
        after_context: 0,
        before_context: 0,
        ignore_case: false,
    }
}

/// The parsed command line, filled in field by field as tokens are consumed.
#[derive(Debug, Clone, PartialEq, Eq)]
pub struct CommandArgs {
    pub files: Vec<String>,
    pub query: String,
    pub after_context: u32,
    pub before_context: u32,
    pub ignore_case: bool,
}

impl View for CommandArgs {
    type V = ArgsView;

    open spec fn view(&self) -> ArgsView {
        ArgsView {
            files: self.files.deep_view(),
            query: self.query@,
            after_context: self.after_context,
            before_context: self.before_context,
            ignore_case: self.ignore_case,
        }
    }
}

impl CommandArgs {
    /// A command line with every field at its default.
    pub fn new() -> (r: CommandArgs)
        ensures
            r@ == init_args(),
    {
        let r = CommandArgs {
            files: Vec::new(),
            query: String::new(),
            after_context: 0,
            before_context: 0,
            ignore_case: false,
        };
        proof {
            assert(r@ =~= init_args());
        }
        r
    }
}

/// How a successful parse ended: with a populated result, or with the request
/// to show the usage text and stop.
#[derive(Debug, Clone, Copy, PartialEq, Eq, Structural)]
pub enum ParseOutcome {
    Completed,
    HelpRequested,
}

} // verus!
