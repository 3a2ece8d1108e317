//! The option registry: one record per supported option, grouped into
//! categories for the usage text.  Adding an option means adding one record
//! here; the tokenizer, appliers and renderer need no change.

use vstd::prelude::*;
use crate::strutil::str_eq;

verus! {

/// Names (short or long, without dashes) that set case-insensitive matching.
pub open spec fn is_ignore_case_name(n: Seq<char>) -> bool {
    n == "i"@ || n == "ignore-case"@
}

/// Names that set the trailing-context line count.
pub open spec fn is_after_name(n: Seq<char>) -> bool {
    n == "A"@ || n == "after-context"@
}

/// Names that set the leading-context line count.
pub open spec fn is_before_name(n: Seq<char>) -> bool {
    n == "B"@ || n == "before-context"@
}

/// Names that request the usage text.
pub open spec fn is_help_name(n: Seq<char>) -> bool {
    n == "h"@ || n == "help"@
}

/// Names of options that require an accompanying value.
pub open spec fn is_value_name(n: Seq<char>) -> bool {
    is_after_name(n) || is_before_name(n)
}

/// Names the registry knows at all.
pub open spec fn is_known_name(n: Seq<char>) -> bool {
    is_ignore_case_name(n) || is_value_name(n) || is_help_name(n)
}

pub fn name_is_ignore_case(n: &str) -> (r: bool)
    ensures
        r == is_ignore_case_name(n@),
{
    str_eq(n, "i") || str_eq(n, "ignore-case")
}

pub fn name_is_after(n: &str) -> (r: bool)
    ensures
        r == is_after_name(n@),
{
    str_eq(n, "A") || str_eq(n, "after-context")
}

pub fn name_is_before(n: &str) -> (r: bool)
    ensures
        r == is_before_name(n@),
{
    str_eq(n, "B") || str_eq(n, "before-context")
}

pub fn name_is_help(n: &str) -> (r: bool)
    ensures
        r == is_help_name(n@),
{
    str_eq(n, "h") || str_eq(n, "help")
}

/// Whether the named option requires an accompanying value.
pub fn name_takes_value(n: &str) -> (r: bool)
    ensures
        r == is_value_name(n@),
{
    name_is_after(n) || name_is_before(n)
}

/// Mathematical view of one option record.
#[verifier::ext_equal]
pub struct OptionSpecView {
    pub short_form: Seq<char>,
    pub long_form: Seq<char>,
    pub takes_value: bool,
    pub default_value: Seq<char>,
    pub description: Seq<char>,
}

/// One supported option: its two spellings, whether it takes a value, the
/// default shown in the usage text, and its one-line description.  The long
/// form carries a `=NUM` placeholder when the option takes a value.
#[derive(Debug, Clone, PartialEq, Eq)]
pub struct OptionSpec {
    pub short_form: String,
    pub long_form: String,
    pub takes_value: bool,
    pub default_value: String,
    pub description: String,
}

impl View for OptionSpec {
    type V = OptionSpecView;

    open spec fn view(&self) -> OptionSpecView {
        OptionSpecView {
            short_form: self.short_form@,
            long_form: self.long_form@,
            takes_value: self.takes_value,
            default_value: self.default_value@,
            description: self.description@,
        }
    }
}

impl DeepView for OptionSpec {
    type V = OptionSpecView;

    open spec fn deep_view(&self) -> OptionSpecView {
        self.view()
    }
}

/// Mathematical view of one help category.
#[verifier::ext_equal]
pub struct CategoryView {
    pub name: Seq<char>,
    pub options: Seq<OptionSpecView>,
}

/// A named group of options, used only to organize the usage text.
#[derive(Debug, Clone, PartialEq, Eq)]
pub struct OptionCategory {
    pub name: String,
    pub options: Vec<OptionSpec>,
}

impl View for OptionCategory {
    type V = CategoryView;

    open spec fn view(&self) -> CategoryView {
        CategoryView { name: self.name@, options: self.options.deep_view() }
    }
}

impl DeepView for OptionCategory {
    type V = CategoryView;

    open spec fn deep_view(&self) -> CategoryView {
        self.view()
    }
}

pub open spec fn ignore_case_spec() -> OptionSpecView {
    OptionSpecView {
        short_form: "-i"@,
        long_form: "--ignore-case"@,
        takes_value: false,
        default_value: "false"@,
        description: "ignore case distinctions in patterns and data"@,
    }
}

pub open spec fn after_context_spec() -> OptionSpecView {
    OptionSpecView {
        short_form: "-A"@,
        long_form: "--after-context=NUM"@,
        takes_value: true,
        default_value: "0"@,
        description: "print NUM lines of trailing context"@,
    }
}

pub open spec fn before_context_spec() -> OptionSpecView {
    OptionSpecView {
        short_form: "-B"@,
        long_form: "--before-context=NUM"@,
        takes_value: true,
        default_value: "0"@,
        description: "print NUM lines of leading context"@,
    }
}

pub open spec fn help_spec() -> OptionSpecView {
    OptionSpecView {
        short_form: "-h"@,
        long_form: "--help"@,
        takes_value: false,
        default_value: ""@,
        description: "display this help text and exit"@,
    }
}

/// What `lookup` finds for each name.
pub open spec fn spec_lookup(n: Seq<char>) -> Option<OptionSpecView> {
    if is_ignore_case_name(n) {
        Some(ignore_case_spec())
    } else if is_after_name(n) {
        Some(after_context_spec())
    } else if is_before_name(n) {
        Some(before_context_spec())
    } else if is_help_name(n) {
        Some(help_spec())
    } else {
        None
    }
}

fn make_ignore_case() -> (r: OptionSpec)
    ensures
        r@ == ignore_case_spec(),
{
    OptionSpec {
        short_form: String::from_str("-i"),
        long_form: String::from_str("--ignore-case"),
        takes_value: false,
        default_value: String::from_str("false"),
        description: String::from_str("ignore case distinctions in patterns and data"),
    }
}

fn make_after_context() -> (r: OptionSpec)
    ensures
        r@ == after_context_spec(),
{
    OptionSpec {
        short_form: String::from_str("-A"),
        long_form: String::from_str("--after-context=NUM"),
        takes_value: true,
        default_value: String::from_str("0"),
        description: String::from_str("print NUM lines of trailing context"),
    }
}

fn make_before_context() -> (r: OptionSpec)
    ensures
        r@ == before_context_spec(),
{
    OptionSpec {
        short_form: String::from_str("-B"),
        long_form: String::from_str("--before-context=NUM"),
        takes_value: true,
        default_value: String::from_str("0"),
        description: String::from_str("print NUM lines of leading context"),
    }
}

fn make_help() -> (r: OptionSpec)
    ensures
        r@ == help_spec(),
{
    OptionSpec {
        short_form: String::from_str("-h"),
        long_form: String::from_str("--help"),
        takes_value: false,
        default_value: String::from_str(""),
        description: String::from_str("display this help text and exit"),
    }
}

/// Finds the record for a short or long option name given without dashes.
pub fn lookup(name: &str) -> (r: Option<OptionSpec>)
    ensures
        (match spec_lookup(name@) {
            Some(sv) => r matches Some(s) && s@ == sv,
            None => r is None,
        }),
{
    if name_is_ignore_case(name) {
        Some(make_ignore_case())
    } else if name_is_after(name) {
        Some(make_after_context())
    } else if name_is_before(name) {
        Some(make_before_context())
    } else if name_is_help(name) {
        Some(make_help())
    } else {
        None
    }
}

/// The registry's categories, in the order the usage text shows them.
pub open spec fn spec_categories() -> Seq<CategoryView> {
    seq![
        CategoryView {
            name: "Pattern selection and interpretation"@,
            options: seq![ignore_case_spec()],
        },
        CategoryView {
            name: "Context control"@,
            options: seq![after_context_spec(), before_context_spec()],
        },
        CategoryView { name: "Miscellaneous"@, options: seq![help_spec()] },
    ]
}

/// Builds every category with its options, for the help renderer.
pub fn all_categories() -> (r: Vec<OptionCategory>)
    ensures
        r.deep_view() == spec_categories(),
{
    let mut pattern_opts: Vec<OptionSpec> = Vec::new();
    pattern_opts.push(make_ignore_case());
    let mut context_opts: Vec<OptionSpec> = Vec::new();
    context_opts.push(make_after_context());
    context_opts.push(make_before_context());
    let mut misc_opts: Vec<OptionSpec> = Vec::new();
    misc_opts.push(make_help());
    let mut r: Vec<OptionCategory> = Vec::new();
    r.push(OptionCategory {
        name: String::from_str("Pattern selection and interpretation"),
        options: pattern_opts,
    });
    r.push(OptionCategory { name: String::from_str("Context control"), options: context_opts });
    r.push(OptionCategory { name: String::from_str("Miscellaneous"), options: misc_opts });
    proof {
        assert(r.deep_view() =~~= spec_categories());
    }
    r
}

} // verus!
