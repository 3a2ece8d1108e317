//! Rendering the registry into the usage text.
//!
//! A pure function of the registry: a usage line, a description, an example,
//! then each category's name followed by one indented line per option.  The
//! caller decides whether and where to print the text.

use vstd::prelude::*;
use crate::registry::{all_categories, spec_categories, CategoryView, OptionSpecView};

verus! {

/// The line one option is shown as: both forms, the description, and the
/// default in parentheses when the option has one.
pub open spec fn spec_render_option(o: OptionSpecView) -> Seq<char> {
    "  "@ + o.short_form + ", "@ + o.long_form + "  "@ + o.description + (if o.default_value.len()
        > 0 {
        "(default "@ + o.default_value + ")"@
    } else {
        Seq::<char>::empty()
    }) + "\n"@
}

pub open spec fn spec_render_options(opts: Seq<OptionSpecView>) -> Seq<char>
    decreases opts.len(),
{
    if opts.len() == 0 {
        Seq::empty()
    } else {
        spec_render_options(opts.drop_last()) + spec_render_option(opts.last())
    }
}

/// A category: its name, a line per option, a blank line.
pub open spec fn spec_render_category(c: CategoryView) -> Seq<char> {
    c.name + ":\n"@ + spec_render_options(c.options) + "\n"@
}

pub open spec fn spec_render_categories(cs: Seq<CategoryView>) -> Seq<char>
    decreases cs.len(),
{
    if cs.len() == 0 {
        Seq::empty()
    } else {
        spec_render_categories(cs.drop_last()) + spec_render_category(cs.last())
    }
}

/// The lines above the option listing.
pub open spec fn spec_help_header() -> Seq<char> {
    "Usage: rgrep [OPTION..] PATTERN FILE [FILE..]\n"@ + "Search for PATTERNS in each FILE.\n"@
        + "Example: rgrep -i 'hello world' menu.h main.c\n"@ + "\n"@
}

/// The whole usage text.
pub open spec fn spec_help_text() -> Seq<char> {
    spec_help_header() + spec_render_categories(spec_categories())
}

/// Renders the usage text, exactly as `spec_help_text` says.
pub fn render_help() -> (r: String)
    ensures
        r@ == spec_help_text(),
{
    let categories = all_categories();
    let mut help_string = String::new();
    help_string.append("Usage: rgrep [OPTION..] PATTERN FILE [FILE..]\n");
    help_string.append("Search for PATTERNS in each FILE.\n");
    help_string.append("Example: rgrep -i 'hello world' menu.h main.c\n");
    help_string.append("\n");
    proof {
        assert(help_string@ =~= spec_help_header());
    }
    let mut ci: usize = 0;
    while ci < categories.len()
        invariant
            categories.deep_view() == spec_categories(),
            0 <= ci <= categories@.len(),
            help_string@ == spec_help_header() + spec_render_categories(
                spec_categories().take(ci as int),
            ),
        decreases categories@.len() - ci,
    {
        let cat = &categories[ci];
        proof {
            assert(cat@ == spec_categories()[ci as int]);
        }
        help_string.append(cat.name.as_str());
        help_string.append(":\n");
        let ghost cat_start = spec_help_header() + spec_render_categories(
            spec_categories().take(ci as int),
        ) + cat@.name + ":\n"@;
        proof {
            assert(help_string@ =~= cat_start + spec_render_options(cat@.options.take(0)));
        }
        let mut oi: usize = 0;
        while oi < cat.options.len()
            invariant
                cat@ == spec_categories()[ci as int],
                0 <= oi <= cat.options@.len(),
                help_string@ == cat_start + spec_render_options(cat@.options.take(oi as int)),
            decreases cat.options@.len() - oi,
        {
            let o = &cat.options[oi];
            proof {
                assert(o@ == cat@.options[oi as int]);
            }
            help_string.append("  ");
            help_string.append(o.short_form.as_str());
            help_string.append(", ");
            help_string.append(o.long_form.as_str());
            help_string.append("  ");
            help_string.append(o.description.as_str());
            if o.default_value.as_str().unicode_len() > 0 {
                help_string.append("(default ");
                help_string.append(o.default_value.as_str());
                help_string.append(")");
            }
            help_string.append("\n");
            proof {
                assert(cat@.options.take(oi as int + 1).drop_last() =~= cat@.options.take(
                    oi as int,
                ));
                assert(cat@.options.take(oi as int + 1).last() == cat@.options[oi as int]);
                assert(help_string@ =~= cat_start + spec_render_options(
                    cat@.options.take(oi as int + 1),
                ));
            }
            oi = oi + 1;
        }
        help_string.append("\n");
        proof {
            assert(cat@.options.take(cat.options@.len() as int) =~= cat@.options);
            assert(spec_categories().take(ci as int + 1).drop_last() =~= spec_categories().take(
                ci as int,
            ));
            assert(spec_categories().take(ci as int + 1).last() == spec_categories()[ci as int]);
            assert(help_string@ =~= spec_help_header() + spec_render_categories(
                spec_categories().take(ci as int + 1),
            ));
        }
        ci = ci + 1;
    }
    proof {
        assert(spec_categories().take(categories@.len() as int) =~= spec_categories());
    }
    help_string
}

} // verus!
