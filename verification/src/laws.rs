//! Laws of the parser, stated and proved over the specification model:
//! the three spellings of a context option agree, an invalid value aborts
//! the parse with the fields untouched, and the two spellings of the
//! case-insensitivity flag are interchangeable and idempotent.

use vstd::prelude::*;
use crate::applier::{spec_apply_flag, spec_apply_value};
use crate::args::ArgsView;
use crate::errors::ErrorView;
use crate::numeric::{digits_part, is_digit, is_u32_string, u32_string_val};
use crate::parser::{spec_bare_step, spec_parse_from, BareStep, SpecResult};
use crate::registry::{
    is_after_name,
    is_before_name,
    is_help_name,
    is_ignore_case_name,
    is_value_name,
};
use crate::tokenizer::{eq_count, eq_index, spec_classify, SpecToken};

verus! {

pub proof fn lemma_eq_count_concat(a: Seq<char>, b: Seq<char>)
    ensures
        eq_count(a + b) == eq_count(a) + eq_count(b),
    decreases b.len(),
{
    if b.len() == 0 {
        assert(a + b =~= a);
    } else {
        assert((a + b).drop_last() =~= a + b.drop_last());
        assert((a + b).last() == b.last());
        lemma_eq_count_concat(a, b.drop_last());
    }
}

pub proof fn lemma_eq_index_concat(a: Seq<char>, b: Seq<char>)
    ensures
        eq_index(a + b) == if eq_index(a) < a.len() {
            eq_index(a)
        } else {
            a.len() + eq_index(b)
        },
    decreases b.len(),
{
    crate::tokenizer::lemma_eq_index_bounds(a);
    crate::tokenizer::lemma_eq_index_bounds(b);
    if b.len() == 0 {
        assert(a + b =~= a);
    } else {
        assert((a + b).drop_last() =~= a + b.drop_last());
        assert((a + b).last() == b.last());
        lemma_eq_index_concat(a, b.drop_last());
        crate::tokenizer::lemma_eq_index_bounds(b.drop_last());
    }
}

/// A sequence without `=` has none to count and none to find.
pub proof fn lemma_no_eq(s: Seq<char>)
    requires
        forall|i: int| 0 <= i < s.len() ==> #[trigger] s[i] != '=',
    ensures
        eq_count(s) == 0,
        eq_index(s) == s.len(),
    decreases s.len(),
{
    if s.len() > 0 {
        lemma_no_eq(s.drop_last());
    }
}

/// Accepted value strings hold no `=`: a plus sign or a digit never is one.
pub proof fn lemma_u32_string_no_eq(s: Seq<char>)
    requires
        is_u32_string(s),
    ensures
        eq_count(s) == 0,
        eq_index(s) == s.len(),
{
    let d = digits_part(s);
    assert forall|i: int| 0 <= i < s.len() implies #[trigger] s[i] != '=' by {
        if s[0] == '+' {
            if i > 0 {
                assert(s[i] == d[i - 1]);
                assert(is_digit(d[i - 1]));
            }
        } else {
            assert(s[i] == d[i]);
            assert(is_digit(d[i]));
        }
    }
    lemma_no_eq(s);
}

/// A token `--name` with no `=` in the name is a bare long option.
pub proof fn lemma_classify_long_bare(name: Seq<char>)
    requires
        eq_count(name) == 0,
    ensures
        spec_classify("--"@ + name) == (SpecToken::LongBare { name }),
{
    reveal_strlit("--");
    let t = "--"@ + name;
    assert(t[0] == '-' && t[1] == '-');
    assert(t.subrange(2, t.len() as int) =~= name);
}

/// A token `--name=value` with no further `=` is a long option with an
/// inline value.
pub proof fn lemma_classify_long_inline(name: Seq<char>, value: Seq<char>)
    requires
        eq_count(name) == 0,
        eq_count(value) == 0,
    ensures
        spec_classify("--"@ + (name + "="@ + value)) == (SpecToken::LongInline { name, value }),
{
    reveal_strlit("--");
    reveal_strlit("=");
    let rest = name + "="@ + value;
    let t = "--"@ + rest;
    assert(t[0] == '-' && t[1] == '-');
    assert(t.subrange(2, t.len() as int) =~= rest);
    assert(eq_count("="@) == 1 && eq_index("="@) == 0) by {
        reveal_with_fuel(eq_count, 2);
        reveal_with_fuel(eq_index, 2);
    }
    lemma_eq_count_concat(name, "="@);
    lemma_eq_count_concat(name + "="@, value);
    crate::tokenizer::lemma_eq_index_bounds(name);
    lemma_eq_index_concat(name, "="@);
    lemma_eq_index_concat(name + "="@, value);
    assert(eq_count(rest) == 1);
    assert(eq_index(rest) == name.len());
    assert(rest.subrange(0, name.len() as int) =~= name);
    assert(rest.subrange(name.len() as int + 1, rest.len() as int) =~= value);
}

/// The name facts the law proofs lean on, evaluated on the literal spellings.
proof fn lemma_name_facts()
    ensures
        is_after_name("A"@),
        is_after_name("after-context"@),
        !is_help_name("A"@),
        !is_help_name("after-context"@),
        !is_help_name("i"@),
        !is_help_name("ignore-case"@),
        !is_value_name("i"@),
        !is_value_name("ignore-case"@),
        is_ignore_case_name("i"@),
        is_ignore_case_name("ignore-case"@),
        eq_count("after-context"@) == 0,
        eq_count("ignore-case"@) == 0,
        spec_classify("-A"@) == (SpecToken::Short { name: "A"@ }),
        spec_classify("-i"@) == (SpecToken::Short { name: "i"@ }),
{
    reveal_strlit("A");
    reveal_strlit("B");
    reveal_strlit("h");
    reveal_strlit("i");
    reveal_strlit("help");
    reveal_strlit("after-context");
    reveal_strlit("before-context");
    reveal_strlit("ignore-case");
    reveal_strlit("-A");
    reveal_strlit("-i");
    reveal_with_fuel(eq_count, 16);
    assert("A"@.len() == 1 && "B"@.len() == 1 && "h"@.len() == 1 && "i"@.len() == 1);
    assert("help"@.len() == 4 && "after-context"@.len() == 13 && "before-context"@.len() == 14
        && "ignore-case"@.len() == 11);
    assert("A"@[0] == 'A' && "B"@[0] == 'B' && "h"@[0] == 'h' && "i"@[0] == 'i');
    assert("A"@ != "h"@ && "i"@ != "h"@ && "i"@ != "A"@ && "i"@ != "B"@);
    assert(spec_classify("-A"@) == (SpecToken::Short { name: "-A"@.subrange(1, 2) }));
    assert("-A"@.subrange(1, 2) =~= "A"@);
    assert(spec_classify("-i"@) == (SpecToken::Short { name: "-i"@.subrange(1, 2) }));
    assert("-i"@.subrange(1, 2) =~= "i"@);
}

/// The three spellings `--after-context=N`, `-A N` and `--after-context N`
/// of a valid count N (digits, with an optional leading plus sign) all set
/// `after_context` to N and nothing else.
pub proof fn lemma_after_context_forms(prog: Seq<char>, v: Seq<char>, st: ArgsView)
    requires
        is_u32_string(v),
    ensures
        spec_parse_from(seq![prog, "--"@ + ("after-context"@ + "="@ + v)], 1, st, false)
            == SpecResult::Done(ArgsView { after_context: u32_string_val(v) as u32, ..st }),
        spec_parse_from(seq![prog, "-A"@, v], 1, st, false) == SpecResult::Done(
            ArgsView { after_context: u32_string_val(v) as u32, ..st },
        ),
        spec_parse_from(seq![prog, "--"@ + "after-context"@, v], 1, st, false) == SpecResult::Done(
            ArgsView { after_context: u32_string_val(v) as u32, ..st },
        ),
{
    lemma_name_facts();
    lemma_u32_string_no_eq(v);
    let st2 = ArgsView { after_context: u32_string_val(v) as u32, ..st };

    // inline form
    lemma_classify_long_inline("after-context"@, v);
    let args1 = seq![prog, "--"@ + ("after-context"@ + "="@ + v)];
    assert(spec_apply_value(st, "after-context"@, v) == Ok::<ArgsView, ErrorView>(st2));
    assert(spec_parse_from(args1, 2, st2, false) == SpecResult::Done(st2));
    assert(spec_parse_from(args1, 1, st, false) == SpecResult::Done(st2));

    // short form with the following token as value
    let args2 = seq![prog, "-A"@, v];
    assert(spec_bare_step(args2, 1, st, "A"@) == BareStep::NonFlag(st2));
    assert(spec_parse_from(args2, 3, st2, false) == SpecResult::Done(st2));
    assert(spec_parse_from(args2, 1, st, false) == SpecResult::Done(st2));

    // bare long form with the following token as value
    lemma_classify_long_bare("after-context"@);
    let args3 = seq![prog, "--"@ + "after-context"@, v];
    assert(spec_bare_step(args3, 1, st, "after-context"@) == BareStep::NonFlag(st2));
    assert(spec_parse_from(args3, 3, st2, false) == SpecResult::Done(st2));
    assert(spec_parse_from(args3, 1, st, false) == SpecResult::Done(st2));
}

/// A value for `-A` that is not a valid count fails the parse right there:
/// the error names the option and the value, the fields keep the values they
/// had, and no later token is read.
pub proof fn lemma_invalid_after_value_aborts(
    args: Seq<Seq<char>>,
    i: int,
    st: ArgsView,
    qp: bool,
    s: Seq<char>,
)
    requires
        0 <= i,
        i + 1 < args.len(),
        args[i] == "-A"@,
        args[i + 1] == s,
        !is_u32_string(s),
    ensures
        spec_parse_from(args, i, st, qp) == SpecResult::Failed(
            ErrorView::InvalidOptionValue("A"@, s),
            st,
        ),
{
    lemma_name_facts();
    assert(spec_bare_step(args, i, st, "A"@) == BareStep::Fail(
        ErrorView::InvalidOptionValue("A"@, s),
    ));
}

/// Whether an option token consumes the token after it as its value.
pub open spec fn consumes_next(t: Seq<char>) -> bool {
    match spec_classify(t) {
        SpecToken::LongBare { name } => !is_help_name(name) && is_value_name(name),
        SpecToken::Short { name } => !is_help_name(name) && is_value_name(name),
        _ => false,
    }
}

/// `-i` and `--ignore-case` are interchangeable: swapping one spelling for
/// the other leaves the whole parse unchanged, as long as the swapped token
/// does not sit where the option before it would take it as a value.
pub proof fn lemma_ignore_case_forms_equal(
    args1: Seq<Seq<char>>,
    args2: Seq<Seq<char>>,
    j: int,
    i: int,
    st: ArgsView,
    qp: bool,
)
    requires
        args1.len() == args2.len(),
        0 <= j < args1.len(),
        args1[j] == "-i"@,
        args2[j] == "--"@ + "ignore-case"@,
        forall|k: int| 0 <= k < args1.len() && k != j ==> args1[k] == args2[k],
        j > 0 ==> !consumes_next(args1[j - 1]),
        0 <= i,
    ensures
        spec_parse_from(args1, i, st, qp) == spec_parse_from(args2, i, st, qp),
    decreases args1.len() - i, 1int,
{
    lemma_name_facts();
    lemma_classify_long_bare("ignore-case"@);
    if i >= args1.len() {
    } else if i == j {
        let st2 = ArgsView { ignore_case: true, ..st };
        assert(spec_bare_step(args1, i, st, "i"@) == BareStep::Flag(st2));
        assert(spec_bare_step(args2, i, st, "ignore-case"@) == BareStep::Flag(st2));
        lemma_ignore_case_forms_equal(args1, args2, j, i + 1, st2, qp);
    } else {
        let t = args1[i];
        assert(args2[i] == t);
        match spec_classify(t) {
            SpecToken::Malformed => {
            }
            SpecToken::LongInline { name, value } => {
                if let Ok(st2) = spec_apply_value(st, name, value) {
                    lemma_ignore_case_forms_equal(args1, args2, j, i + 1, st2, qp);
                }
            }
            SpecToken::LongBare { name } => {
                lemma_ignore_case_bare_step(args1, args2, j, i, st, qp, name);
            }
            SpecToken::Short { name } => {
                lemma_ignore_case_bare_step(args1, args2, j, i, st, qp, name);
            }
            SpecToken::Positional => {
                if !qp {
                    lemma_ignore_case_forms_equal(
                        args1,
                        args2,
                        j,
                        i + 1,
                        ArgsView { query: t, ..st },
                        true,
                    );
                } else {
                    lemma_ignore_case_forms_equal(
                        args1,
                        args2,
                        j,
                        i + 1,
                        ArgsView { files: st.files.push(t), ..st },
                        qp,
                    );
                }
            }
        }
    }
}

/// The induction step of `lemma_ignore_case_forms_equal` for an option token
/// without an inline value.
proof fn lemma_ignore_case_bare_step(
    args1: Seq<Seq<char>>,
    args2: Seq<Seq<char>>,
    j: int,
    i: int,
    st: ArgsView,
    qp: bool,
    name: Seq<char>,
)
    requires
        args1.len() == args2.len(),
        0 <= j < args1.len(),
        args1[j] == "-i"@,
        args2[j] == "--"@ + "ignore-case"@,
        forall|k: int| 0 <= k < args1.len() && k != j ==> args1[k] == args2[k],
        j > 0 ==> !consumes_next(args1[j - 1]),
        0 <= i < args1.len(),
        i != j,
        args1[i] == args2[i],
        (spec_classify(args1[i]) == SpecToken::LongBare { name } || spec_classify(args1[i])
            == SpecToken::Short { name }),
    ensures
        spec_parse_from(args1, i, st, qp) == spec_parse_from(args2, i, st, qp),
    decreases args1.len() - i, 0int,
{
    if is_help_name(name) {
    } else if is_value_name(name) {
        if i + 1 < args1.len() {
            assert(i + 1 != j) by {
                if i + 1 == j {
                    assert(consumes_next(args1[j - 1]));
                }
            }
            assert(args1[i + 1] == args2[i + 1]);
            match spec_apply_value(st, name, args1[i + 1]) {
                Ok(st2) => {
                    assert(spec_bare_step(args1, i, st, name) == BareStep::NonFlag(st2));
                    assert(spec_bare_step(args2, i, st, name) == BareStep::NonFlag(st2));
                    lemma_ignore_case_forms_equal(args1, args2, j, i + 2, st2, qp);
                }
                Err(_) => {
                }
            }
        }
    } else {
        match spec_apply_flag(st, name) {
            Ok(st2) => {
                lemma_ignore_case_forms_equal(args1, args2, j, i + 1, st2, qp);
            }
            Err(_) => {
            }
        }
    }
}

/// Setting the flag is idempotent: either spelling sets `ignore_case`, and
/// repeating either spelling afterwards changes nothing.
pub proof fn lemma_ignore_case_idempotent(st: ArgsView, n1: Seq<char>, n2: Seq<char>)
    requires
        is_ignore_case_name(n1),
        is_ignore_case_name(n2),
    ensures
        spec_apply_flag(st, n1) == Ok::<ArgsView, ErrorView>(ArgsView { ignore_case: true, ..st }),
        spec_apply_flag(ArgsView { ignore_case: true, ..st }, n2) == Ok::<ArgsView, ErrorView>(
            ArgsView { ignore_case: true, ..st },
        ),
{
    let st2 = ArgsView { ignore_case: true, ..st };
    assert(ArgsView { ignore_case: true, ..st2 } =~= st2);
}

} // verus!
