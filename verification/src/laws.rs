//! Properties of the generated script text, proved once and for all over
//! every interface description.

use vstd::prelude::*;
use crate::model::{ConfigV, FlagV, lemma_max_label_bound};
use crate::render::{
    arity_text, arm_body, arms, defaults_section, flag_line, help_arm, help_check, or_empty,
    pos_section, post_usage, script_of, script_pre, script_tail, short_label,
    spaces_len_of_value_part, unknown_arm, usage_text, while_head,
};
use crate::text::dec_of;

verus! {

/// An interface with no positional arguments and no flags renders no
/// positional section, no default assignments and no flag arms: the script
/// is the fixed skeleton around the usage block, and at run time only the
/// help interception, the `--help` arm and the unknown-flag arm can act.
pub proof fn lemma_empty_interface_script(c: ConfigV)
    requires
        c.positional.len() == 0,
        c.flags.len() == 0,
    ensures
        pos_section(c.positional) == Seq::<char>::empty(),
        defaults_section(c.flags) == Seq::<char>::empty(),
        arms(c.flags) == Seq::<char>::empty(),
        script_of(c) == script_pre() + usage_text(c) + post_usage() + help_check() + while_head()
            + help_arm() + unknown_arm(c) + script_tail(),
{
    assert(script_of(c) =~= script_pre() + usage_text(c) + post_usage() + help_check()
        + while_head() + help_arm() + unknown_arm(c) + script_tail());
}

/// The usage block names the interface: it opens with the program name,
/// and when a description is configured the description follows after the
/// separator ` - `.
pub proof fn lemma_usage_names_interface(c: ConfigV)
    ensures
        usage_text(c).take(c.name.len() as int) == c.name,
        c.description is Some ==> usage_text(c).subrange(
            (c.name.len() + 3) as int,
            (c.name.len() + 3 + c.description->0.len()) as int,
        ) == c.description->0,
{
    reveal_strlit(" - ");
    assert(usage_text(c).take(c.name.len() as int) =~= c.name);
    if c.description is Some {
        assert(usage_text(c).subrange(
            (c.name.len() + 3) as int,
            (c.name.len() + 3 + c.description->0.len()) as int,
        ) =~= c.description->0);
    }
}

/// The early help interception stands in every script, directly after the
/// `__usage` assignment and before everything else: each argument is
/// compared with `--help` before any arity check or flag parsing runs.
pub proof fn lemma_help_precedes_validation(c: ConfigV)
    ensures
        ({
            let off = script_pre().len() + usage_text(c).len() + post_usage().len();
            script_of(c).subrange(off as int, (off + help_check().len()) as int) == help_check()
        }),
{
    let off = script_pre().len() + usage_text(c).len() + post_usage().len();
    assert(script_of(c).subrange(off as int, (off + help_check().len()) as int) =~= help_check());
}

/// With `n > 0` positional arguments, the first text after the help
/// interception is the arity check, which names the expected count `n`:
/// the count's decimal form stands both in the `$#` comparison and in the
/// error message that also reports the received count.
pub proof fn lemma_arity_check_first(c: ConfigV)
    requires
        c.positional.len() > 0,
    ensures
        ({
            let n = c.positional.len();
            let off = script_pre().len() + usage_text(c).len() + post_usage().len()
                + help_check().len();
            &&& script_of(c).subrange(off as int, (off + arity_text(n).len()) as int) == arity_text(n)
            &&& arity_text(n) == "if [ $# -lt "@ + dec_of(n)
                + " ]; then\n  echo \"Not enough arguments - expected "@ + dec_of(n)
                + ", received $#\"\n  exit 1\nfi\n\n"@
        }),
{
    let n = c.positional.len();
    let off = script_pre().len() + usage_text(c).len() + post_usage().len() + help_check().len();
    assert(pos_section(c.positional).take(arity_text(n).len() as int) =~= arity_text(n));
    assert(script_of(c).subrange(off as int, (off + arity_text(n).len()) as int) =~= arity_text(n));
}

/// The arm of a boolean (`store_true`) flag sets the flag's variable to the
/// literal `true` and consumes exactly one argument (`shift 1`); no part of
/// the arm reads a following value.
pub proof fn lemma_bool_flag_arm(f: FlagV)
    requires
        f.is_bool(),
    ensures
        arm_body(f) == "      "@ + f.var_display() + "=true\n      shift 1\n"@,
{
}

/// Help-block alignment: in the rendered line of every flag the description
/// begins at the same column, `max_label_width + 8`, whatever the flag's own
/// label width. The line is the indent, the label, one space, the value
/// placeholder and the padding, and those always sum to that column.
pub proof fn lemma_option_columns_align(c: ConfigV, i: int)
    requires
        0 <= i < c.flags.len(),
    ensures
        ({
            let f = c.flags[i];
            let w = c.max_label_width();
            flag_line(f, w).subrange((w + 8) as int, (w + 8 + or_empty(f.description).len()) as int) == or_empty(
                f.description,
            )
        }),
{
    let f = c.flags[i];
    let w = c.max_label_width();
    lemma_max_label_bound(c.flags, i);
    assert(f.label_len() <= w);
    reveal_strlit("  ");
    reveal_strlit("-");
    reveal_strlit(", ");
    reveal_strlit("--");
    reveal_strlit(" ");
    reveal_strlit("\n");
    spaces_len_of_value_part(f);
    assert(("  "@ + short_label(f) + "--"@ + f.name + " "@).len() + f.var_len() == f.label_len()
        + 3);
    assert(flag_line(f, w).subrange((w + 8) as int, (w + 8 + or_empty(f.description).len()) as int) =~= or_empty(
        f.description,
    ));
}

} // verus!
