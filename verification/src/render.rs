//! The script generator: a pure rendering procedure from a [`Config`] to the
//! text of a POSIX-shell script that parses the described interface.
//!
//! The exact output text is pinned down, section by section, by the spec
//! functions in this module; [`render_script`] is proved to return
//! [`script_of`] of its input, character for character.
//!
//! Field values (names, descriptions, defaults, choice values) are inserted
//! into the script verbatim, inside double quotes where the script reads
//! them at run time; the caller supplies text that is benign in that
//! position, exactly as with a hand-written script.

use vstd::prelude::*;
use crate::model::{Config, ConfigV, Flag, FlagV, PositionalArg, PositionalArgV};
use crate::model::{flag_views, max_arg_of, max_label_of, pos_views};
use crate::text::{dec_of, push_dec, push_spaces, push_upper, spaces};

verus! {

/// The sequence held by an optional text field: its text, or empty.
pub open spec fn or_empty(o: Option<Seq<char>>) -> Seq<char> {
    match o {
        Some(s) => s,
        None => Seq::empty(),
    }
}

/// Number of spaces that pads an item of width `len` so that the column
/// after the padding starts `width + 5` characters in.
pub open spec fn pad(width: nat, len: nat) -> nat {
    if len <= width {
        (width - len + 5) as nat
    } else {
        5
    }
}

/// The positional part of the usage synopsis: one leading space and the
/// upper-cased display name of each positional argument, in order.
pub open spec fn synopsis(ps: Seq<PositionalArgV>) -> Seq<char>
    decreases ps.len(),
{
    if ps.len() == 0 {
        Seq::empty()
    } else {
        synopsis(ps.drop_last()) + " "@ + ps.last().display()
    }
}

/// One line of the arguments help block: the display name, padding to the
/// common column, then the description.
pub open spec fn arg_line(a: PositionalArgV, w: nat) -> Seq<char> {
    "  "@ + a.display() + spaces(pad(w, a.display_len())) + or_empty(a.description) + "\n"@
}

/// The lines of the arguments help block, in declaration order.
pub open spec fn args_block(ps: Seq<PositionalArgV>, w: nat) -> Seq<char>
    decreases ps.len(),
{
    if ps.len() == 0 {
        Seq::empty()
    } else {
        args_block(ps.drop_last(), w) + arg_line(ps.last(), w)
    }
}

/// The short-alias part of a flag's help label: `-s, ` when a short alias
/// is present, empty otherwise.
pub open spec fn short_label(f: FlagV) -> Seq<char> {
    match f.short {
        Some(s) => "-"@ + s + ", "@,
        None => Seq::empty(),
    }
}

/// The value placeholder of a flag's help label: the variable display name
/// for a value-taking flag, and for a boolean flag a space run of the same
/// width, so the description columns still align.
pub open spec fn value_part(f: FlagV) -> Seq<char> {
    if f.is_bool() {
        spaces(f.var_len())
    } else {
        f.var_display()
    }
}

/// The value placeholder of a flag's help line is always exactly `var_len`
/// characters wide: a variable name keeps its width under upper-casing, and
/// a boolean flag's space run has that width by construction.
pub proof fn spaces_len_of_value_part(f: FlagV)
    ensures
        value_part(f).len() == f.var_len(),
{
}

/// One line of the options help block: the label `-s, --long VARNAME`,
/// padding to the common column, then the description.
pub open spec fn flag_line(f: FlagV, w: nat) -> Seq<char> {
    "  "@ + short_label(f) + "--"@ + f.name + " "@ + value_part(f) + spaces(pad(w, f.label_len()))
        + or_empty(f.description) + "\n"@
}

/// The lines of the options help block, in declaration order.
pub open spec fn flags_block(fs: Seq<FlagV>, w: nat) -> Seq<char>
    decreases fs.len(),
{
    if fs.len() == 0 {
        Seq::empty()
    } else {
        flags_block(fs.drop_last(), w) + flag_line(fs.last(), w)
    }
}

/// The prologue, after one blank line, when the interface has one.
pub open spec fn prologue_part(c: ConfigV) -> Seq<char> {
    match c.prologue {
        Some(p) => "\n\n"@ + p,
        None => Seq::empty(),
    }
}

/// The header of the help block: `name - description`, then the usage
/// synopsis with every positional display name and `[OPTIONS]`.
pub open spec fn usage_header(c: ConfigV) -> Seq<char> {
    c.name + " - "@ + or_empty(c.description) + "\n"@ + "Usage: "@ + c.name + synopsis(c.positional)
        + " [OPTIONS]\n"@
}

/// The arguments section of the help block.
pub open spec fn usage_args(c: ConfigV) -> Seq<char> {
    "\n\\e[4mArguments:\\e[0m\n"@ + args_block(c.positional, c.max_arg_width())
}

/// The options section of the help block, closed by a synthetic `--help`
/// entry aligned with the flag lines.
pub open spec fn usage_opts(c: ConfigV) -> Seq<char> {
    "\n\\e[4mOptions:\\e[0m\n"@ + flags_block(c.flags, c.max_label_width()) + "  --help"@ + spaces(
        c.max_label_width(),
    ) + "show this message and exit."@
}

/// The complete help/usage block assigned to `__usage`: header line, usage
/// synopsis, arguments section, options section with a synthetic `--help`
/// entry, and the prologue.
pub open spec fn usage_text(c: ConfigV) -> Seq<char> {
    usage_header(c) + usage_args(c) + usage_opts(c) + prologue_part(c)
}

/// Opening of the script: shebang and the start of the `__usage` assignment.
pub open spec fn script_pre() -> Seq<char> {
    "#!/bin/sh\n\n__usage=\""@
}

/// Close of the `__usage` assignment.
pub open spec fn post_usage() -> Seq<char> {
    "\"\n\n"@
}

/// Early help interception: before any other validation, every argument is
/// compared with `--help`; on a match the usage block is printed and the
/// script exits with status 0.
pub open spec fn help_check() -> Seq<char> {
    "for __arg in \"$@\"; do\n  if [ \"$__arg\" = \"--help\" ]; then\n    echo -e \"$__usage\"\n    exit 0\n  fi\ndone\n\n"@
}

/// Arity check for `n` positional arguments: when fewer than `n` arguments
/// remain, an error names the expected and received counts and the script
/// exits with status 1.
pub open spec fn arity_text(n: nat) -> Seq<char> {
    "if [ $# -lt "@ + dec_of(n) + " ]; then\n  echo \"Not enough arguments - expected "@ + dec_of(n)
        + ", received $#\"\n  exit 1\nfi\n\n"@
}

/// Binding of the positional argument `a` at 1-based position `idx` of `n`:
/// the variable takes the positional value, and a value that begins with a
/// dash is rejected as "not enough arguments", reporting the `idx - 1`
/// arguments filled before it.
pub open spec fn bind_one(a: PositionalArgV, idx: nat, n: nat) -> Seq<char>
    recommends
        idx >= 1,
{
    a.var_display() + "=\"$"@ + dec_of(idx) + "\"\ncase \"$"@ + a.var_display()
        + "\" in\n  -*)\n    echo \"Not enough arguments - expected "@ + dec_of(n) + ", received "@
        + dec_of((idx - 1) as nat) + "\"\n    exit 1\n    ;;\nesac\n"@
}

/// The bindings of all `n` positional arguments, left to right.
pub open spec fn binds(ps: Seq<PositionalArgV>, n: nat) -> Seq<char>
    decreases ps.len(),
{
    if ps.len() == 0 {
        Seq::empty()
    } else {
        binds(ps.drop_last(), n) + bind_one(ps.last(), ps.len(), n)
    }
}

/// The whole positional section: arity check, left-to-right binding with
/// dash-prefix detection, and the shift past all positional arguments.
/// Empty when the interface has no positional arguments.
pub open spec fn pos_section(ps: Seq<PositionalArgV>) -> Seq<char> {
    if ps.len() == 0 {
        Seq::empty()
    } else {
        arity_text(ps.len()) + binds(ps, ps.len()) + "shift "@ + dec_of(ps.len()) + "\n\n"@
    }
}

/// Default initialization of one flag's variable: `false` for a boolean
/// flag, else the configured default in double quotes (empty when absent).
pub open spec fn default_line(f: FlagV) -> Seq<char> {
    f.var_display() + "="@ + (if f.is_bool() {
        "false"@
    } else {
        "\""@ + or_empty(f.default) + "\""@
    }) + "\n"@
}

/// Default initialization of every flag's variable, in declaration order;
/// empty when the interface has no flags.
pub open spec fn defaults_section(fs: Seq<FlagV>) -> Seq<char>
    decreases fs.len(),
{
    if fs.len() == 0 {
        Seq::empty()
    } else {
        defaults_section(fs.drop_last()) + default_line(fs.last())
    }
}

/// Head of the flag-parsing loop.
pub open spec fn while_head() -> Seq<char> {
    "while [ $# -gt 0 ]; do\n  case \"$1\" in\n"@
}

/// One membership test of the choice validation: the bound value differs
/// from the choice `v`.
pub open spec fn choice_test(var: Seq<char>, v: Seq<char>) -> Seq<char> {
    "[ \"$"@ + var + "\" != \""@ + v + "\" ]"@
}

/// The condition under which a bound value is rejected: it differs from
/// every configured choice. An empty choice list rejects every value.
pub open spec fn choice_cond(var: Seq<char>, cs: Seq<Seq<char>>) -> Seq<char>
    decreases cs.len(),
{
    if cs.len() == 0 {
        "true"@
    } else if cs.len() == 1 {
        choice_test(var, cs[0])
    } else {
        choice_cond(var, cs.drop_last()) + " && "@ + choice_test(var, cs.last())
    }
}

/// Choice validation of a value-taking flag: when the bound value matches
/// no configured choice, an error names the flag and the value and the
/// script exits with status 1. Empty when no choice list is configured.
pub open spec fn choice_part(f: FlagV) -> Seq<char> {
    match f.choice {
        Some(cs) => "      if "@ + choice_cond(f.var_display(), cs)
            + "; then\n        echo \"invalid value provided for "@ + f.name + ": \\\"$"@
            + f.var_display() + "\\\"\"\n        exit 1\n      fi\n"@,
        None => Seq::empty(),
    }
}

/// Body of a flag's match arm. A boolean flag sets its variable to `true`
/// and consumes one argument. A value-taking flag requires a following
/// argument (else an error names the flag and the script exits 1), binds it,
/// validates it against the choice list, and consumes two arguments.
pub open spec fn arm_body(f: FlagV) -> Seq<char> {
    if f.is_bool() {
        "      "@ + f.var_display() + "=true\n      shift 1\n"@
    } else {
        "      if [ $# -eq 1 ]; then\n        echo \"no value provided for --"@ + f.name
            + "\"\n        exit 1\n      fi\n      "@ + f.var_display() + "=\"$2\"\n"@
            + choice_part(f) + "      shift 2\n"@
    }
}

/// One flag's match arm: the short alias (when present) and the long form
/// as the patterns, then the arm body.
pub open spec fn arm(f: FlagV) -> Seq<char> {
    "    "@ + (match f.short {
        Some(s) => "-"@ + s + "|"@,
        None => Seq::empty(),
    }) + "--"@ + f.name + ")\n"@ + arm_body(f) + "      ;;\n"@
}

/// The match arms of all flags, in declaration order.
pub open spec fn arms(fs: Seq<FlagV>) -> Seq<char>
    decreases fs.len(),
{
    if fs.len() == 0 {
        Seq::empty()
    } else {
        arms(fs.drop_last()) + arm(fs.last())
    }
}

/// The `--help` arm of the flag loop: prints the usage block and exits 0.
pub open spec fn help_arm() -> Seq<char> {
    "    --help)\n      echo -e \"$__usage\"\n      exit 0\n      ;;\n"@
}

/// The catch-all arm: any argument matching no flag is an unknown flag; the
/// error names it, points at the program's `--help`, and the script exits 1.
pub open spec fn unknown_arm(c: ConfigV) -> Seq<char> {
    "    *)\n      echo \"Unknown flag \\\"$1\\\"\"\n      echo \"Try "@ + c.name
        + " --help for help.\"\n      exit 1\n      ;;\n"@
}

/// Close of the flag loop.
pub open spec fn script_tail() -> Seq<char> {
    "  esac\ndone\n"@
}

/// The complete generated script: shebang, `__usage` assignment, early help
/// interception, positional section, flag defaults, and the flag-parsing
/// loop with one arm per flag plus the `--help` and unknown-flag arms.
pub open spec fn script_of(c: ConfigV) -> Seq<char> {
    script_pre() + usage_text(c) + post_usage() + help_check() + pos_section(c.positional)
        + defaults_section(
        c.flags,
    ) + (if c.flags.len() == 0 {
        Seq::<char>::empty()
    } else {
        "\n"@
    }) + while_head() + arms(c.flags) + help_arm() + unknown_arm(c) + script_tail()
}

fn is_store_true(f: &Flag) -> (r: bool)
    ensures
        r == f@.is_bool(),
{
    match &f.ftype {
        Some(t) => {
            let tag = String::from_str("store_true");
            t.eq(&tag)
        },
        None => false,
    }
}

/// Appends the upper-cased shell variable name of a flag.
fn push_var_display(out: &mut String, f: &Flag)
    ensures
        final(out)@ == old(out)@ + f@.var_display(),
{
    match &f.varname {
        Some(v) => push_upper(out, v.as_str()),
        None => push_upper(out, f.name.as_str()),
    }
}

/// Appends the upper-cased shell variable name of a positional argument.
fn push_pos_var(out: &mut String, a: &PositionalArg)
    ensures
        final(out)@ == old(out)@ + a@.var_display(),
{
    match &a.varname {
        Some(v) => push_upper(out, v.as_str()),
        None => push_upper(out, a.name.as_str()),
    }
}

fn label_len_u128(f: &Flag) -> (r: u128)
    ensures
        r == f@.label_len(),
        r <= u128::MAX - 5,
{
    let short_size: u128 = match &f.short {
        Some(s) => s.as_str().unicode_len() as u128 + 3,
        None => 0,
    };
    let var_size: u128 = (match &f.varname {
        Some(v) => v.as_str().unicode_len(),
        None => f.name.as_str().unicode_len(),
    }) as u128;
    short_size + 2 + f.name.as_str().unicode_len() as u128 + var_size
}

/// Maximum rendered label width over `fs`, or six when `fs` is empty.
fn max_label_width_u128(fs: &Vec<Flag>) -> (r: u128)
    ensures
        fs@.len() == 0 ==> r == 6,
        fs@.len() > 0 ==> r == max_label_of(flag_views(*fs)),
        r <= u128::MAX - 5,
{
    if fs.len() == 0 {
        return 6;
    }
    let mut best: u128 = 0;
    let mut i: usize = 0;
    while i < fs.len()
        invariant
            i <= fs.len(),
            best == max_label_of(flag_views(*fs).take(i as int)),
            best <= u128::MAX - 5,
        decreases fs.len() - i,
    {
        let l = label_len_u128(&fs[i]);
        if l > best {
            best = l;
        }
        proof {
            let s = flag_views(*fs);
            assert(s.take(i + 1).drop_last() =~= s.take(i as int));
            assert(s.take(i + 1).last() == s[i as int]);
        }
        i = i + 1;
    }
    proof {
        assert(flag_views(*fs).take(fs@.len() as int) =~= flag_views(*fs));
    }
    best
}

/// Maximum display width over `ps`, or six when `ps` is empty.
fn max_arg_width_u128(ps: &Vec<PositionalArg>) -> (r: u128)
    ensures
        ps@.len() == 0 ==> r == 6,
        ps@.len() > 0 ==> r == max_arg_of(pos_views(*ps)),
        r <= u128::MAX - 5,
{
    if ps.len() == 0 {
        return 6;
    }
    let mut best: u128 = 0;
    let mut i: usize = 0;
    while i < ps.len()
        invariant
            i <= ps.len(),
            best == max_arg_of(pos_views(*ps).take(i as int)),
            best <= u128::MAX - 5,
        decreases ps.len() - i,
    {
        let l = ps[i].name.as_str().unicode_len() as u128;
        proof {
            assert(pos_views(*ps).take(i + 1).last().display_len() == ps@[i as int].name@.len());
        }
        if l > best {
            best = l;
        }
        proof {
            let s = pos_views(*ps);
            assert(s.take(i + 1).drop_last() =~= s.take(i as int));
        }
        i = i + 1;
    }
    proof {
        assert(pos_views(*ps).take(ps@.len() as int) =~= pos_views(*ps));
    }
    best
}

/// Appends the padding spaces for an item of width `l` in a column of
/// width `w`.
fn push_pad(out: &mut String, w: u128, l: u128)
    requires
        w <= u128::MAX - 5,
    ensures
        final(out)@ == old(out)@ + spaces(pad(w as nat, l as nat)),
{
    let n: u128 = if l <= w {
        w - l + 5
    } else {
        5
    };
    push_spaces(out, n);
}

fn push_synopsis(out: &mut String, ps: &Vec<PositionalArg>)
    ensures
        final(out)@ == old(out)@ + synopsis(pos_views(*ps)),
{
    let mut i: usize = 0;
    while i < ps.len()
        invariant
            i <= ps.len(),
            out@ == old(out)@ + synopsis(pos_views(*ps).take(i as int)),
        decreases ps.len() - i,
    {
        out.append(" ");
        push_upper(out, ps[i].name.as_str());
        proof {
            let s = pos_views(*ps);
            assert(s.take(i + 1).drop_last() =~= s.take(i as int));
            assert(s.take(i + 1).last() == s[i as int]);
            assert(old(out)@ + synopsis(s.take(i + 1)) =~= ((old(out)@ + synopsis(s.take(i as int)))
                + " "@) + s[i as int].display());
        }
        i = i + 1;
    }
    proof {
        assert(pos_views(*ps).take(ps@.len() as int) =~= pos_views(*ps));
    }
}

fn push_arg_line(out: &mut String, a: &PositionalArg, w: u128)
    requires
        w <= u128::MAX - 5,
    ensures
        final(out)@ == old(out)@ + arg_line(a@, w as nat),
{
    out.append("  ");
    push_upper(out, a.name.as_str());
    let l = a.name.as_str().unicode_len() as u128;
    push_pad(out, w, l);
    match &a.description {
        Some(d) => out.append(d.as_str()),
        None => (),
    }
    out.append("\n");
    proof {
        assert(out@ =~= old(out)@ + arg_line(a@, w as nat));
    }
}

fn push_args_block(out: &mut String, ps: &Vec<PositionalArg>, w: u128)
    requires
        w <= u128::MAX - 5,
    ensures
        final(out)@ == old(out)@ + args_block(pos_views(*ps), w as nat),
{
    let mut i: usize = 0;
    while i < ps.len()
        invariant
            w <= u128::MAX - 5,
            i <= ps.len(),
            out@ == old(out)@ + args_block(pos_views(*ps).take(i as int), w as nat),
        decreases ps.len() - i,
    {
        push_arg_line(out, &ps[i], w);
        proof {
            let s = pos_views(*ps);
            assert(s.take(i + 1).drop_last() =~= s.take(i as int));
            assert(s.take(i + 1).last() == s[i as int]);
            assert(old(out)@ + args_block(s.take(i + 1), w as nat) =~= (old(out)@ + args_block(
                s.take(i as int),
                w as nat,
            )) + arg_line(s[i as int], w as nat));
        }
        i = i + 1;
    }
    proof {
        assert(pos_views(*ps).take(ps@.len() as int) =~= pos_views(*ps));
    }
}

fn push_flag_line(out: &mut String, f: &Flag, w: u128)
    requires
        w <= u128::MAX - 5,
    ensures
        final(out)@ == old(out)@ + flag_line(f@, w as nat),
{
    out.append("  ");
    match &f.short {
        Some(s) => {
            out.append("-");
            out.append(s.as_str());
            out.append(", ");
        },
        None => (),
    }
    out.append("--");
    out.append(f.name.as_str());
    out.append(" ");
    if is_store_true(f) {
        let vl = f.varlen() as u128;
        push_spaces(out, vl);
    } else {
        push_var_display(out, f);
    }
    let l = label_len_u128(f);
    push_pad(out, w, l);
    match &f.description {
        Some(d) => out.append(d.as_str()),
        None => (),
    }
    out.append("\n");
    proof {
        assert(out@ =~= old(out)@ + flag_line(f@, w as nat));
    }
}

fn push_flags_block(out: &mut String, fs: &Vec<Flag>, w: u128)
    requires
        w <= u128::MAX - 5,
    ensures
        final(out)@ == old(out)@ + flags_block(flag_views(*fs), w as nat),
{
    let mut i: usize = 0;
    while i < fs.len()
        invariant
            w <= u128::MAX - 5,
            i <= fs.len(),
            out@ == old(out)@ + flags_block(flag_views(*fs).take(i as int), w as nat),
        decreases fs.len() - i,
    {
        push_flag_line(out, &fs[i], w);
        proof {
            let s = flag_views(*fs);
            assert(s.take(i + 1).drop_last() =~= s.take(i as int));
            assert(s.take(i + 1).last() == s[i as int]);
            assert(old(out)@ + flags_block(s.take(i + 1), w as nat) =~= (old(out)@ + flags_block(
                s.take(i as int),
                w as nat,
            )) + flag_line(s[i as int], w as nat));
        }
        i = i + 1;
    }
    proof {
        assert(flag_views(*fs).take(fs@.len() as int) =~= flag_views(*fs));
    }
}

fn push_usage_header(out: &mut String, c: &Config)
    ensures
        final(out)@ == old(out)@ + usage_header(c@),
{
    out.append(c.name.as_str());
    out.append(" - ");
    match &c.description {
        Some(d) => out.append(d.as_str()),
        None => (),
    }
    out.append("\n");
    out.append("Usage: ");
    out.append(c.name.as_str());
    push_synopsis(out, &c.positional);
    out.append(" [OPTIONS]\n");
    proof {
        assert(out@ =~= old(out)@ + usage_header(c@));
    }
}

fn push_usage_args(out: &mut String, c: &Config)
    ensures
        final(out)@ == old(out)@ + usage_args(c@),
{
    out.append("\n\\e[4mArguments:\\e[0m\n");
    let wa = max_arg_width_u128(&c.positional);
    push_args_block(out, &c.positional, wa);
    proof {
        assert(wa as nat == c@.max_arg_width());
        assert(out@ =~= old(out)@ + usage_args(c@));
    }
}

fn push_usage_opts(out: &mut String, c: &Config)
    ensures
        final(out)@ == old(out)@ + usage_opts(c@),
{
    out.append("\n\\e[4mOptions:\\e[0m\n");
    let wl = max_label_width_u128(&c.flags);
    push_flags_block(out, &c.flags, wl);
    out.append("  --help");
    push_spaces(out, wl);
    out.append("show this message and exit.");
    proof {
        assert(wl as nat == c@.max_label_width());
        assert(out@ =~= old(out)@ + usage_opts(c@));
    }
}

fn push_usage(out: &mut String, c: &Config)
    ensures
        final(out)@ == old(out)@ + usage_text(c@),
{
    push_usage_header(out, c);
    push_usage_args(out, c);
    push_usage_opts(out, c);
    match &c.prologue {
        Some(p) => {
            out.append("\n\n");
            out.append(p.as_str());
        },
        None => (),
    }
    proof {
        assert(out@ =~= old(out)@ + usage_text(c@));
    }
}

fn push_arity(out: &mut String, n: usize)
    ensures
        final(out)@ == old(out)@ + arity_text(n as nat),
{
    out.append("if [ $# -lt ");
    push_dec(out, n);
    out.append(" ]; then\n  echo \"Not enough arguments - expected ");
    push_dec(out, n);
    out.append(", received $#\"\n  exit 1\nfi\n\n");
    proof {
        assert(out@ =~= old(out)@ + arity_text(n as nat));
    }
}

fn push_bind(out: &mut String, a: &PositionalArg, idx: usize, n: usize)
    requires
        1 <= idx,
    ensures
        final(out)@ == old(out)@ + bind_one(a@, idx as nat, n as nat),
{
    push_pos_var(out, a);
    out.append("=\"$");
    push_dec(out, idx);
    out.append("\"\ncase \"$");
    push_pos_var(out, a);
    out.append("\" in\n  -*)\n    echo \"Not enough arguments - expected ");
    push_dec(out, n);
    out.append(", received ");
    push_dec(out, idx - 1);
    out.append("\"\n    exit 1\n    ;;\nesac\n");
    proof {
        assert(out@ =~= old(out)@ + bind_one(a@, idx as nat, n as nat));
    }
}

fn push_pos_section(out: &mut String, ps: &Vec<PositionalArg>)
    ensures
        final(out)@ == old(out)@ + pos_section(pos_views(*ps)),
{
    let n = ps.len();
    if n == 0 {
        return ;
    }
    push_arity(out, n);
    let mut i: usize = 0;
    while i < n
        invariant
            i <= n,
            n == ps.len(),
            n > 0,
            out@ == old(out)@ + arity_text(n as nat) + binds(pos_views(*ps).take(i as int), n as nat),
        decreases n - i,
    {
        push_bind(out, &ps[i], i + 1, n);
        proof {
            let s = pos_views(*ps);
            assert(s.take(i + 1).drop_last() =~= s.take(i as int));
            assert(s.take(i + 1).last() == s[i as int]);
            assert(s.take(i + 1).len() == i + 1);
            assert(old(out)@ + arity_text(n as nat) + binds(s.take(i + 1), n as nat) =~= ((old(out)@
                + arity_text(n as nat)) + binds(s.take(i as int), n as nat)) + bind_one(
                s[i as int],
                (i + 1) as nat,
                n as nat,
            ));
        }
        i = i + 1;
    }
    out.append("shift ");
    push_dec(out, n);
    out.append("\n\n");
    proof {
        assert(pos_views(*ps).take(ps@.len() as int) =~= pos_views(*ps));
        assert(out@ =~= old(out)@ + pos_section(pos_views(*ps)));
    }
}

fn push_default_line(out: &mut String, f: &Flag)
    ensures
        final(out)@ == old(out)@ + default_line(f@),
{
    push_var_display(out, f);
    out.append("=");
    if is_store_true(f) {
        out.append("false");
    } else {
        out.append("\"");
        match &f.default {
            Some(d) => out.append(d.as_str()),
            None => (),
        }
        out.append("\"");
    }
    out.append("\n");
    proof {
        assert(out@ =~= old(out)@ + default_line(f@));
    }
}

fn push_defaults(out: &mut String, fs: &Vec<Flag>)
    ensures
        final(out)@ == old(out)@ + defaults_section(flag_views(*fs)),
{
    let mut i: usize = 0;
    while i < fs.len()
        invariant
            i <= fs.len(),
            out@ == old(out)@ + defaults_section(flag_views(*fs).take(i as int)),
        decreases fs.len() - i,
    {
        push_default_line(out, &fs[i]);
        proof {
            let s = flag_views(*fs);
            assert(s.take(i + 1).drop_last() =~= s.take(i as int));
            assert(s.take(i + 1).last() == s[i as int]);
            assert(old(out)@ + defaults_section(s.take(i + 1)) =~= (old(out)@ + defaults_section(
                s.take(i as int),
            )) + default_line(s[i as int]));
        }
        i = i + 1;
    }
    proof {
        assert(flag_views(*fs).take(fs@.len() as int) =~= flag_views(*fs));
    }
}

fn push_choice_test(out: &mut String, f: &Flag, v: &String)
    ensures
        final(out)@ == old(out)@ + choice_test(f@.var_display(), v@),
{
    out.append("[ \"$");
    push_var_display(out, f);
    out.append("\" != \"");
    out.append(v.as_str());
    out.append("\" ]");
    proof {
        assert(out@ =~= old(out)@ + choice_test(f@.var_display(), v@));
    }
}

fn push_choice_cond(out: &mut String, f: &Flag, cs: &Vec<String>)
    ensures
        final(out)@ == old(out)@ + choice_cond(f@.var_display(), cs.deep_view()),
{
    let m = cs.len();
    if m == 0 {
        out.append("true");
        return ;
    }
    push_choice_test(out, f, &cs[0]);
    proof {
        assert(cs.deep_view().take(1) =~= seq![cs.deep_view()[0]]);
        assert(choice_cond(f@.var_display(), cs.deep_view().take(1)) == choice_test(
            f@.var_display(),
            cs.deep_view()[0],
        ));
    }
    let mut i: usize = 1;
    while i < m
        invariant
            1 <= i <= m,
            m == cs.len(),
            out@ == old(out)@ + choice_cond(f@.var_display(), cs.deep_view().take(i as int)),
        decreases m - i,
    {
        out.append(" && ");
        push_choice_test(out, f, &cs[i]);
        proof {
            let s = cs.deep_view();
            assert(s.take(i + 1).drop_last() =~= s.take(i as int));
            assert(s.take(i + 1).last() == s[i as int]);
            assert(s.take(i + 1).len() == i + 1);
            assert(old(out)@ + choice_cond(f@.var_display(), s.take(i + 1)) =~= ((old(out)@
                + choice_cond(f@.var_display(), s.take(i as int))) + " && "@) + choice_test(
                f@.var_display(),
                s[i as int],
            ));
        }
        i = i + 1;
    }
    proof {
        assert(cs.deep_view().take(cs@.len() as int) =~= cs.deep_view());
    }
}

fn push_choice_part(out: &mut String, f: &Flag)
    ensures
        final(out)@ == old(out)@ + choice_part(f@),
{
    match &f.choice {
        Some(cs) => {
            out.append("      if ");
            push_choice_cond(out, f, cs);
            out.append("; then\n        echo \"invalid value provided for ");
            out.append(f.name.as_str());
            out.append(": \\\"$");
            push_var_display(out, f);
            out.append("\\\"\"\n        exit 1\n      fi\n");
            proof {
                assert(f@.choice == Some(cs.deep_view()));
                assert(out@ =~= old(out)@ + choice_part(f@));
            }
        },
        None => (),
    }
}

fn push_arm_body(out: &mut String, f: &Flag)
    ensures
        final(out)@ == old(out)@ + arm_body(f@),
{
    if is_store_true(f) {
        out.append("      ");
        push_var_display(out, f);
        out.append("=true\n      shift 1\n");
        proof {
            assert(out@ =~= old(out)@ + arm_body(f@));
        }
    } else {
        out.append("      if [ $# -eq 1 ]; then\n        echo \"no value provided for --");
        out.append(f.name.as_str());
        out.append("\"\n        exit 1\n      fi\n      ");
        push_var_display(out, f);
        out.append("=\"$2\"\n");
        push_choice_part(out, f);
        out.append("      shift 2\n");
        proof {
            assert(out@ =~= old(out)@ + arm_body(f@));
        }
    }
}

fn push_arm(out: &mut String, f: &Flag)
    ensures
        final(out)@ == old(out)@ + arm(f@),
{
    out.append("    ");
    match &f.short {
        Some(s) => {
            out.append("-");
            out.append(s.as_str());
            out.append("|");
        },
        None => (),
    }
    out.append("--");
    out.append(f.name.as_str());
    out.append(")\n");
    push_arm_body(out, f);
    out.append("      ;;\n");
    proof {
        assert(out@ =~= old(out)@ + arm(f@));
    }
}

fn push_arms(out: &mut String, fs: &Vec<Flag>)
    ensures
        final(out)@ == old(out)@ + arms(flag_views(*fs)),
{
    let mut i: usize = 0;
    while i < fs.len()
        invariant
            i <= fs.len(),
            out@ == old(out)@ + arms(flag_views(*fs).take(i as int)),
        decreases fs.len() - i,
    {
        push_arm(out, &fs[i]);
        proof {
            let s = flag_views(*fs);
            assert(s.take(i + 1).drop_last() =~= s.take(i as int));
            assert(s.take(i + 1).last() == s[i as int]);
            assert(old(out)@ + arms(s.take(i + 1)) =~= (old(out)@ + arms(s.take(i as int))) + arm(
                s[i as int],
            ));
        }
        i = i + 1;
    }
    proof {
        assert(flag_views(*fs).take(fs@.len() as int) =~= flag_views(*fs));
    }
}

/// Renders the complete shell script for the interface `config` describes.
///
/// The result is exactly [`script_of`] of the description: a script that
/// intercepts `--help` before any validation, checks the positional-argument
/// count, binds positional values left to right (rejecting dash-prefixed
/// values), initializes every flag variable to its default, and then parses
/// flags until the arguments run out.
pub fn render_script(config: &Config) -> (r: String)
    ensures
        r@ == script_of(config@),
{
    let mut out = String::new();
    out.append("#!/bin/sh\n\n__usage=\"");
    push_usage(&mut out, config);
    out.append("\"\n\n");
    out.append(
        "for __arg in \"$@\"; do\n  if [ \"$__arg\" = \"--help\" ]; then\n    echo -e \"$__usage\"\n    exit 0\n  fi\ndone\n\n",
    );
    push_pos_section(&mut out, &config.positional);
    push_defaults(&mut out, &config.flags);
    if config.flags.len() > 0 {
        out.append("\n");
    }
    out.append("while [ $# -gt 0 ]; do\n  case \"$1\" in\n");
    push_arms(&mut out, &config.flags);
    out.append("    --help)\n      echo -e \"$__usage\"\n      exit 0\n      ;;\n");
    out.append("    *)\n      echo \"Unknown flag \\\"$1\\\"\"\n      echo \"Try ");
    out.append(config.name.as_str());
    out.append(" --help for help.\"\n      exit 1\n      ;;\n");
    out.append("  esac\ndone\n");
    proof {
        assert(out@ =~= script_of(config@));
    }
    out
}

/// A loaded interface description, ready to render.
pub struct FlagParser {
    /// The description that [`FlagParser::render`] turns into script text.
    pub config: Config,
}

impl FlagParser {
    /// Wraps an interface description for rendering.
    pub fn new(config: Config) -> (r: Self)
        ensures
            r.config == config,
    {
        FlagParser { config }
    }

    /// Renders the held description into the complete shell script.
    pub fn render(&self) -> (r: String)
        ensures
            r@ == script_of(self.config@),
    {
        render_script(&self.config)
    }
}

} // verus!
