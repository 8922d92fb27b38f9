//! The specification model: an in-memory description of a command-line
//! interface (program name, ordered positional arguments, ordered flags)
//! together with the derived presentation attributes (upper-cased variable
//! names, display widths) that the script renderer needs.
//!
//! Every entity is immutable after construction and all accessors are total.

use vstd::prelude::*;
use crate::text::{push_upper, upper};

verus! {

/// One required positional argument of the interface.
///
/// Positional arguments are consumed strictly left to right, before flag
/// parsing begins; every positional argument is mandatory.
pub struct PositionalArg {
    /// Logical name; the display form is the upper-cased name.
    pub name: String,
    /// One-line description shown in the help block.
    pub description: Option<String>,
    /// Overrides the shell variable that holds the value; the variable is
    /// the upper-cased `varname` if present, else the upper-cased `name`.
    pub varname: Option<String>,
}

/// Ghost image of a [`PositionalArg`].
pub struct PositionalArgV {
    pub name: Seq<char>,
    pub description: Option<Seq<char>>,
    pub varname: Option<Seq<char>>,
}

impl View for PositionalArg {
    type V = PositionalArgV;

    open spec fn view(&self) -> PositionalArgV {
        PositionalArgV {
            name: self.name@,
            description: match self.description {
                Some(d) => Some(d@),
                None => None,
            },
            varname: match self.varname {
                Some(v) => Some(v@),
                None => None,
            },
        }
    }
}

impl PositionalArgV {
    /// Display form used in the usage line and the arguments help block:
    /// the upper-cased name.
    pub open spec fn display(self) -> Seq<char> {
        upper(self.name)
    }

    /// Width of the display form, used for column alignment.
    pub open spec fn display_len(self) -> nat {
        self.display().len()
    }

    /// Name of the shell variable that receives the value: the upper-cased
    /// `varname` override if present, else the upper-cased `name`.
    pub open spec fn var_display(self) -> Seq<char> {
        match self.varname {
            Some(v) => upper(v),
            None => upper(self.name),
        }
    }
}

impl PositionalArg {
    /// Width of the upper-cased display name.
    pub fn len(&self) -> (n: usize)
        ensures
            n == self@.display_len(),
    {
        self.name.as_str().unicode_len()
    }

    /// Display form of the name: always upper-cased, whatever the source
    /// casing.
    pub fn display_name(&self) -> (r: String)
        ensures
            r@ == self@.display(),
    {
        let mut s = String::new();
        push_upper(&mut s, self.name.as_str());
        proof {
            assert(s@ =~= self@.display());
        }
        s
    }

    /// Effective shell variable name: the upper-cased `varname` override if
    /// present, else the upper-cased `name`.
    pub fn var_name(&self) -> (r: String)
        ensures
            r@ == self@.var_display(),
    {
        let mut s = String::new();
        match &self.varname {
            Some(v) => push_upper(&mut s, v.as_str()),
            None => push_upper(&mut s, self.name.as_str()),
        }
        proof {
            assert(s@ =~= self@.var_display());
        }
        s
    }
}

/// One named option of the interface, either boolean (`store_true`) or
/// taking exactly one value, optionally constrained to a choice set.
pub struct Flag {
    /// Long name, written `--name` on the command line.
    pub name: String,
    /// Optional short alias, written `-short`.
    pub short: Option<String>,
    /// One-line description shown in the help block.
    pub description: Option<String>,
    /// Overrides the shell variable that holds the value; the variable is
    /// the upper-cased `varname` if present, else the upper-cased `name`.
    pub varname: Option<String>,
    /// Value assigned before parsing begins (ignored for `store_true`).
    pub default: Option<String>,
    /// Type tag; `store_true` means the flag takes no value and sets its
    /// variable to `true`, any other (or absent) tag means the flag takes
    /// exactly one following value.
    pub ftype: Option<String>,
    /// If present on a value-taking flag, the generated script rejects any
    /// supplied value that is not exactly one of these strings.
    pub choice: Option<Vec<String>>,
}

/// Ghost image of a [`Flag`].
pub struct FlagV {
    pub name: Seq<char>,
    pub short: Option<Seq<char>>,
    pub description: Option<Seq<char>>,
    pub varname: Option<Seq<char>>,
    pub default: Option<Seq<char>>,
    pub ftype: Option<Seq<char>>,
    pub choice: Option<Seq<Seq<char>>>,
}

impl View for Flag {
    type V = FlagV;

    open spec fn view(&self) -> FlagV {
        FlagV {
            name: self.name@,
            short: match self.short {
                Some(s) => Some(s@),
                None => None,
            },
            description: match self.description {
                Some(d) => Some(d@),
                None => None,
            },
            varname: match self.varname {
                Some(v) => Some(v@),
                None => None,
            },
            default: match self.default {
                Some(d) => Some(d@),
                None => None,
            },
            ftype: match self.ftype {
                Some(t) => Some(t@),
                None => None,
            },
            choice: match self.choice {
                Some(c) => Some(c.deep_view()),
                None => None,
            },
        }
    }
}

impl FlagV {
    /// The string whose upper-cased form names the shell variable:
    /// the `varname` override if present, else the long name.
    pub open spec fn var_base(self) -> Seq<char> {
        match self.varname {
            Some(v) => v,
            None => self.name,
        }
    }

    /// Name of the shell variable that receives the value.
    pub open spec fn var_display(self) -> Seq<char> {
        upper(self.var_base())
    }

    /// Width of the variable display name; a boolean flag's help line holds
    /// a space run of this width where a value-taking flag shows its
    /// variable name, so the columns still align.
    pub open spec fn var_len(self) -> nat {
        self.var_base().len()
    }

    /// Whether the flag is boolean: its type tag is exactly `store_true`.
    pub open spec fn is_bool(self) -> bool {
        self.ftype == Some("store_true"@)
    }

    /// Rendered width of the flag's help label `-s, --long VARNAME`:
    /// the short alias contributes its own width plus three (`-` and `, `),
    /// then two for `--`, the long name, and the variable display name.
    pub open spec fn label_len(self) -> nat {
        (match self.short {
            Some(s) => s.len() + 3,
            None => 0nat,
        }) + 2 + self.name.len() + self.var_len()
    }
}

impl Flag {
    /// Width of the variable display name.
    pub fn varlen(&self) -> (n: usize)
        ensures
            n == self@.var_len(),
    {
        match &self.varname {
            Some(v) => v.as_str().unicode_len(),
            None => self.name.as_str().unicode_len(),
        }
    }

    /// Rendered width of the help label `-s, --long VARNAME`.
    pub fn len(&self) -> (n: usize)
        requires
            self@.label_len() <= usize::MAX,
        ensures
            n == self@.label_len(),
    {
        let short_size: usize = match &self.short {
            Some(s) => s.as_str().unicode_len() + 3,
            None => 0,
        };
        short_size + 2 + self.name.as_str().unicode_len() + self.varlen()
    }

    /// Effective shell variable name: the upper-cased `varname` override if
    /// present, else the upper-cased long name.
    pub fn var_name(&self) -> (r: String)
        ensures
            r@ == self@.var_display(),
    {
        let mut s = String::new();
        match &self.varname {
            Some(v) => push_upper(&mut s, v.as_str()),
            None => push_upper(&mut s, self.name.as_str()),
        }
        proof {
            assert(s@ =~= self@.var_display());
        }
        s
    }
}

/// A complete interface description: the root entity handed to the renderer.
pub struct Config {
    /// Program name, used in the usage line and in error messages.
    pub name: String,
    /// One-line summary shown in the usage header.
    pub description: Option<String>,
    /// Free-form text appended after the help block.
    pub prologue: Option<String>,
    /// Positional arguments, in command-line order.
    pub positional: Vec<PositionalArg>,
    /// Flags, in help display order.
    pub flags: Vec<Flag>,
}

/// Ghost images of a vector of positional arguments, in order.
pub open spec fn pos_views(ps: Vec<PositionalArg>) -> Seq<PositionalArgV> {
    ps@.map_values(|p: PositionalArg| p@)
}

/// Ghost images of a vector of flags, in order.
pub open spec fn flag_views(fs: Vec<Flag>) -> Seq<FlagV> {
    fs@.map_values(|f: Flag| f@)
}

/// Ghost image of a [`Config`].
pub struct ConfigV {
    pub name: Seq<char>,
    pub description: Option<Seq<char>>,
    pub prologue: Option<Seq<char>>,
    pub positional: Seq<PositionalArgV>,
    pub flags: Seq<FlagV>,
}

impl View for Config {
    type V = ConfigV;

    open spec fn view(&self) -> ConfigV {
        ConfigV {
            name: self.name@,
            description: match self.description {
                Some(d) => Some(d@),
                None => None,
            },
            prologue: match self.prologue {
                Some(p) => Some(p@),
                None => None,
            },
            positional: pos_views(self.positional),
            flags: flag_views(self.flags),
        }
    }
}

/// Largest label width among `flags`; zero when there are none.
pub open spec fn max_label_of(flags: Seq<FlagV>) -> nat
    decreases flags.len(),
{
    if flags.len() == 0 {
        0
    } else {
        let rest = max_label_of(flags.drop_last());
        let last = flags.last().label_len();
        if last >= rest {
            last
        } else {
            rest
        }
    }
}

/// Largest display width among `positional`; zero when there are none.
pub open spec fn max_arg_of(positional: Seq<PositionalArgV>) -> nat
    decreases positional.len(),
{
    if positional.len() == 0 {
        0
    } else {
        let rest = max_arg_of(positional.drop_last());
        let last = positional.last().display_len();
        if last >= rest {
            last
        } else {
            rest
        }
    }
}

impl ConfigV {
    /// Maximum rendered label width across all flags, used to align the
    /// description column of the options help block; six when there are no
    /// flags.
    pub open spec fn max_label_width(self) -> nat {
        if self.flags.len() == 0 {
            6
        } else {
            max_label_of(self.flags)
        }
    }

    /// Maximum display width across all positional arguments, used to align
    /// the description column of the arguments help block; six when there
    /// are none.
    pub open spec fn max_arg_width(self) -> nat {
        if self.positional.len() == 0 {
            6
        } else {
            max_arg_of(self.positional)
        }
    }
}

/// Every flag's label width is bounded by the maximum over its sequence.
pub proof fn lemma_max_label_bound(flags: Seq<FlagV>, i: int)
    requires
        0 <= i < flags.len(),
    ensures
        flags[i].label_len() <= max_label_of(flags),
    decreases flags.len(),
{
    if i < flags.len() - 1 {
        lemma_max_label_bound(flags.drop_last(), i);
    }
}

impl Config {
    /// Maximum rendered label width across all flags (six when there are
    /// none), as used for help-column alignment.
    pub fn max_label_width(&self) -> (n: usize)
        requires
            forall|i: int|
                0 <= i < self@.flags.len() ==> (#[trigger] self@.flags[i]).label_len()
                    <= usize::MAX,
        ensures
            n == self@.max_label_width(),
    {
        let mut best: usize = 6;
        if self.flags.len() == 0 {
            return best;
        }
        best = 0;
        let mut i: usize = 0;
        while i < self.flags.len()
            invariant
                i <= self.flags.len(),
                self.flags.len() > 0,
                self@.flags.len() == self.flags.len(),
                forall|j: int|
                    0 <= j < self@.flags.len() ==> (#[trigger] self@.flags[j]).label_len()
                        <= usize::MAX,
                best == max_label_of(self@.flags.take(i as int)),
            decreases self.flags.len() - i,
        {
            assert(self@.flags[i as int] == self.flags@[i as int]@);
            let l = self.flags[i].len();
            if l > best {
                best = l;
            }
            proof {
                assert(self@.flags.take(i + 1).drop_last() =~= self@.flags.take(i as int));
                assert(self@.flags.take(i + 1).last() == self@.flags[i as int]);
            }
            i = i + 1;
        }
        proof {
            assert(self@.flags.take(self.flags.len() as int) =~= self@.flags);
        }
        best
    }
}

} // verus!
