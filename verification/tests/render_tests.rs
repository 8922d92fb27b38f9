use flaggen::model::{Config, Flag, PositionalArg};
use flaggen::render::FlagParser;

fn arg(name: &str) -> PositionalArg {
    PositionalArg { name: name.to_string(), description: None, varname: None }
}

fn flag(name: &str) -> Flag {
    Flag {
        name: name.to_string(),
        short: None,
        description: None,
        varname: None,
        default: None,
        ftype: None,
        choice: None,
    }
}

fn bool_flag(name: &str) -> Flag {
    Flag { ftype: Some("store_true".to_string()), ..flag(name) }
}

fn config(positional: Vec<PositionalArg>, flags: Vec<Flag>) -> Config {
    Config {
        name: "tool".to_string(),
        description: None,
        prologue: None,
        positional,
        flags,
    }
}

#[test]
fn empty_interface_renders_fixed_skeleton() {
    let c = Config {
        name: "empty".to_string(),
        description: Some("nothing".to_string()),
        prologue: None,
        positional: Vec::new(),
        flags: Vec::new(),
    };
    let mut expected = String::new();
    expected.push_str("#!/bin/sh\n\n__usage=\"");
    expected.push_str("empty - nothing\n");
    expected.push_str("Usage: empty [OPTIONS]\n");
    expected.push_str("\n\\e[4mArguments:\\e[0m\n");
    expected.push_str("\n\\e[4mOptions:\\e[0m\n");
    expected.push_str("  --help");
    expected.push_str(&" ".repeat(6));
    expected.push_str("show this message and exit.");
    expected.push_str("\"\n\n");
    expected.push_str(
        "for __arg in \"$@\"; do\n  if [ \"$__arg\" = \"--help\" ]; then\n    echo -e \"$__usage\"\n    exit 0\n  fi\ndone\n\n",
    );
    expected.push_str("while [ $# -gt 0 ]; do\n  case \"$1\" in\n");
    expected.push_str("    --help)\n      echo -e \"$__usage\"\n      exit 0\n      ;;\n");
    expected.push_str(
        "    *)\n      echo \"Unknown flag \\\"$1\\\"\"\n      echo \"Try empty --help for help.\"\n      exit 1\n      ;;\n",
    );
    expected.push_str("  esac\ndone\n");
    assert_eq!(FlagParser::new(c).render(), expected);
}

#[test]
fn round_trip_interface_renders_whole_script() {
    let c = config(vec![arg("input")], vec![bool_flag("verbose")]);
    let mut expected = String::new();
    expected.push_str("#!/bin/sh\n\n__usage=\"");
    expected.push_str("tool - \n");
    expected.push_str("Usage: tool INPUT [OPTIONS]\n");
    expected.push_str("\n\\e[4mArguments:\\e[0m\n");
    expected.push_str("  INPUT");
    expected.push_str(&" ".repeat(5));
    expected.push_str("\n");
    expected.push_str("\n\\e[4mOptions:\\e[0m\n");
    // Label width of --verbose is 2 + 7 + 7 = 16; its line shows the label,
    // one space, a 7-space placeholder and 5 padding spaces.
    expected.push_str("  --verbose");
    expected.push_str(&" ".repeat(13));
    expected.push_str("\n");
    expected.push_str("  --help");
    expected.push_str(&" ".repeat(16));
    expected.push_str("show this message and exit.");
    expected.push_str("\"\n\n");
    expected.push_str(
        "for __arg in \"$@\"; do\n  if [ \"$__arg\" = \"--help\" ]; then\n    echo -e \"$__usage\"\n    exit 0\n  fi\ndone\n\n",
    );
    expected.push_str(
        "if [ $# -lt 1 ]; then\n  echo \"Not enough arguments - expected 1, received $#\"\n  exit 1\nfi\n\n",
    );
    expected.push_str(
        "INPUT=\"$1\"\ncase \"$INPUT\" in\n  -*)\n    echo \"Not enough arguments - expected 1, received 0\"\n    exit 1\n    ;;\nesac\n",
    );
    expected.push_str("shift 1\n\n");
    expected.push_str("VERBOSE=false\n");
    expected.push_str("\n");
    expected.push_str("while [ $# -gt 0 ]; do\n  case \"$1\" in\n");
    expected.push_str("    --verbose)\n      VERBOSE=true\n      shift 1\n      ;;\n");
    expected.push_str("    --help)\n      echo -e \"$__usage\"\n      exit 0\n      ;;\n");
    expected.push_str(
        "    *)\n      echo \"Unknown flag \\\"$1\\\"\"\n      echo \"Try tool --help for help.\"\n      exit 1\n      ;;\n",
    );
    expected.push_str("  esac\ndone\n");
    assert_eq!(FlagParser::new(c).render(), expected);
}

#[test]
fn help_interception_precedes_arity_check() {
    let c = config(vec![arg("input")], Vec::new());
    let script = FlagParser::new(c).render();
    let help_at = script
        .find("for __arg in \"$@\"; do\n  if [ \"$__arg\" = \"--help\" ]; then")
        .unwrap();
    let arity_at = script.find("if [ $# -lt 1 ]; then").unwrap();
    assert!(help_at < arity_at);
}

#[test]
fn usage_block_names_program_and_description() {
    let c = Config {
        name: "tool".to_string(),
        description: Some("does things".to_string()),
        prologue: None,
        positional: Vec::new(),
        flags: Vec::new(),
    };
    let script = FlagParser::new(c).render();
    assert!(script.contains("__usage=\"tool - does things\n"));
    assert!(script.contains("Usage: tool [OPTIONS]\n"));
}

#[test]
fn arity_check_names_expected_count() {
    let c = config(vec![arg("src"), arg("dst")], Vec::new());
    let script = FlagParser::new(c).render();
    assert!(script.contains(
        "if [ $# -lt 2 ]; then\n  echo \"Not enough arguments - expected 2, received $#\"\n  exit 1\nfi\n"
    ));
    assert!(script.contains(
        "SRC=\"$1\"\ncase \"$SRC\" in\n  -*)\n    echo \"Not enough arguments - expected 2, received 0\"\n    exit 1\n    ;;\nesac\n"
    ));
    assert!(script.contains(
        "DST=\"$2\"\ncase \"$DST\" in\n  -*)\n    echo \"Not enough arguments - expected 2, received 1\"\n    exit 1\n    ;;\nesac\nshift 2\n"
    ));
}

#[test]
fn store_true_arm_sets_true_and_consumes_one_token() {
    let c = config(Vec::new(), vec![bool_flag("verbose")]);
    let script = FlagParser::new(c).render();
    let start = script.find("    --verbose)\n").unwrap();
    let arm = &script[start..script[start..].find(";;").unwrap() + start];
    assert!(arm.contains("VERBOSE=true\n"));
    assert!(arm.contains("shift 1\n"));
    assert!(!arm.contains("$2"));
    assert!(!arm.contains("shift 2"));
}

#[test]
fn choice_flag_validates_membership() {
    let mut f = flag("color");
    f.choice = Some(vec!["a".to_string(), "b".to_string()]);
    let c = config(Vec::new(), vec![f]);
    let script = FlagParser::new(c).render();
    assert!(script.contains("COLOR=\"$2\"\n"));
    assert!(script.contains(
        "      if [ \"$COLOR\" != \"a\" ] && [ \"$COLOR\" != \"b\" ]; then\n        echo \"invalid value provided for color: \\\"$COLOR\\\"\"\n        exit 1\n      fi\n"
    ));
    assert!(script.contains(
        "      if [ $# -eq 1 ]; then\n        echo \"no value provided for --color\"\n        exit 1\n      fi\n"
    ));
    assert!(script.contains("shift 2\n"));
}

#[test]
fn empty_choice_list_rejects_every_value() {
    let mut f = flag("mode");
    f.choice = Some(Vec::new());
    let c = config(Vec::new(), vec![f]);
    let script = FlagParser::new(c).render();
    assert!(script.contains("      if true; then\n        echo \"invalid value provided for mode:"));
}

#[test]
fn help_columns_align_across_label_widths() {
    // Label widths 2 + 4 + 4 = 10 and 2 + 9 + 9 = 20.
    let mut a = flag("abcd");
    a.description = Some("first one".to_string());
    let mut b = flag("abcdefghi");
    b.description = Some("second one".to_string());
    let c = config(Vec::new(), vec![a, b]);
    let script = FlagParser::new(c).render();
    let line_a = script.lines().find(|l| l.starts_with("  --abcd ")).unwrap();
    let line_b = script.lines().find(|l| l.starts_with("  --abcdefghi ")).unwrap();
    // Both descriptions start at column max_label_width + 8 = 28.
    assert_eq!(line_a.find("first one"), Some(28));
    assert_eq!(line_b.find("second one"), Some(28));
}

#[test]
fn argument_columns_align_across_name_widths() {
    let mut a = arg("in");
    a.description = Some("shorter".to_string());
    let mut b = arg("input");
    b.description = Some("longer".to_string());
    let c = config(vec![a, b], Vec::new());
    let script = FlagParser::new(c).render();
    let line_a = script.lines().find(|l| l.starts_with("  IN ")).unwrap();
    let line_b = script.lines().find(|l| l.starts_with("  INPUT ")).unwrap();
    // Both descriptions start at column max_arg_width + 7 = 12.
    assert_eq!(line_a.find("shorter"), Some(12));
    assert_eq!(line_b.find("longer"), Some(12));
}

#[test]
fn store_true_ignores_configured_default() {
    let mut f = bool_flag("verbose");
    f.default = Some("yes".to_string());
    let c = config(Vec::new(), vec![f]);
    let script = FlagParser::new(c).render();
    assert!(script.contains("VERBOSE=false\n"));
    assert!(!script.contains("yes"));
}

#[test]
fn unknown_flag_arm_references_help() {
    let c = config(vec![arg("input")], vec![bool_flag("verbose")]);
    let script = FlagParser::new(c).render();
    assert!(script.contains(
        "    *)\n      echo \"Unknown flag \\\"$1\\\"\"\n      echo \"Try tool --help for help.\"\n      exit 1\n      ;;\n"
    ));
}

#[test]
fn defaults_initialize_before_parsing() {
    let mut with_default = flag("mode");
    with_default.default = Some("fast".to_string());
    let c = config(Vec::new(), vec![with_default, flag("level"), bool_flag("verbose")]);
    let script = FlagParser::new(c).render();
    let defaults_at = script.find("MODE=\"fast\"\nLEVEL=\"\"\nVERBOSE=false\n").unwrap();
    let loop_at = script.find("while [ $# -gt 0 ]; do").unwrap();
    assert!(defaults_at < loop_at);
}

#[test]
fn varname_overrides_are_uppercased() {
    let mut p = arg("input");
    p.varname = Some("in_file".to_string());
    let mut f = flag("output");
    f.varname = Some("outPath".to_string());
    let c = config(vec![p], vec![f]);
    let script = FlagParser::new(c).render();
    assert!(script.contains("IN_FILE=\"$1\"\n"));
    assert!(script.contains("OUTPATH=\"$2\"\n"));
    // The usage synopsis still shows the upper-cased positional name.
    assert!(script.contains("Usage: tool INPUT [OPTIONS]\n"));
}

#[test]
fn short_alias_appears_in_label_and_pattern() {
    let mut f = flag("color");
    f.short = Some("c".to_string());
    let c = config(Vec::new(), vec![f]);
    let script = FlagParser::new(c).render();
    assert!(script.contains("  -c, --color COLOR"));
    assert!(script.contains("    -c|--color)\n"));
}

#[test]
fn prologue_follows_help_block() {
    let c = Config {
        name: "tool".to_string(),
        description: None,
        prologue: Some("See the manual for more.".to_string()),
        positional: Vec::new(),
        flags: Vec::new(),
    };
    let script = FlagParser::new(c).render();
    assert!(script.contains("show this message and exit.\n\nSee the manual for more.\"\n"));
}
