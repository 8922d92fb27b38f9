use flaggen::model::{Config, Flag, PositionalArg};

fn plain_flag(name: &str) -> Flag {
    Flag {
        name: name.to_string(),
        short: None,
        description: None,
        varname: None,
        default: None,
        ftype: None,
        choice: None,
    }
}

#[test]
fn positional_len_is_name_width() {
    let a = PositionalArg { name: "input".to_string(), description: None, varname: None };
    assert_eq!(a.len(), 5);
}

#[test]
fn varlen_uses_varname_override() {
    let mut f = plain_flag("color");
    assert_eq!(f.varlen(), 5);
    f.varname = Some("hue".to_string());
    assert_eq!(f.varlen(), 3);
}

#[test]
fn label_len_counts_short_dashes_and_varname() {
    // "-c, --color COLOR": 1 + 1 + 2 for "-c, ", 2 for "--", 5 + 5 names.
    let f = Flag { short: Some("c".to_string()), ..plain_flag("color") };
    assert_eq!(f.len(), 4 + 2 + 5 + 5);
    // Without the short alias only "--color COLOR" counts.
    assert_eq!(plain_flag("color").len(), 2 + 5 + 5);
}

#[test]
fn display_name_is_uppercased() {
    let a = PositionalArg { name: "inPut".to_string(), description: None, varname: None };
    assert_eq!(a.display_name(), "INPUT");
}

#[test]
fn var_name_prefers_varname_and_uppercases() {
    let a = PositionalArg {
        name: "input".to_string(),
        description: None,
        varname: Some("src_file".to_string()),
    };
    assert_eq!(a.var_name(), "SRC_FILE");
    let f = Flag { varname: Some("hue2".to_string()), ..plain_flag("color") };
    assert_eq!(f.var_name(), "HUE2");
    assert_eq!(plain_flag("color").var_name(), "COLOR");
}

#[test]
fn max_label_width_defaults_to_six() {
    let c = Config {
        name: "tool".to_string(),
        description: None,
        prologue: None,
        positional: Vec::new(),
        flags: Vec::new(),
    };
    assert_eq!(c.max_label_width(), 6);
}

#[test]
fn max_label_width_takes_the_longest_flag() {
    let c = Config {
        name: "tool".to_string(),
        description: None,
        prologue: None,
        positional: Vec::new(),
        flags: vec![plain_flag("abcd"), plain_flag("abcdefghi"), plain_flag("xy")],
    };
    // Widths are 2 + 2n for a flag without short alias or varname.
    assert_eq!(c.max_label_width(), 2 + 9 + 9);
}
