use conpty::wide::{build_commandline, environment_block_unicode, to_wide_nul};

fn units(s: &str) -> Vec<u16> {
    s.encode_utf16().collect()
}

fn pairs(list: &[(&str, &str)]) -> Vec<(String, String)> {
    list.iter().map(|(k, v)| (k.to_string(), v.to_string())).collect()
}

#[test]
fn env_block_test() {
    let tests = [
        (pairs(&[]), "\0\0"),
        (pairs(&[("asd", "qwe")]), "asd=qwe\0\0"),
        (pairs(&[("asd", "qwe"), ("zxc", "123")]), "asd=qwe\0zxc=123\0\0"),
    ];

    for (m, expected) in tests {
        let env = environment_block_unicode(&m);
        let expected = units(expected);

        assert_eq!(env, expected,);
    }
}

#[test]
fn empty_environment_is_two_terminators() {
    assert_eq!(environment_block_unicode(&Vec::new()), vec![0u16, 0u16]);
}

#[test]
fn single_variable_ends_in_two_terminators() {
    let block = environment_block_unicode(&pairs(&[("K", "V")]));
    assert_eq!(block, vec![0x4B, 0x3D, 0x56, 0, 0]);
}

#[test]
fn entries_keep_the_given_order() {
    let block = environment_block_unicode(&pairs(&[("B", "2"), ("A", "1")]));
    assert_eq!(block, units("B=2\0A=1\0\0"));
}

#[test]
fn empty_value_still_gets_its_entry() {
    let block = environment_block_unicode(&pairs(&[("EMPTY", "")]));
    assert_eq!(block, units("EMPTY=\0\0"));
}

#[test]
fn environment_block_encodes_surrogate_pairs() {
    let block = environment_block_unicode(&pairs(&[("k\u{1F600}", "\u{e9}")]));
    assert_eq!(block, vec![0x6B, 0xD83D, 0xDE00, 0x3D, 0xE9, 0, 0]);
}

#[test]
fn wide_nul_of_empty_string() {
    assert_eq!(to_wide_nul(""), vec![0u16]);
}

#[test]
fn wide_nul_of_text() {
    assert_eq!(to_wide_nul("CONOUT$"), vec![0x43, 0x4F, 0x4E, 0x4F, 0x55, 0x54, 0x24, 0]);
    assert_eq!(to_wide_nul("\u{10000}"), vec![0xD800, 0xDC00, 0]);
}

#[test]
fn command_line_without_arguments_is_the_program() {
    assert_eq!(build_commandline("cmd", &Vec::new()), "cmd");
}

#[test]
fn command_line_joins_arguments_with_spaces() {
    let args = vec!["Hello".to_string(), "World".to_string()];
    assert_eq!(build_commandline("cmd /C echo", &args), "cmd /C echo Hello World");

    let args = vec!["Hello".to_string(), "World".to_string(), "!!!".to_string()];
    assert_eq!(build_commandline("cmd /C echo", &args), "cmd /C echo Hello World !!!");
}

#[test]
fn command_line_does_not_quote_arguments() {
    let args = vec!["a b".to_string(), "\"c\"".to_string(), String::new()];
    assert_eq!(build_commandline("prog", &args), "prog a b \"c\" ");
}
