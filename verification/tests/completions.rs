use clap::{Arg, Command};
use tp::completions::{
    completion_script, patch, replace, zsh_needle, zsh_replacement, Error, Shell,
};

fn zsh_script() -> String {
    format!("#compdef tp\n{}\n&& ret=0\n;;\n", zsh_needle())
}

#[test]
fn replace_changes_the_first_occurrence_only() {
    let mut text = "one two one two".to_string();

    assert_eq!(replace(&mut text, "two", "2"), Ok(()));

    assert_eq!(text, "one 2 one two");
}

#[test]
fn replace_at_the_start_and_at_the_end() {
    let mut text = "abcabc".to_string();
    assert_eq!(replace(&mut text, "abc", ""), Ok(()));
    assert_eq!(text, "abc");

    let mut text = "xyz".to_string();
    assert_eq!(replace(&mut text, "z", "zz"), Ok(()));
    assert_eq!(text, "xyzz");

    let mut text = "xyz".to_string();
    assert_eq!(replace(&mut text, "xyz", "whole"), Ok(()));
    assert_eq!(text, "whole");
}

#[test]
fn replace_finds_an_occurrence_that_overlaps_a_false_start() {
    let mut text = "aaab".to_string();

    assert_eq!(replace(&mut text, "aab", "-"), Ok(()));

    assert_eq!(text, "a-");
}

#[test]
fn replace_counts_characters_not_bytes() {
    let mut text = "żółw → żółć".to_string();

    assert_eq!(replace(&mut text, "→", "=>"), Ok(()));

    assert_eq!(text, "żółw => żółć");
}

#[test]
fn replace_of_an_empty_needle_inserts_at_the_start() {
    let mut text = "tail".to_string();
    assert_eq!(replace(&mut text, "", "head "), Ok(()));
    assert_eq!(text, "head tail");

    let mut text = String::new();
    assert_eq!(replace(&mut text, "", "all"), Ok(()));
    assert_eq!(text, "all");
}

#[test]
fn replace_agrees_with_the_standard_search() {
    let haystacks = ["", "a", "abab", "hello world", "ααβ", "x.y.z", "aaaa"];
    let needles = ["", "a", "ab", "ba", "world", "β", ".", "aaaaa", "z"];
    for haystack in haystacks {
        for needle in needles {
            let mut text = haystack.to_string();
            let result = replace(&mut text, needle, "<>");
            match haystack.find(needle) {
                Some(_) => {
                    assert_eq!(result, Ok(()));
                    assert_eq!(text, haystack.replacen(needle, "<>", 1));
                }
                None => {
                    assert_eq!(result, Err(Error::ReplacementNotFound(needle.to_string())));
                    assert_eq!(text, haystack);
                }
            }
        }
    }
}

#[test]
fn replace_reports_a_needle_that_does_not_occur() {
    let mut text = "haystack".to_string();

    let result = replace(&mut text, "needle", "pin");

    assert_eq!(result, Err(Error::ReplacementNotFound("needle".to_string())));
    assert_eq!(text, "haystack");
}

#[test]
fn replace_reports_a_needle_longer_than_the_haystack() {
    let mut text = "ab".to_string();

    let result = replace(&mut text, "abc", "");

    assert_eq!(result, Err(Error::ReplacementNotFound("abc".to_string())));
    assert_eq!(text, "ab");
}

#[test]
fn the_zsh_script_completes_sessions_from_the_list() {
    let mut script = zsh_script();

    assert_eq!(patch(Shell::Zsh, &mut script), Ok(()));

    assert_eq!(script, format!("#compdef tp\n{}\n&& ret=0\n;;\n", zsh_replacement()));
    assert!(script.contains("':session:($(tp list))' \\"));
    assert!(!script.contains("_default"));
}

#[test]
fn a_zsh_script_without_the_load_command_is_refused() {
    let mut script = "#compdef tp\n".to_string();

    let result = patch(Shell::Zsh, &mut script);

    assert_eq!(result, Err(Error::ReplacementNotFound(zsh_needle().to_string())));
    assert_eq!(script, "#compdef tp\n");
}

#[test]
fn scripts_for_other_shells_stay_as_generated() {
    for shell in [Shell::Bash, Shell::Elvish, Shell::Fish, Shell::PowerShell] {
        let mut script = zsh_script();

        assert_eq!(patch(shell, &mut script), Ok(()));

        assert_eq!(script, zsh_script());
    }
}

#[test]
fn generated_bytes_become_the_script() {
    let generated = zsh_script().into_bytes();

    let script = completion_script(Shell::Zsh, generated).unwrap();

    assert!(script.contains(zsh_replacement()));

    let generated = "complete -c tp — ok".as_bytes().to_vec();
    assert_eq!(
        completion_script(Shell::Fish, generated),
        Ok("complete -c tp — ok".to_string())
    );
}

#[test]
fn bytes_that_are_no_text_are_refused() {
    let generated = vec![b't', b'p', 0xff, 0xfe];

    let result = completion_script(Shell::Bash, generated.clone());

    assert_eq!(
        result,
        Err(Error::InvalidUtf8(String::from_utf8(generated).unwrap_err()))
    );
}

#[test]
fn a_generated_zsh_script_is_patched() {
    let mut command = Command::new("tp")
        .subcommand(Command::new("load").arg(Arg::new("session").required(true)))
        .subcommand(Command::new("list"));
    let mut generated: Vec<u8> = Vec::new();
    clap_complete::generate(clap_complete::Shell::Zsh, &mut command, "tp", &mut generated);

    let script = completion_script(Shell::Zsh, generated).unwrap();

    assert!(script.contains("':session:($(tp list))' \\"));
    assert!(!script.contains("':session:_default' \\"));
}
