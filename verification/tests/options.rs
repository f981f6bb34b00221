use checkout_picker::branch::BranchType;
use checkout_picker::exit::{Exit, Stream, EXIT_OK, EXIT_USAGE};
use checkout_picker::options::{options, options_from, parse, Opt, Parsed};

const HELP: &str = "A rust interactive git checkout CLI.

Usage: picker [-r]

Available options:
    -r, --remote  Filters remote branches
    -h, --help    Prints help information
";

fn line(words: &[&str]) -> Vec<String> {
    words.iter().map(|word| word.to_string()).collect()
}

fn run(words: &[&str]) -> Result<Opt, Exit> {
    options(&Some("picker".to_string()), &line(words))
}

fn rejected(complaint: &str) -> Result<Opt, Exit> {
    Err(Exit {
        code: 1,
        stream: Stream::Stderr,
        text: format!("Error: {}\n", complaint),
    })
}

fn helped() -> Result<Opt, Exit> {
    Err(Exit {
        code: 0,
        stream: Stream::Stdout,
        text: format!("{}\n", HELP),
    })
}

#[test]
fn no_arguments_leave_the_switch_off() {
    assert_eq!(run(&[]), Ok(Opt { remote: false }));
}

#[test]
fn short_switch_turns_remote_on() {
    assert_eq!(run(&["-r"]), Ok(Opt { remote: true }));
}

#[test]
fn long_switch_turns_remote_on() {
    assert_eq!(run(&["--remote"]), Ok(Opt { remote: true }));
}

#[test]
fn double_dash_alone_is_accepted() {
    assert_eq!(run(&["--"]), Ok(Opt { remote: false }));
    assert_eq!(run(&["-r", "--"]), Ok(Opt { remote: true }));
}

#[test]
fn help_goes_to_stdout_with_status_zero() {
    assert_eq!(run(&["--help"]), helped());
    assert_eq!(run(&["-h"]), helped());
}

#[test]
fn help_wins_over_other_arguments() {
    assert_eq!(run(&["-r", "--help"]), helped());
    assert_eq!(run(&["--bogus", "--help"]), helped());
    assert_eq!(run(&["-rh"]), helped());
}

#[test]
fn help_names_the_program_only_when_it_is_known() {
    let unnamed = options(&None, &line(&["--help"]));
    assert_eq!(
        unnamed,
        Err(Exit {
            code: 0,
            stream: Stream::Stdout,
            text: format!("{}\n", HELP.replace("Usage: picker [-r]", "Usage: [-r]")),
        })
    );
    let renamed = options(&Some("gco".to_string()), &line(&["--help"]));
    assert_eq!(
        renamed,
        Err(Exit {
            code: 0,
            stream: Stream::Stdout,
            text: format!("{}\n", HELP.replace("picker", "gco")),
        })
    );
}

#[test]
fn unknown_option_is_rejected_on_stderr_with_status_one() {
    assert_eq!(
        run(&["--bogus"]),
        rejected("`--bogus` is not expected in this context")
    );
    assert_eq!(run(&["-R"]), rejected("`-R` is not expected in this context"));
    assert_eq!(run(&["-V"]), rejected("`-V` is not expected in this context"));
}

#[test]
fn near_miss_gets_a_suggestion() {
    assert_eq!(
        run(&["--remot"]),
        rejected("no such flag: `--remot`, did you mean `--remote`?")
    );
}

#[test]
fn positional_argument_is_rejected() {
    assert_eq!(run(&["x"]), rejected("`x` is not expected in this context"));
    assert_eq!(
        run(&["-r", "x"]),
        rejected("`x` is not expected in this context")
    );
    assert_eq!(run(&[""]), rejected("`` is not expected in this context"));
    assert_eq!(run(&["-"]), rejected("`-` is not expected in this context"));
}

#[test]
fn switch_given_twice_is_rejected() {
    assert_eq!(
        run(&["-r", "-r"]),
        rejected("argument `-r` cannot be used multiple times in this context")
    );
    assert_eq!(
        run(&["-rr"]),
        rejected("argument `-r` cannot be used multiple times in this context")
    );
    assert_eq!(
        run(&["--remote", "-r"]),
        rejected("`-r` is not expected in this context")
    );
}

#[test]
fn switch_takes_no_value() {
    assert_eq!(run(&["-r=1"]), rejected("`1` is not expected in this context"));
    assert_eq!(
        run(&["--remote=x"]),
        rejected("`x` is not expected in this context")
    );
}

#[test]
fn switch_after_double_dash_is_positional() {
    assert_eq!(
        run(&["--", "-r"]),
        rejected("`-r` is not expected in this context")
    );
}

#[test]
fn non_ascii_argument_is_rejected_without_panic() {
    assert_eq!(
        run(&["-é=x"]),
        rejected("`-é=x` is not expected in this context")
    );
    assert!(matches!(run(&["--rémote"]), Err(Exit { code: 1, .. })));
    assert!(matches!(run(&["-ré"]), Err(Exit { code: 1, .. })));
}

#[test]
fn parse_reports_the_reply_itself() {
    let program = Some("picker".to_string());
    assert_eq!(parse(&program, &line(&[])), Parsed::Switch(false));
    assert_eq!(parse(&program, &line(&["-r"])), Parsed::Switch(true));
    assert_eq!(
        parse(&program, &line(&["--help"])),
        Parsed::Page(HELP.to_string())
    );
    assert_eq!(
        parse(&program, &line(&["--nope"])),
        Parsed::Rejected("`--nope` is not expected in this context".to_string())
    );
}

#[test]
fn parse_does_not_hand_the_arguments_back() {
    let words = line(&["--remote"]);
    match parse(&None, &words) {
        Parsed::Switch(on) => assert!(on),
        other => panic!("unexpected reply: {:?}", other),
    }
    let words = line(&["remote"]);
    match parse(&None, &words) {
        Parsed::Rejected(complaint) => assert_ne!(complaint, "remote"),
        other => panic!("unexpected reply: {:?}", other),
    }
}

#[test]
fn switch_reply_becomes_configuration() {
    assert_eq!(options_from(Parsed::Switch(true)), Ok(Opt { remote: true }));
    assert_eq!(
        options_from(Parsed::Switch(false)),
        Ok(Opt { remote: false })
    );
}

#[test]
fn page_reply_ends_with_status_zero_and_a_line_end() {
    assert_eq!(
        options_from(Parsed::Page("usage".to_string())),
        Err(Exit {
            code: EXIT_OK,
            stream: Stream::Stdout,
            text: "usage\n".to_string(),
        })
    );
}

#[test]
fn completion_reply_is_written_as_it_is() {
    assert_eq!(
        options_from(Parsed::Completion("--remote".to_string())),
        Err(Exit {
            code: EXIT_OK,
            stream: Stream::Stdout,
            text: "--remote".to_string(),
        })
    );
}

#[test]
fn rejected_reply_ends_with_status_one_on_stderr() {
    assert_eq!(
        options_from(Parsed::Rejected("no".to_string())),
        Err(Exit {
            code: EXIT_USAGE,
            stream: Stream::Stderr,
            text: "Error: no\n".to_string(),
        })
    );
    assert_eq!(EXIT_USAGE, 1);
    assert_eq!(EXIT_OK, 0);
}

#[test]
fn configuration_picks_the_class_of_branches() {
    assert_eq!(Opt { remote: false }.branch_type(), BranchType::Local);
    assert_eq!(Opt { remote: true }.branch_type(), BranchType::Remote);
}

#[test]
fn long_and_multiline_arguments_are_rejected_without_panic() {
    let long = "x".repeat(5000);
    assert!(matches!(run(&[long.as_str()]), Err(Exit { code: 1, .. })));
    let dashed = format!("--{}", "é".repeat(300));
    assert!(matches!(run(&[dashed.as_str()]), Err(Exit { code: 1, .. })));
    for word in ["a\nb", "a\n\nb", "a\n    b", "\n", " ", "a b", "-\n", "--\n```", "\t", "-r\n"] {
        match run(&[word]) {
            Err(exit) => {
                assert_eq!(exit.code, 1);
                assert_eq!(exit.stream, Stream::Stderr);
                assert!(exit.text.starts_with("Error: "));
                assert!(exit.text.ends_with('\n'));
            }
            Ok(opt) => panic!("{:?} was accepted as {:?}", word, opt),
        }
    }
}

#[test]
fn switch_repeated_many_times_is_rejected() {
    let many: Vec<&str> = std::iter::repeat("-r").take(200).collect();
    assert_eq!(
        run(&many),
        rejected("argument `-r` cannot be used multiple times in this context")
    );
}
