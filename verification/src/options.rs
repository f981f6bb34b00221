//! The command line: one switch, `-r` / `--remote`.
//!
//! The parsing itself is `bpaf`'s. What this module adds is the switch's
//! identity, and what each of the parser's replies means for the run.

use bpaf::{Args, ParseFailure, Parser};
use vstd::prelude::*;
use crate::branch::BranchType;
use crate::exit::{Exit, ExitView, Stream, EXIT_OK, EXIT_USAGE};

verus! {

/// The configuration of a run. Set once from the command line.
#[derive(Clone, Copy, Debug, PartialEq, Eq, Structural)]
pub struct Opt {
    /// Filters remote branches
    pub remote: bool,
}

impl Opt {
    /// The class of branches this configuration asks for: remote-tracking
    /// ones with the switch, local ones without.
    pub open spec fn kind(self) -> BranchType {
        if self.remote {
            BranchType::Remote
        } else {
            BranchType::Local
        }
    }

    /// The class of branches this configuration asks for.
    pub fn branch_type(&self) -> (kind: BranchType)
        ensures
            kind == self.kind(),
    {
        if self.remote {
            BranchType::Remote
        } else {
            BranchType::Local
        }
    }
}

/// A reply of the command-line parser.
#[derive(Clone, Debug, PartialEq, Eq)]
pub enum Parsed {
    /// The command line was accepted; the switch was on or off.
    Switch(bool),
    /// The parser answers with a page for the standard output (help).
    Page(String),
    /// The parser answers with text for a completing shell, to be written to
    /// the standard output as it is.
    Completion(String),
    /// The command line was rejected, with this complaint.
    Rejected(String),
}

/// The mathematical value of a [`Parsed`].
pub enum ParsedView {
    Switch(bool),
    Page(Seq<char>),
    Completion(Seq<char>),
    Rejected(Seq<char>),
}

impl View for Parsed {
    type V = ParsedView;

    open spec fn view(&self) -> ParsedView {
        match *self {
            Parsed::Switch(on) => ParsedView::Switch(on),
            Parsed::Page(text) => ParsedView::Page(text@),
            Parsed::Completion(text) => ParsedView::Completion(text@),
            Parsed::Rejected(text) => ParsedView::Rejected(text@),
        }
    }
}

/// The reply of `bpaf` on the command line `args` of the program called
/// `program` (the name is not part of `args`), for an option parser that
/// knows one switch, named `-short` and `--long` and described by `help`, in
/// a program described by `descr`.
pub uninterp spec fn switch_reply(
    program: Option<Seq<char>>,
    short: char,
    long: Seq<char>,
    help: Seq<char>,
    descr: Seq<char>,
    args: Seq<Seq<char>>,
) -> ParsedView;

/// Runs `bpaf` on a command line: builds the parser of a single switch with
/// `bpaf::short`, `.long`, `.help`, `.switch`, `.to_options` and `.descr`, and
/// hands it the command line through `OptionParser::run_inner`, as an `Args`
/// made of `args` and, where there is one, named after `program`.
///
/// Trusted: that the reply is a function of the six arguments alone. The
/// parser built here reads no environment variable, and `run_inner` takes the
/// command line from what it is handed, not from the process. A failure is
/// told apart by its variant, and its document rendered without colour by
/// `Doc::monochrome`, which wraps at a fixed width.
#[verifier::external_body]
fn run_switch(
    program: &Option<String>,
    short: char,
    long: &'static str,
    help: &str,
    descr: &str,
    args: &Vec<String>,
) -> (reply: Parsed)
    ensures
        reply@ == switch_reply(
            program.deep_view(),
            short,
            long@,
            help@,
            descr@,
            args.deep_view(),
        ),
{
    let line = match program {
        Some(name) => Args::from(args.as_slice()).set_name(name),
        None => Args::from(args.as_slice()),
    };
    let switch = bpaf::short(short).long(long).help(help).switch();
    match switch.to_options().descr(descr).run_inner(line) {
        Ok(on) => Parsed::Switch(on),
        Err(ParseFailure::Stdout(page, full)) => Parsed::Page(page.monochrome(full)),
        Err(ParseFailure::Completion(text)) => Parsed::Completion(text),
        Err(ParseFailure::Stderr(complaint)) => Parsed::Rejected(complaint.monochrome(true)),
    }
}

/// What a reply of the parser means for the run: a configuration to go on
/// with, or the way to end at once.
///
/// - The switch on or off: go on, with `remote` set accordingly.
/// - A page: write it and a line end to the standard output, leave with 0.
/// - Completion text: write it as it is to the standard output, leave with 0.
/// - A complaint: write `Error: `, the complaint and a line end to the
///   standard error, leave with 1.
pub open spec fn read_reply(reply: ParsedView) -> Result<Opt, ExitView> {
    match reply {
        ParsedView::Switch(on) => Ok(Opt { remote: on }),
        ParsedView::Page(text) => Err(
            ExitView { code: EXIT_OK as int, stream: Stream::Stdout, text: text + "\n"@ },
        ),
        ParsedView::Completion(text) => Err(
            ExitView { code: EXIT_OK as int, stream: Stream::Stdout, text },
        ),
        ParsedView::Rejected(text) => Err(
            ExitView {
                code: EXIT_USAGE as int,
                stream: Stream::Stderr,
                text: "Error: "@ + text + "\n"@,
            },
        ),
    }
}

/// The mathematical value of a configuration-or-exit.
pub open spec fn outcome_view(outcome: Result<Opt, Exit>) -> Result<Opt, ExitView> {
    match outcome {
        Ok(opt) => Ok(opt),
        Err(exit) => Err(exit@),
    }
}

/// Turns a reply of the parser into a configuration, or into the way to end
/// the run at once.
pub fn options_from(reply: Parsed) -> (outcome: Result<Opt, Exit>)
    ensures
        outcome_view(outcome) == read_reply(reply@),
{
    match reply {
        Parsed::Switch(on) => Ok(Opt { remote: on }),
        Parsed::Page(text) => {
            let mut text = text;
            text.append("\n");
            Err(Exit { code: EXIT_OK, stream: Stream::Stdout, text })
        },
        Parsed::Completion(text) => Err(Exit { code: EXIT_OK, stream: Stream::Stdout, text }),
        Parsed::Rejected(complaint) => {
            let mut text = String::from_str("Error: ");
            text.append(complaint.as_str());
            text.append("\n");
            Err(Exit { code: EXIT_USAGE, stream: Stream::Stderr, text })
        },
    }
}

/// The reply of the parser on the command line `args` of the program called
/// `program`, for this program's one switch.
pub open spec fn reply_on(program: Option<Seq<char>>, args: Seq<Seq<char>>) -> ParsedView {
    switch_reply(
        program,
        'r',
        "remote"@,
        "Filters remote branches"@,
        "A rust interactive git checkout CLI."@,
        args,
    )
}

/// Parses a command line with `bpaf`. `program` is the name the program was
/// called by, if it is known; `args` is what followed it.
pub fn parse(program: &Option<String>, args: &Vec<String>) -> (reply: Parsed)
    ensures
        reply@ == reply_on(program.deep_view(), args.deep_view()),
{
    run_switch(
        program,
        'r',
        "remote",
        "Filters remote branches",
        "A rust interactive git checkout CLI.",
        args,
    )
}

/// Reads the configuration off a command line: `Ok` where the parser accepts
/// it, else the way to end the run. `program` is the name the program was
/// called by, if it is known; `args` is what followed it.
pub fn options(program: &Option<String>, args: &Vec<String>) -> (outcome: Result<Opt, Exit>)
    ensures
        outcome_view(outcome) == read_reply(reply_on(program.deep_view(), args.deep_view())),
{
    options_from(parse(program, args))
}

} // verus!
