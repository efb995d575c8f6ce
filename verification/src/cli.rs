//! Command-line handling of the Pong AI tool: which command the arguments
//! select, with its options, and the names of the difficulty levels.
use vstd::prelude::*;
use crate::text::{decimal, lemma_parse_decimal_roundtrip, parse_unsigned, parse_unsigned_decimal, str_equals};

verus! {

/// A command of the Pong AI tool.
#[derive(Debug)]
pub enum Command {
    /// Show model information.
    Info,
    /// Run a game simulation.
    Simulate {
        /// AI difficulty (0-9)
        difficulty: u8,
        /// Number of points to play
        rounds: u32,
    },
    /// Test Dynamic Difficulty Adjustment.
    TestDda,
    /// Prove that the AI is deterministic.
    ProveDeterminism,
    /// Export the model as JSON.
    Export {
        /// Output file (standard output where absent)
        output: Option<String>,
    },
    /// Show the help message.
    Help,
}

/// The text of each argument.
pub open spec fn arg_texts(args: Seq<String>) -> Seq<Seq<char>> {
    args.map_values(|a: String| a@)
}

/// The first index, from `start` on, at which `flag` occurs in `args`.
pub open spec fn first_match_from(args: Seq<Seq<char>>, flag: Seq<char>, start: int) -> Option<int>
    decreases args.len() - start,
{
    if start < 0 || start >= args.len() {
        None
    } else if args[start] == flag {
        Some(start)
    } else {
        first_match_from(args, flag, start + 1)
    }
}

/// The argument that follows the first occurrence of `flag`, where there is one.
pub open spec fn flag_value(args: Seq<Seq<char>>, flag: Seq<char>) -> Option<Seq<char>> {
    match first_match_from(args, flag, 0) {
        Some(i) => if i + 1 < args.len() {
            Some(args[i + 1])
        } else {
            None
        },
        None => None,
    }
}

/// The number that follows `flag`, where it parses as an unsigned integer no
/// larger than `max`; `fallback` otherwise.
pub open spec fn numeric_flag(args: Seq<Seq<char>>, flag: Seq<char>, max: int, fallback: int) -> int {
    match flag_value(args, flag) {
        Some(v) => match parse_unsigned(v, max) {
            Some(n) => n,
            None => fallback,
        },
        None => fallback,
    }
}

/// The name of the command that the arguments select (the one after the
/// program name).
pub open spec fn command_word(args: Seq<Seq<char>>) -> Seq<char> {
    if args.len() < 2 {
        Seq::empty()
    } else {
        args[1]
    }
}

/// Whether a parsed command is what the arguments select: `info`, `simulate`
/// (`--difficulty`, default 5; `--rounds`, default 100), `test-dda`,
/// `prove-determinism` and `export` (`--output`); help for anything else.
pub open spec fn selects(args: Seq<Seq<char>>, c: Command) -> bool {
    let word = command_word(args);
    if args.len() >= 2 && word == "info"@ {
        c is Info
    } else if args.len() >= 2 && word == "simulate"@ {
        c matches Command::Simulate { difficulty, rounds } && difficulty == numeric_flag(
            args,
            "--difficulty"@,
            255,
            5,
        ) && rounds == numeric_flag(args, "--rounds"@, 4294967295, 100)
    } else if args.len() >= 2 && word == "test-dda"@ {
        c is TestDda
    } else if args.len() >= 2 && word == "prove-determinism"@ {
        c is ProveDeterminism
    } else if args.len() >= 2 && word == "export"@ {
        c matches Command::Export { output } && match flag_value(args, "--output"@) {
            Some(v) => output matches Some(o) && o@ == v,
            None => output is None,
        }
    } else {
        c is Help
    }
}

/// For `simulate`, the number written after `--rounds` is the number of rounds
/// whenever it fits a `u32`, and the number written after `--difficulty` is the
/// difficulty whenever it fits a `u8`; an option that is absent takes its default
/// (100 rounds, difficulty 5).
pub proof fn lemma_simulate_reads_its_numbers(args: Seq<Seq<char>>, c: Command, n: u32, d: u8)
    requires
        args.len() >= 2,
        args[1] == "simulate"@,
        selects(args, c),
    ensures
        c is Simulate,
        flag_value(args, "--rounds"@) == Some(decimal(n as nat)) ==> c->rounds == n,
        flag_value(args, "--difficulty"@) == Some(decimal(d as nat)) ==> c->difficulty == d,
        flag_value(args, "--rounds"@) is None ==> c->rounds == 100,
        flag_value(args, "--difficulty"@) is None ==> c->difficulty == 5,
{
    reveal_strlit("simulate");
    reveal_strlit("info");
    assert("simulate"@.len() == 8 && "info"@.len() == 4);
    lemma_parse_decimal_roundtrip(n as nat, 4294967295);
    lemma_parse_decimal_roundtrip(d as nat, 255);
}

/// The index of the first argument equal to `flag`.
fn find_flag(args: &Vec<String>, flag: &str) -> (r: Option<usize>)
    ensures
        r matches Some(i) ==> first_match_from(arg_texts(args@), flag@, 0) == Some(i as int),
        r is None ==> first_match_from(arg_texts(args@), flag@, 0) is None,
        r matches Some(i) ==> i < args.len(),
{
    let ghost texts = arg_texts(args@);
    let mut i: usize = 0;
    while i < args.len()
        invariant
            i <= args.len(),
            texts == arg_texts(args@),
            first_match_from(texts, flag@, 0) == first_match_from(texts, flag@, i as int),
        decreases args.len() - i,
    {
        if str_equals(args[i].as_str(), flag) {
            return Some(i);
        }
        i = i + 1;
    }
    None
}

/// The argument that follows the first occurrence of `flag`.
fn flag_argument<'a>(args: &'a Vec<String>, flag: &str) -> (r: Option<&'a String>)
    ensures
        match flag_value(arg_texts(args@), flag@) {
            Some(v) => r matches Some(a) && a@ == v,
            None => r is None,
        },
{
    assert(arg_texts(args@).len() == args@.len());
    match find_flag(args, flag) {
        Some(i) => {
            if i + 1 < args.len() {
                assert(arg_texts(args@)[i + 1] == args@[i + 1]@);
                Some(&args[i + 1])
            } else {
                None
            }
        },
        None => None,
    }
}

/// Parses the tool's arguments (the program name first) into a command.
pub fn parse_command(args: &Vec<String>) -> (c: Command)
    ensures
        selects(arg_texts(args@), c),
{
    let ghost texts = arg_texts(args@);
    if args.len() < 2 {
        return Command::Help;
    }
    let word = args[1].as_str();
    assert(word@ == command_word(texts));
    if str_equals(word, "info") {
        Command::Info
    } else if str_equals(word, "simulate") {
        let difficulty: u8 = match flag_argument(args, "--difficulty") {
            Some(a) => match parse_unsigned_decimal(a.as_str(), 255) {
                Some(n) => n as u8,
                None => 5,
            },
            None => 5,
        };
        let rounds: u32 = match flag_argument(args, "--rounds") {
            Some(a) => match parse_unsigned_decimal(a.as_str(), 4294967295) {
                Some(n) => n as u32,
                None => 100,
            },
            None => 100,
        };
        Command::Simulate { difficulty, rounds }
    } else if str_equals(word, "test-dda") {
        Command::TestDda
    } else if str_equals(word, "prove-determinism") {
        Command::ProveDeterminism
    } else if str_equals(word, "export") {
        let output = match flag_argument(args, "--output") {
            Some(a) => Some(a.clone()),
            None => None,
        };
        Command::Export { output }
    } else {
        Command::Help
    }
}

/// The name of a difficulty level.
pub open spec fn difficulty_title(level: u8) -> Seq<char> {
    if level == 0 {
        "Training Wheels"@
    } else if level == 1 {
        "Beginner"@
    } else if level == 2 {
        "Easy"@
    } else if level == 3 {
        "Casual"@
    } else if level == 4 {
        "Normal"@
    } else if level == 5 {
        "Challenging"@
    } else if level == 6 {
        "Hard"@
    } else if level == 7 {
        "Very Hard"@
    } else if level == 8 {
        "Expert"@
    } else if level == 9 {
        "Master"@
    } else {
        "Unknown"@
    }
}

/// Returns the name of a difficulty level (0-9), "Unknown" beyond.
pub fn difficulty_name(level: u8) -> (s: &'static str)
    ensures
        s@ == difficulty_title(level),
{
    match level {
        0 => "Training Wheels",
        1 => "Beginner",
        2 => "Easy",
        3 => "Casual",
        4 => "Normal",
        5 => "Challenging",
        6 => "Hard",
        7 => "Very Hard",
        8 => "Expert",
        9 => "Master",
        _ => "Unknown",
    }
}

} // verus!
