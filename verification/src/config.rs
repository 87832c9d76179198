//! Run options and the command line that sets them.

use vstd::prelude::*;
use vstd::string::*;
use crate::engine::RunOutcome;

verus! {

/// The options of one run.
#[derive(Clone, Copy, Debug, PartialEq, Eq, Structural)]
pub struct Config {
    /// Reset the unit's counters once they have been read.
    pub clear: bool,
    /// Trace the raw identification and data replies in hexadecimal.
    pub dump: bool,
    /// Show miles and miles per hour in place of kilometres.
    pub miles: bool,
    /// Show the trip-section fields.
    pub ts: bool,
    /// Show fields whose value is zero.
    pub zeros: bool,
    /// Show one line of comma-separated values in place of labelled lines.
    pub raw: bool,
    /// Stay until the unit is taken out of the cradle.
    pub wait_remove: bool,
}

impl Config {
    /// The options of a run started without arguments.
    pub open spec fn initial() -> Config {
        Config {
            clear: false,
            dump: false,
            miles: false,
            ts: true,
            zeros: true,
            raw: false,
            wait_remove: false,
        }
    }
}

impl Default for Config {
    fn default() -> (config: Config)
        ensures
            config == Config::initial(),
    {
        Config {
            clear: false,
            dump: false,
            miles: false,
            ts: true,
            zeros: true,
            raw: false,
            wait_remove: false,
        }
    }
}

/// Whether `arg` is one of the seven options.
pub open spec fn is_option(arg: Seq<char>) -> bool {
    ||| arg == "--clear"@
    ||| arg == "--dump"@
    ||| arg == "--miles"@
    ||| arg == "--no-ts"@
    ||| arg == "--no-zeros"@
    ||| arg == "--raw"@
    ||| arg == "--wait-remove"@
}

/// Whether `option` occurs among `args`.
pub open spec fn mentions(args: Seq<String>, option: Seq<char>) -> bool {
    exists|i: int| 0 <= i < args.len() && (#[trigger] args[i])@ == option
}

/// The options that a command line of recognized arguments stands for.
pub open spec fn options_of(args: Seq<String>) -> Config {
    Config {
        clear: mentions(args, "--clear"@),
        dump: mentions(args, "--dump"@),
        miles: mentions(args, "--miles"@),
        ts: !mentions(args, "--no-ts"@),
        zeros: !mentions(args, "--no-zeros"@),
        raw: mentions(args, "--raw"@),
        wait_remove: mentions(args, "--wait-remove"@),
    }
}

/// Whether the string `arg` spells `option`.
fn spells(arg: &String, option: &str) -> (same: bool)
    ensures
        same == (arg@ == option@),
{
    let wanted = String::from_str(option);
    *arg == wanted
}

/// Reads the arguments that follow the program's name. One argument that is
/// not an option invalidates them all.
pub fn parse_args(args: &Vec<String>) -> (parsed: Option<Config>)
    ensures
        parsed is Some <==> forall|i: int|
            0 <= i < args@.len() ==> is_option((#[trigger] args@[i])@),
        parsed is Some ==> parsed->0 == options_of(args@),
{
    let mut config = Config::default();
    let mut valid = true;
    let mut i: usize = 0;
    while i < args.len()
        invariant
            i <= args@.len(),
            valid <==> forall|j: int| 0 <= j < i ==> is_option((#[trigger] args@[j])@),
            config == options_of(args@.take(i as int)),
        decreases args@.len() - i,
    {
        let arg = &args[i];
        let ghost before = args@.take(i as int);
        let ghost after = args@.take(i + 1);
        proof {
            reveal_strlit("--clear");
            reveal_strlit("--dump");
            reveal_strlit("--miles");
            reveal_strlit("--no-ts");
            reveal_strlit("--no-zeros");
            reveal_strlit("--raw");
            reveal_strlit("--wait-remove");
            // no two options are equal: they differ in length, and the three
            // of seven characters in the third of them
            assert("--clear"@.len() == 7 && "--miles"@.len() == 7 && "--no-ts"@.len() == 7);
            assert("--clear"@[2] == 'c' && "--miles"@[2] == 'm' && "--no-ts"@[2] == 'n');
            assert("--dump"@.len() == 6 && "--no-zeros"@.len() == 10);
            assert("--raw"@.len() == 5 && "--wait-remove"@.len() == 13);
            assert(after =~= before.push(args@[i as int]));
            assert forall|option: Seq<char>|
                mentions(after, option) == (mentions(before, option) || args@[i as int]@
                    == option) by {
                if mentions(before, option) {
                    let j = choose|j: int|
                        0 <= j < before.len() && (#[trigger] before[j])@ == option;
                    assert(after[j]@ == option);
                }
                if args@[i as int]@ == option {
                    assert(after[i as int]@ == option);
                }
                if mentions(after, option) {
                    let j = choose|j: int|
                        0 <= j < after.len() && (#[trigger] after[j])@ == option;
                    if j < i {
                        assert(before[j]@ == option);
                    }
                }
            }
        }
        if spells(arg, "--clear") {
            config.clear = true;
        } else if spells(arg, "--dump") {
            config.dump = true;
        } else if spells(arg, "--miles") {
            config.miles = true;
        } else if spells(arg, "--no-ts") {
            config.ts = false;
        } else if spells(arg, "--no-zeros") {
            config.zeros = false;
        } else if spells(arg, "--raw") {
            config.raw = true;
        } else if spells(arg, "--wait-remove") {
            config.wait_remove = true;
        } else {
            valid = false;
        }
        i = i + 1;
    }
    proof {
        assert(args@.take(i as int) =~= args@);
    }
    if valid {
        Some(config)
    } else {
        None
    }
}

/// The status with which the program ends: 2 where the arguments were not
/// valid, 0 where the run was completed, 1 where it was not, for whatever
/// reason.
pub fn exit_code(valid_arguments: bool, outcome: Option<RunOutcome>) -> (code: u8)
    ensures
        code == if !valid_arguments {
            2u8
        } else if outcome == Some(RunOutcome::Completed) {
            0u8
        } else {
            1u8
        },
{
    if !valid_arguments {
        2
    } else {
        match outcome {
            Some(RunOutcome::Completed) => 0,
            _ => 1,
        }
    }
}

} // verus!
