//! The command line: an optional configuration path and an optional script to run
//! on its own.

use vstd::prelude::*;
use vstd::string::*;

verus! {

/// What the command line asks for: the configuration to load and, with
/// `--run-script`, a script to run without the floating window.
pub struct LaunchArgs {
    pub config_path: String,
    pub script: Option<String>,
}

/// The text is an option: it starts with `-`.
pub open spec fn is_option(arg: Seq<char>) -> bool {
    arg.len() > 0 && arg[0] == '-'
}

/// The arguments from position `i` on, read with the configuration path and the
/// script found so far: the first `--run-script` takes the next argument as the
/// script; any other option, or a second path, is refused.
pub open spec fn spec_parse_args_from(
    args: Seq<Seq<char>>,
    i: int,
    config: Option<Seq<char>>,
    script: Option<Seq<char>>,
) -> Result<(Option<Seq<char>>, Option<Seq<char>>), Seq<char>>
    decreases args.len() - i,
{
    if i < 0 || i >= args.len() {
        Ok((config, script))
    } else if args[i] == "--run-script"@ && script is None {
        if i + 1 >= args.len() {
            Err("--run-script missing script path"@)
        } else {
            spec_parse_args_from(args, i + 2, config, Some(args[i + 1]))
        }
    } else if is_option(args[i]) || config is Some {
        Err("Unknown argument: "@ + args[i] + "；use --help to see usage"@)
    } else {
        spec_parse_args_from(args, i + 1, Some(args[i]), script)
    }
}

/// The command line read as a configuration path (`config.json` when none is
/// given) and an optional script, or the message for a command line refused.
pub open spec fn spec_parse_launch_args(args: Seq<Seq<char>>) -> Result<
    (Seq<char>, Option<Seq<char>>),
    Seq<char>,
> {
    match spec_parse_args_from(args, 0, None, None) {
        Ok((config, script)) => Ok(
            (
                match config {
                    Some(c) => c,
                    None => "config.json"@,
                },
                script,
            ),
        ),
        Err(e) => Err(e),
    }
}

/// The views of a list of strings.
pub open spec fn string_views(args: Seq<String>) -> Seq<Seq<char>> {
    args.map_values(|s: String| s@)
}

/// The view of an optional string.
pub open spec fn optional_view(s: Option<String>) -> Option<Seq<char>> {
    match s {
        Some(t) => Some(t@),
        None => None,
    }
}

fn starts_with_dash(arg: &String) -> (b: bool)
    ensures
        b == is_option(arg@),
{
    let s = arg.as_str();
    s.unicode_len() > 0 && s.get_char(0) == '-'
}

/// Reads the command line (the arguments after the program name).
pub fn parse_launch_args(args: &Vec<String>) -> (r: Result<LaunchArgs, String>)
    ensures
        match spec_parse_launch_args(string_views(args@)) {
            Ok((config, script)) => r matches Ok(a) && a.config_path@ == config && optional_view(
                a.script,
            ) == script,
            Err(m) => r matches Err(e) && e@ == m,
        },
{
    let ghost views = string_views(args@);
    let run_script = String::from_str("--run-script");
    let mut config: Option<String> = None;
    let mut script: Option<String> = None;
    let mut i: usize = 0;
    while i < args.len()
        invariant
            views == string_views(args@),
            views.len() == args@.len(),
            run_script@ == "--run-script"@,
            i <= args.len() + 1,
            spec_parse_args_from(views, 0, None, None) == spec_parse_args_from(
                views,
                i as int,
                optional_view(config),
                optional_view(script),
            ),
        decreases args.len() + 1 - i,
    {
        let arg = &args[i];
        assert(views[i as int] == arg@);
        if *arg == run_script && script.is_none() {
            if i + 1 >= args.len() {
                return Err(String::from_str("--run-script missing script path"));
            }
            assert(views[i + 1] == args@[i + 1]@);
            script = Some(args[i + 1].clone());
            i = i + 2;
        } else if starts_with_dash(arg) || config.is_some() {
            let mut m = String::from_str("Unknown argument: ");
            m.append(arg.as_str());
            m.append("；use --help to see usage");
            return Err(m);
        } else {
            config = Some(arg.clone());
            i = i + 1;
        }
    }
    let config_path = match config {
        Some(c) => c,
        None => String::from_str("config.json"),
    };
    Ok(LaunchArgs { config_path, script })
}

/// Whether the command line asks for the usage text: some argument is `--help`
/// or `-h`.
pub fn wants_help(args: &Vec<String>) -> (b: bool)
    ensures
        b == exists|i: int| 0 <= i < args@.len() && (#[trigger] args@[i]@ == "--help"@ || args@[i]@
            == "-h"@),
{
    let help = String::from_str("--help");
    let short = String::from_str("-h");
    let mut i: usize = 0;
    while i < args.len()
        invariant
            help@ == "--help"@,
            short@ == "-h"@,
            i <= args.len(),
            forall|j: int| 0 <= j < i ==> !(#[trigger] args@[j]@ == "--help"@ || args@[j]@ == "-h"@),
        decreases args.len() - i,
    {
        if args[i] == help || args[i] == short {
            return true;
        }
        i = i + 1;
    }
    false
}

} // verus!
