use vstd::prelude::*;
use crate::catalog::EffectKind;
use crate::text::{has_dash_prefix, starts_with_dashes, str_equal, strip_dash_pairs, trim_dash_pairs};

verus! {

/// What the command line asks for. `parameters` holds each `--name value`
/// pair in the order given, the name without its leading dashes and the value
/// as typed; turning a value into a number, a flag or a word is left to the
/// caller.
#[derive(Debug)]
pub struct CliArgs {
    pub effect_name: String,
    pub input_file: String,
    pub output_file: String,
    pub parameters: Vec<(String, String)>,
    pub show_help: bool,
    pub list_effects: bool,
    pub show_effect_info: Option<String>,
}

/// Why a command line was refused.
#[derive(Debug)]
pub enum ArgsError {
    /// `--info` without an effect name after it.
    MissingInfoEffect,
    /// Fewer than the effect, the input file and the output file.
    Usage,
    /// The effect named is not in the catalog.
    UnknownEffect(String),
    /// The last parameter name has no value after it.
    MissingValue(String),
    /// A word stands where a parameter name should, and does not start with `--`.
    InvalidArgument(String),
}

impl ArgsError {
    /// The text shown to the user for this error.
    pub open spec fn spec_message(&self) -> Seq<char> {
        match self {
            ArgsError::MissingInfoEffect => "Effect name required for --info"@,
            ArgsError::Usage => "Usage: audiofxrs <effect> <input.wav> <output.wav> [--param value]"@,
            ArgsError::UnknownEffect(name) => "Unknown effect: "@ + name@
                + ". Use --list to see available effects."@,
            ArgsError::MissingValue(name) => "Missing value for parameter: "@ + name@,
            ArgsError::InvalidArgument(word) => "Invalid argument: "@ + word@
                + ". Parameters must start with --"@,
        }
    }

    pub fn message(&self) -> (r: String)
        ensures
            r@ == self.spec_message(),
    {
        match self {
            ArgsError::MissingInfoEffect => "Effect name required for --info".to_owned(),
            ArgsError::Usage => "Usage: audiofxrs <effect> <input.wav> <output.wav> [--param value]".to_owned(),
            ArgsError::UnknownEffect(name) => "Unknown effect: ".to_owned().concat(name.as_str()).concat(
                ". Use --list to see available effects.",
            ),
            ArgsError::MissingValue(name) => "Missing value for parameter: ".to_owned().concat(
                name.as_str(),
            ),
            ArgsError::InvalidArgument(word) => "Invalid argument: ".to_owned().concat(
                word.as_str(),
            ).concat(". Parameters must start with --"),
        }
    }
}

/// The model of `CliArgs`: each text as its characters.
pub struct CliArgsView {
    pub effect_name: Seq<char>,
    pub input_file: Seq<char>,
    pub output_file: Seq<char>,
    pub parameters: Seq<(Seq<char>, Seq<char>)>,
    pub show_help: bool,
    pub list_effects: bool,
    pub show_effect_info: Option<Seq<char>>,
}

/// The model of `ArgsError`.
pub enum ArgsErrorView {
    MissingInfoEffect,
    Usage,
    UnknownEffect(Seq<char>),
    MissingValue(Seq<char>),
    InvalidArgument(Seq<char>),
}

impl View for CliArgs {
    type V = CliArgsView;

    open spec fn view(&self) -> CliArgsView {
        CliArgsView {
            effect_name: self.effect_name@,
            input_file: self.input_file@,
            output_file: self.output_file@,
            parameters: self.parameters@.map_values(|p: (String, String)| (p.0@, p.1@)),
            show_help: self.show_help,
            list_effects: self.list_effects,
            show_effect_info: match self.show_effect_info {
                Some(s) => Some(s@),
                None => None,
            },
        }
    }
}

impl View for ArgsError {
    type V = ArgsErrorView;

    open spec fn view(&self) -> ArgsErrorView {
        match self {
            ArgsError::MissingInfoEffect => ArgsErrorView::MissingInfoEffect,
            ArgsError::Usage => ArgsErrorView::Usage,
            ArgsError::UnknownEffect(s) => ArgsErrorView::UnknownEffect(s@),
            ArgsError::MissingValue(s) => ArgsErrorView::MissingValue(s@),
            ArgsError::InvalidArgument(s) => ArgsErrorView::InvalidArgument(s@),
        }
    }
}

/// A parse result seen through the models.
pub open spec fn result_view(r: Result<CliArgs, ArgsError>) -> Result<CliArgsView, ArgsErrorView> {
    match r {
        Ok(c) => Ok(c@),
        Err(e) => Err(e@),
    }
}

/// The request that carries only one of the three special commands.
pub open spec fn command_view(
    show_help: bool,
    list_effects: bool,
    show_effect_info: Option<Seq<char>>,
) -> CliArgsView {
    CliArgsView {
        effect_name: Seq::empty(),
        input_file: Seq::empty(),
        output_file: Seq::empty(),
        parameters: Seq::empty(),
        show_help,
        list_effects,
        show_effect_info,
    }
}

/// The `--name value` pairs from position `i` of `args` on, or the first
/// word that breaks the pattern.
pub open spec fn scan_parameters(args: Seq<Seq<char>>, i: int) -> Result<
    Seq<(Seq<char>, Seq<char>)>,
    ArgsErrorView,
>
    decreases args.len() - i,
{
    if i < 0 || i >= args.len() {
        Ok(Seq::empty())
    } else if !has_dash_prefix(args[i]) {
        Err(ArgsErrorView::InvalidArgument(args[i]))
    } else if i + 1 >= args.len() {
        Err(ArgsErrorView::MissingValue(strip_dash_pairs(args[i])))
    } else {
        match scan_parameters(args, i + 2) {
            Ok(rest) => Ok(seq![(strip_dash_pairs(args[i]), args[i + 1])] + rest),
            Err(e) => Err(e),
        }
    }
}

/// The request that `args` makes, the program's own name first:
/// `<effect> <input> <output> [--name value]...`, or one of `--help` (`-h`),
/// `--list` (`-l`) and `--info <effect>` (`-i`). No words at all ask for help.
pub open spec fn spec_parse_args(args: Seq<Seq<char>>) -> Result<CliArgsView, ArgsErrorView> {
    if args.len() < 2 {
        Ok(command_view(true, false, None))
    } else if args[1] == "--help"@ || args[1] == "-h"@ {
        Ok(command_view(true, false, None))
    } else if args[1] == "--list"@ || args[1] == "-l"@ {
        Ok(command_view(false, true, None))
    } else if args[1] == "--info"@ || args[1] == "-i"@ {
        if args.len() < 3 {
            Err(ArgsErrorView::MissingInfoEffect)
        } else {
            Ok(command_view(false, false, Some(args[2])))
        }
    } else if args.len() < 4 {
        Err(ArgsErrorView::Usage)
    } else if !(exists|k: EffectKind| k.spec_identifier() == args[1]) {
        Err(ArgsErrorView::UnknownEffect(args[1]))
    } else {
        process_request(args, scan_parameters(args, 4))
    }
}

/// The request to run the effect named by `args[1]` on `args[2]`, writing
/// `args[3]`, with the parameters that the rest of the line gives.
pub open spec fn process_request(
    args: Seq<Seq<char>>,
    scanned: Result<Seq<(Seq<char>, Seq<char>)>, ArgsErrorView>,
) -> Result<CliArgsView, ArgsErrorView> {
    match scanned {
        Ok(parameters) => Ok(
            CliArgsView {
                effect_name: args[1],
                input_file: args[2],
                output_file: args[3],
                parameters,
                show_help: false,
                list_effects: false,
                show_effect_info: None,
            },
        ),
        Err(e) => Err(e),
    }
}

/// The pairs already read, followed by what the rest of the line gives.
pub open spec fn prepend_pairs(
    done: Seq<(Seq<char>, Seq<char>)>,
    rest: Result<Seq<(Seq<char>, Seq<char>)>, ArgsErrorView>,
) -> Result<Seq<(Seq<char>, Seq<char>)>, ArgsErrorView> {
    match rest {
        Ok(r) => Ok(done + r),
        Err(e) => Err(e),
    }
}

fn command_only(show_help: bool, list_effects: bool, show_effect_info: Option<String>) -> (r: CliArgs)
    ensures
        r@ == command_view(
            show_help,
            list_effects,
            match show_effect_info {
                Some(s) => Some(s@),
                None => None,
            },
        ),
{
    let r = CliArgs {
        effect_name: String::new(),
        input_file: String::new(),
        output_file: String::new(),
        parameters: Vec::new(),
        show_help,
        list_effects,
        show_effect_info,
    };
    assert(r.parameters@.map_values(|p: (String, String)| (p.0@, p.1@)) =~= Seq::empty());
    r
}

/// Reads the command line `args`, the program's own name first.
pub fn parse_args(args: &Vec<String>) -> (r: Result<CliArgs, ArgsError>)
    ensures
        result_view(r) == spec_parse_args(args@.map_values(|s: String| s@)),
{
    let ghost a = args@.map_values(|s: String| s@);
    let n = args.len();
    if n < 2 {
        return Ok(command_only(true, false, None));
    }
    let first = args[1].as_str();
    if str_equal(first, "--help") || str_equal(first, "-h") {
        return Ok(command_only(true, false, None));
    }
    if str_equal(first, "--list") || str_equal(first, "-l") {
        return Ok(command_only(false, true, None));
    }
    if str_equal(first, "--info") || str_equal(first, "-i") {
        if n < 3 {
            return Err(ArgsError::MissingInfoEffect);
        }
        return Ok(command_only(false, false, Some(args[2].clone())));
    }
    if n < 4 {
        return Err(ArgsError::Usage);
    }
    let kind = EffectKind::from_identifier(first);
    if kind.is_none() {
        return Err(ArgsError::UnknownEffect(args[1].clone()));
    }
    proof {
        let k = kind.unwrap();
        assert(k.spec_identifier() == a[1]);
    }
    let mut parameters: Vec<(String, String)> = Vec::new();
    let mut i: usize = 4;
    assert(parameters@.map_values(|p: (String, String)| (p.0@, p.1@)) =~= Seq::empty());
    assert(scan_parameters(a, 4) == prepend_pairs(Seq::empty(), scan_parameters(a, 4))) by {
        match scan_parameters(a, 4) {
            Ok(r) => assert(Seq::<(Seq<char>, Seq<char>)>::empty() + r =~= r),
            Err(_) => {},
        }
    }
    while i < n
        invariant
            n == args@.len(),
            a == args@.map_values(|s: String| s@),
            4 <= i,
            spec_parse_args(a) == process_request(a, scan_parameters(a, 4)),
            scan_parameters(a, 4) == prepend_pairs(
                parameters@.map_values(|p: (String, String)| (p.0@, p.1@)),
                scan_parameters(a, i as int),
            ),
        decreases n - i,
    {
        let word = args[i].as_str();
        if !starts_with_dashes(word) {
            return Err(ArgsError::InvalidArgument(args[i].clone()));
        }
        let name = trim_dash_pairs(word);
        if i + 1 >= n {
            return Err(ArgsError::MissingValue(name));
        }
        let ghost before = parameters@.map_values(|p: (String, String)| (p.0@, p.1@));
        parameters.push((name, args[i + 1].clone()));
        proof {
            let pair = (strip_dash_pairs(a[i as int]), a[i + 1]);
            assert(parameters@.map_values(|p: (String, String)| (p.0@, p.1@)) =~= before.push(pair));
            match scan_parameters(a, i + 2) {
                Ok(rest) => {
                    assert(before + (seq![pair] + rest) =~= before.push(pair) + rest);
                },
                Err(_) => {},
            }
        }
        i = i + 2;
    }
    Ok(
        CliArgs {
            effect_name: args[1].clone(),
            input_file: args[2].clone(),
            output_file: args[3].clone(),
            parameters,
            show_help: false,
            list_effects: false,
            show_effect_info: None,
        },
    )
}

} // verus!
