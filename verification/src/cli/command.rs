//! The command line: its grammar, and the command that a line asks for.
use crate::cli::auto::AutoCommand;
use crate::cli::generate_config::GenerateConfigCommand;
use crate::cli::get::{GetCommand, SubdomainArgs};
use crate::text::{str_eq, views};
use vstd::prelude::*;

verus! {

/// The grammar of a command line, as `clap` holds it.
#[verifier::external_type_specification]
#[verifier::external_body]
pub struct ExGrammar(clap::Command);

/// The arguments found on a command line, as `clap` holds them.
#[verifier::external_type_specification]
#[verifier::external_body]
pub struct ExMatches(clap::ArgMatches);

/// The refusal of a command line, or its request for the help or the
/// version text: the text to show, and the code with which the program is to
/// end (zero for a request).
#[derive(Debug, Clone)]
pub struct UsageError {
    pub message: String,
    pub exit_code: i32,
}

/// The name of the program.
pub const PROGRAM_NAME: &'static str = "dnrs";

/// The version of the program.
pub const PROGRAM_VERSION: &'static str = "0.1.0";

/// The commands of the program.
#[derive(Debug)]
pub enum Subcommand {
    Auto(AutoCommand),
    Get(GetCommand),
    GenerateConfig(GenerateConfigCommand),
}

/// A command line, read.
#[derive(Debug)]
pub struct RootCommand {
    pub subcommand: Subcommand,
}

/// Why a command line gives no command.
#[derive(Debug)]
pub enum ParseError {
    /// The line was refused, or it asks for the help or the version text.
    Usage(UsageError),
    /// The line names no command.
    MissingSubcommand,
    /// The line names a command that the program does not have.
    UnknownSubcommand(String),
    /// The command lacks the argument of this name.
    MissingArgument(&'static str),
}

/// The values of the arguments of a command, as they were found.
#[derive(Debug)]
pub struct Arguments {
    pub provider: Option<String>,
    pub domain: Option<String>,
    pub subdomains: Vec<String>,
    pub all: bool,
    pub output: Option<String>,
    pub force: bool,
}

/// The mathematical model of a [`UsageError`].
pub struct UsageView {
    pub message: Seq<char>,
    pub exit_code: i32,
}

impl View for UsageError {
    type V = UsageView;

    open spec fn view(&self) -> UsageView {
        UsageView { message: self.message@, exit_code: self.exit_code }
    }
}

/// The mathematical model of [`Arguments`].
pub struct ArgumentsView {
    pub provider: Option<Seq<char>>,
    pub domain: Option<Seq<char>>,
    pub subdomains: Seq<Seq<char>>,
    pub all: bool,
    pub output: Option<Seq<char>>,
    pub force: bool,
}

/// The view of a text that may be missing.
pub open spec fn text_view(o: Option<String>) -> Option<Seq<char>> {
    match o {
        Some(s) => Some(s@),
        None => None,
    }
}

impl View for Arguments {
    type V = ArgumentsView;

    open spec fn view(&self) -> ArgumentsView {
        ArgumentsView {
            provider: text_view(self.provider),
            domain: text_view(self.domain),
            subdomains: views(self.subdomains@),
            all: self.all,
            output: text_view(self.output),
            force: self.force,
        }
    }
}

/// How an argument is given on a line.
pub enum ArgumentForm {
    /// One value, which must stand at the place of the argument.
    Positional,
    /// Any number of values, at the place of the argument.
    PositionalList,
    /// A switch with the given short name; its long name is its identifier.
    Switch(char),
    /// One value after the given short name, or after the identifier as long
    /// name; the given default where the line has neither.
    Valued(char, Seq<char>),
}

/// One argument of a grammar.
pub struct ArgumentShape {
    pub id: Seq<char>,
    pub form: ArgumentForm,
    pub help: Seq<char>,
}

/// What a grammar holds: a command with its arguments and subcommands, in
/// the order in which they were added.
pub struct GrammarShape {
    pub name: Seq<char>,
    pub about: Seq<char>,
    pub arguments: Seq<ArgumentShape>,
    pub subcommands: Seq<GrammarShape>,
    /// The version, where the command tells one and hands it down to its
    /// subcommands.
    pub version: Option<Seq<char>>,
    /// Whether a line must name one of the subcommands.
    pub asks_for_subcommand: bool,
}

/// The subcommand found on a line, with what was found of its own.
pub struct FoundSubcommand {
    pub name: Seq<char>,
    pub matches: Box<MatchesContent>,
}

/// What was found on a line: the values of the arguments that take texts,
/// the states of the switches, each under the identifier of its argument,
/// and the subcommand.
pub struct MatchesContent {
    pub texts: Map<Seq<char>, Seq<Seq<char>>>,
    pub switches: Map<Seq<char>, bool>,
    pub subcommand: Option<FoundSubcommand>,
}

/// What the `clap::Command` `grammar` holds.
pub uninterp spec fn grammar_shape(grammar: clap::Command) -> GrammarShape;

/// What the `clap::ArgMatches` `matches` holds.
pub uninterp spec fn matches_content(matches: clap::ArgMatches) -> MatchesContent;

/// What `clap::Command::try_get_matches_from` finds on `line` with a
/// grammar that holds `grammar`, or how it refuses the line.
pub uninterp spec fn clap_reads(grammar: GrammarShape, line: Seq<Seq<char>>) -> Result<
    MatchesContent,
    UsageView,
>;

/// The views of the words of a line, in order.
pub open spec fn words(line: Seq<&str>) -> Seq<Seq<char>> {
    Seq::new(line.len(), |i: int| line[i]@)
}

/// A command without arguments.
pub open spec fn bare_grammar(name: Seq<char>, about: Seq<char>) -> GrammarShape {
    GrammarShape {
        name,
        about,
        arguments: Seq::empty(),
        subcommands: Seq::empty(),
        version: None,
        asks_for_subcommand: false,
    }
}

/// `grammar` with one more argument.
pub open spec fn and_argument(
    grammar: GrammarShape,
    id: Seq<char>,
    form: ArgumentForm,
    help: Seq<char>,
) -> GrammarShape {
    GrammarShape { arguments: grammar.arguments.push(ArgumentShape { id, form, help }), ..grammar }
}

/// `grammar` with one more subcommand.
pub open spec fn and_subcommand(grammar: GrammarShape, subcommand: GrammarShape) -> GrammarShape {
    GrammarShape { subcommands: grammar.subcommands.push(subcommand), ..grammar }
}

/// `grammar` with a version, asking for one of its subcommands.
pub open spec fn asking_for_subcommand(grammar: GrammarShape, version: Seq<char>) -> GrammarShape {
    GrammarShape { version: Some(version), asks_for_subcommand: true, ..grammar }
}

/// The grammar of the `auto` command: no arguments.
pub open spec fn auto_grammar() -> GrammarShape {
    bare_grammar("auto"@, "Update providers as defined in the configuration file"@)
}

/// The grammar of the `get` command: the provider, the domain, the names
/// of records, and the switch for all records.
pub open spec fn get_grammar() -> GrammarShape {
    and_argument(
        and_argument(
            and_argument(
                and_argument(
                    bare_grammar("get"@, "Get one or more DNS records from a provider"@),
                    "provider"@,
                    ArgumentForm::Positional,
                    "Name of the provider to get records from"@,
                ),
                "domain"@,
                ArgumentForm::Positional,
                "Domain to get records for"@,
            ),
            "subdomains"@,
            ArgumentForm::PositionalList,
            "Subdomains to get records for"@,
        ),
        "all"@,
        ArgumentForm::Switch('a'),
        "Get all records"@,
    )
}

/// The grammar of the `generate-config` command: the output directory,
/// `config` by default, and the switch that forces overwriting.
pub open spec fn generate_config_grammar() -> GrammarShape {
    and_argument(
        and_argument(
            bare_grammar("generate-config"@, "Generate configuration directory structure"@),
            "output"@,
            ArgumentForm::Valued('o', "config"@),
            "Output directory path (defaults to ./config)"@,
        ),
        "force"@,
        ArgumentForm::Switch('f'),
        "Force overwrite existing files"@,
    )
}

/// The grammar of the program: its name and version, and its three
/// commands, of which a line must name one.
pub open spec fn program_grammar() -> GrammarShape {
    and_subcommand(
        and_subcommand(
            and_subcommand(
                asking_for_subcommand(
                    bare_grammar(PROGRAM_NAME@, PROGRAM_NAME@),
                    PROGRAM_VERSION@,
                ),
                auto_grammar(),
            ),
            get_grammar(),
        ),
        generate_config_grammar(),
    )
}

/// The first of the texts found for the argument `id`.
pub open spec fn first_text(found: MatchesContent, id: Seq<char>) -> Option<Seq<char>> {
    if found.texts.contains_key(id) && found.texts[id].len() > 0 {
        Some(found.texts[id][0])
    } else {
        None
    }
}

/// All texts found for the argument `id`; none where the line has none.
pub open spec fn all_texts(found: MatchesContent, id: Seq<char>) -> Seq<Seq<char>> {
    if found.texts.contains_key(id) {
        found.texts[id]
    } else {
        Seq::empty()
    }
}

/// Whether the switch `id` was found set.
pub open spec fn is_set(found: MatchesContent, id: Seq<char>) -> bool {
    found.switches.contains_key(id) && found.switches[id]
}

/// The values of the arguments of the program's commands among what was
/// found for a subcommand.
pub open spec fn arguments_in(found: MatchesContent) -> ArgumentsView {
    ArgumentsView {
        provider: first_text(found, "provider"@),
        domain: first_text(found, "domain"@),
        subdomains: all_texts(found, "subdomains"@),
        all: is_set(found, "all"@),
        output: first_text(found, "output"@),
        force: is_set(found, "force"@),
    }
}

/// Whether `r` is what the command named `name` with the argument values
/// `arguments` comes to: the `auto` command; the `get` command with its
/// provider and domain, both of which it needs; the `generate-config`
/// command with its output directory, which it needs; and no command for any
/// other name.
pub open spec fn is_command_for(
    r: Result<RootCommand, ParseError>,
    name: Seq<char>,
    arguments: ArgumentsView,
) -> bool {
    if name == "auto"@ {
        r matches Ok(c) && c.subcommand is Auto
    } else if name == "get"@ {
        match (arguments.provider, arguments.domain) {
            (Some(provider), Some(domain)) => {
                &&& r matches Ok(c)
                &&& c.subcommand matches Subcommand::Get(get)
                &&& get.provider@ == provider
                &&& get.domain@ == domain
                &&& views(get.subdomain_args.subdomains@) == arguments.subdomains
                &&& get.subdomain_args.all == arguments.all
            },
            (None, _) => r matches Err(ParseError::MissingArgument(id)) && id@ == "provider"@,
            (Some(_), None) => r matches Err(ParseError::MissingArgument(id)) && id@ == "domain"@,
        }
    } else if name == "generate-config"@ {
        match arguments.output {
            Some(output) => {
                &&& r matches Ok(c)
                &&& c.subcommand matches Subcommand::GenerateConfig(generate)
                &&& generate.output@ == output
                &&& generate.force == arguments.force
            },
            None => r matches Err(ParseError::MissingArgument(id)) && id@ == "output"@,
        }
    } else {
        r matches Err(ParseError::UnknownSubcommand(unknown)) && unknown@ == name
    }
}

/// Whether `r` is what a line comes to on which `clap` found `found`: the
/// refusal of `clap`; no command where the line names none; else the command
/// that the line names, with the values of its arguments.
pub open spec fn is_command_of(
    r: Result<RootCommand, ParseError>,
    found: Result<MatchesContent, UsageView>,
) -> bool {
    match found {
        Err(refusal) => r matches Err(ParseError::Usage(e)) && e@ == refusal,
        Ok(matches) => match matches.subcommand {
            None => r matches Err(ParseError::MissingSubcommand),
            Some(subcommand) => is_command_for(
                r,
                subcommand.name,
                arguments_in(*subcommand.matches),
            ),
        },
    }
}

/// Calls `clap::Command::new` and `about`: a grammar that holds a name and a
/// description, and nothing else.
#[verifier::external_body]
fn new_grammar(name: &'static str, about: &'static str) -> (grammar: clap::Command)
    ensures
        grammar_shape(grammar) == bare_grammar(name@, about@),
{
    clap::Command::new(name).about(about)
}

/// Calls `clap::Command::arg` with a required positional `clap::Arg`: the
/// grammar holds one more argument, after those that it held.
#[verifier::external_body]
fn with_positional(grammar: clap::Command, id: &'static str, help: &'static str) -> (r:
    clap::Command)
    ensures
        grammar_shape(r) == and_argument(
            grammar_shape(grammar),
            id@,
            ArgumentForm::Positional,
            help@,
        ),
{
    grammar.arg(clap::Arg::new(id).required(true).help(help))
}

/// Calls `clap::Command::arg` with a positional `clap::Arg` that takes any
/// number of values: the grammar holds one more argument.
#[verifier::external_body]
fn with_positional_list(grammar: clap::Command, id: &'static str, help: &'static str) -> (r:
    clap::Command)
    ensures
        grammar_shape(r) == and_argument(
            grammar_shape(grammar),
            id@,
            ArgumentForm::PositionalList,
            help@,
        ),
{
    grammar.arg(clap::Arg::new(id).num_args(1..).action(clap::ArgAction::Append).help(help))
}

/// Calls `clap::Command::arg` with a `clap::Arg` that is a switch with a
/// short name and its identifier as long name: the grammar holds one more
/// argument. `clap` takes no hyphen for a short name.
#[verifier::external_body]
fn with_switch(grammar: clap::Command, id: &'static str, short: char, help: &'static str) -> (r:
    clap::Command)
    requires
        short != '-',
    ensures
        grammar_shape(r) == and_argument(
            grammar_shape(grammar),
            id@,
            ArgumentForm::Switch(short),
            help@,
        ),
{
    grammar.arg(clap::Arg::new(id).short(short).long(id).action(clap::ArgAction::SetTrue).help(help))
}

/// Calls `clap::Command::arg` with a `clap::Arg` that takes one value, has a
/// short name, its identifier as long name, and a default: the grammar holds
/// one more argument. `clap` takes no hyphen for a short name.
#[verifier::external_body]
fn with_option(
    grammar: clap::Command,
    id: &'static str,
    short: char,
    default: &'static str,
    help: &'static str,
) -> (r: clap::Command)
    requires
        short != '-',
    ensures
        grammar_shape(r) == and_argument(
            grammar_shape(grammar),
            id@,
            ArgumentForm::Valued(short, default@),
            help@,
        ),
{
    grammar.arg(clap::Arg::new(id).short(short).long(id).default_value(default).help(help))
}

/// Calls `clap::Command::subcommand`: the grammar holds one more subcommand,
/// after those that it held.
#[verifier::external_body]
fn with_subcommand(grammar: clap::Command, subcommand: clap::Command) -> (r: clap::Command)
    ensures
        grammar_shape(r) == and_subcommand(grammar_shape(grammar), grammar_shape(subcommand)),
{
    grammar.subcommand(subcommand)
}

/// Calls `clap::Command::version`, `propagate_version`,
/// `subcommand_required` and `arg_required_else_help`: the grammar holds a
/// version, and asks for one of its subcommands.
#[verifier::external_body]
fn with_required_subcommand(grammar: clap::Command, version: &'static str) -> (r: clap::Command)
    ensures
        grammar_shape(r) == asking_for_subcommand(grammar_shape(grammar), version@),
{
    grammar.version(version).propagate_version(true).subcommand_required(true).arg_required_else_help(true)
}

/// Calls `clap::Command::try_get_matches_from`. Nothing is printed and the
/// process is not left; of a `clap::Error` the rendered text and the exit
/// code are kept. What is found, or the refusal, depends on what the grammar
/// holds and on the line alone. Before it reads a line, `clap` holds the
/// grammar to its rules of consistency (identifiers, long and short names
/// may not repeat, only the last positional argument may take several
/// values, and more), and stops the program where one is broken: the
/// grammar of the program, which keeps them all, is the one grammar taken.
#[verifier::external_body]
fn match_line(grammar: clap::Command, line: Vec<&str>) -> (r: Result<
    clap::ArgMatches,
    UsageError,
>)
    requires
        grammar_shape(grammar) == program_grammar(),
    ensures
        match r {
            Ok(matches) => clap_reads(grammar_shape(grammar), words(line@)) == Ok::<
                MatchesContent,
                UsageView,
            >(matches_content(matches)),
            Err(e) => clap_reads(grammar_shape(grammar), words(line@)) == Err::<
                MatchesContent,
                UsageView,
            >(e@),
        },
{
    grammar.try_get_matches_from(line).map_err(
        |e| UsageError { message: e.render().to_string(), exit_code: e.exit_code() },
    )
}

/// Calls `clap::ArgMatches::remove_subcommand`: the name of the subcommand
/// that the matches hold, with what they hold for it.
#[verifier::external_body]
fn take_subcommand(matches: clap::ArgMatches) -> (r: Option<(String, clap::ArgMatches)>)
    ensures
        match matches_content(matches).subcommand {
            Some(subcommand) => r matches Some(pair) && pair.0@ == subcommand.name
                && matches_content(pair.1) == *subcommand.matches,
            None => r is None,
        },
{
    let mut matches = matches;
    matches.remove_subcommand()
}

/// Calls `clap::ArgMatches::try_get_one` for a `String`: the first of the
/// texts that the matches hold for the argument `id`, where they hold one.
#[verifier::external_body]
fn text_of(matches: &clap::ArgMatches, id: &str) -> (r: Option<String>)
    ensures
        text_view(r) == first_text(matches_content(*matches), id@),
{
    matches.try_get_one::<String>(id).ok().flatten().cloned()
}

/// Calls `clap::ArgMatches::try_get_many` for `String`s: the texts that the
/// matches hold for the argument `id`, in the order of the line, where they
/// hold any.
#[verifier::external_body]
fn texts_of(matches: &clap::ArgMatches, id: &str) -> (r: Option<Vec<String>>)
    ensures
        match r {
            Some(texts) => matches_content(*matches).texts.contains_key(id@) && views(texts@)
                == matches_content(*matches).texts[id@],
            None => !matches_content(*matches).texts.contains_key(id@),
        },
{
    matches.try_get_many::<String>(id).ok().flatten().map(|values| values.cloned().collect())
}

/// Calls `clap::ArgMatches::try_get_one` for a `bool`: the state of the
/// switch `id`, where the matches hold such a switch.
#[verifier::external_body]
fn switch_of(matches: &clap::ArgMatches, id: &str) -> (r: Option<bool>)
    ensures
        match r {
            Some(state) => matches_content(*matches).switches.contains_key(id@)
                && matches_content(*matches).switches[id@] == state,
            None => !matches_content(*matches).switches.contains_key(id@),
        },
{
    matches.try_get_one::<bool>(id).ok().flatten().copied()
}

impl RootCommand {
    /// The grammar of the command line: the program with its three commands.
    fn grammar() -> (grammar: clap::Command)
        ensures
            grammar_shape(grammar) == program_grammar(),
    {
        let auto = new_grammar("auto", "Update providers as defined in the configuration file");
        let get = new_grammar("get", "Get one or more DNS records from a provider");
        let get = with_positional(get, "provider", "Name of the provider to get records from");
        let get = with_positional(get, "domain", "Domain to get records for");
        let get = with_positional_list(get, "subdomains", "Subdomains to get records for");
        let get = with_switch(get, "all", 'a', "Get all records");
        let generate = new_grammar("generate-config", "Generate configuration directory structure");
        let generate = with_option(
            generate,
            "output",
            'o',
            "config",
            "Output directory path (defaults to ./config)",
        );
        let generate = with_switch(generate, "force", 'f', "Force overwrite existing files");
        let root = new_grammar(PROGRAM_NAME, PROGRAM_NAME);
        let root = with_required_subcommand(root, PROGRAM_VERSION);
        let root = with_subcommand(root, auto);
        let root = with_subcommand(root, get);
        with_subcommand(root, generate)
    }

    /// The command named `name` with the argument values `arguments`.
    pub fn from_arguments(name: &str, arguments: Arguments) -> (r: Result<RootCommand, ParseError>)
        ensures
            is_command_for(r, name@, arguments@),
    {
        proof {
            reveal_strlit("auto");
            reveal_strlit("get");
            reveal_strlit("generate-config");
            assert("auto"@.len() == 4);
            assert("get"@.len() == 3);
            assert("generate-config"@.len() == 15);
        }
        if str_eq(name, "auto") {
            Ok(RootCommand { subcommand: Subcommand::Auto(AutoCommand {  }) })
        } else if str_eq(name, "get") {
            let provider = match arguments.provider {
                Some(provider) => provider,
                None => {
                    return Err(ParseError::MissingArgument("provider"));
                },
            };
            let domain = match arguments.domain {
                Some(domain) => domain,
                None => {
                    return Err(ParseError::MissingArgument("domain"));
                },
            };
            Ok(
                RootCommand {
                    subcommand: Subcommand::Get(
                        GetCommand {
                            provider,
                            domain,
                            subdomain_args: SubdomainArgs {
                                subdomains: arguments.subdomains,
                                all: arguments.all,
                            },
                        },
                    ),
                },
            )
        } else if str_eq(name, "generate-config") {
            match arguments.output {
                Some(output) => Ok(
                    RootCommand {
                        subcommand: Subcommand::GenerateConfig(
                            GenerateConfigCommand { output, force: arguments.force },
                        ),
                    },
                ),
                None => Err(ParseError::MissingArgument("output")),
            }
        } else {
            Err(ParseError::UnknownSubcommand(name.to_owned()))
        }
    }

    /// Reads the command line `line`, whose first word is the name under
    /// which the program was called: the line is read by `clap` with the
    /// grammar of the program, and what was found is turned into a command
    /// as [`RootCommand::from_arguments`] says.
    pub fn try_parse_from(line: Vec<&str>) -> (r: Result<RootCommand, ParseError>)
        ensures
            is_command_of(r, clap_reads(program_grammar(), words(line@))),
    {
        let matches = match match_line(Self::grammar(), line) {
            Ok(matches) => matches,
            Err(e) => {
                return Err(ParseError::Usage(e));
            },
        };
        let (name, found) = match take_subcommand(matches) {
            Some(pair) => pair,
            None => {
                return Err(ParseError::MissingSubcommand);
            },
        };
        let arguments = Arguments {
            provider: text_of(&found, "provider"),
            domain: text_of(&found, "domain"),
            subdomains: match texts_of(&found, "subdomains") {
                Some(subdomains) => subdomains,
                None => Vec::new(),
            },
            all: match switch_of(&found, "all") {
                Some(all) => all,
                None => false,
            },
            output: text_of(&found, "output"),
            force: match switch_of(&found, "force") {
                Some(force) => force,
                None => false,
            },
        };
        proof {
            let held = matches_content(found);
            assert(arguments@.subdomains =~= all_texts(held, "subdomains"@));
            assert(arguments@.all == is_set(held, "all"@));
            assert(arguments@.force == is_set(held, "force"@));
            assert(arguments@ == arguments_in(held));
        }
        Self::from_arguments(name.as_str(), arguments)
    }
}

} // verus!
