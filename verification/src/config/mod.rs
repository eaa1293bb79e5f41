//! The validated configuration of one run, and the binder that builds it
//! from classified command-line tokens.

pub mod cmd_line_parse;

use self::cmd_line_parse::{
    is_option_shaped, leading_dashes, parse_command_line_arguments, short_options,
    starts_with_dash, texts, tokenize, tokens, tokens_of, Argument, ArgumentList, Token,
};
use vstd::prelude::*;
use vstd::string::*;

verus! {

/// What one run of the tool was asked to do.
#[derive(Debug)]
pub struct Config {
    filename: String,
    show_help: bool,
    truncate: bool,
}

/// The mathematical value of a [`Config`].
pub struct ConfigView {
    pub filename: Seq<char>,
    pub show_help: bool,
    pub truncate: bool,
}

impl View for Config {
    type V = ConfigView;

    closed spec fn view(&self) -> ConfigView {
        ConfigView { filename: self.filename@, show_help: self.show_help, truncate: self.truncate }
    }
}

impl Config {
    /// The file to work on; empty where the command line named none.
    pub fn get_filename(&self) -> (filename: &String)
        ensures
            filename@ == self@.filename,
    {
        &self.filename
    }

    /// Names the file to work on and leaves the flags as they are.
    pub fn set_filename(&mut self, filename: String)
        ensures
            final(self)@ == (ConfigView { filename: filename@, ..old(self)@ }),
    {
        self.filename = filename;
    }

    /// Whether the usage text was asked for.
    pub fn should_show_help(&self) -> (show_help: bool)
        ensures
            show_help == self@.show_help,
    {
        self.show_help
    }

    /// Sets the help flag and leaves the rest as it is.
    fn set_should_show_help(&mut self, show_help: bool)
        ensures
            final(self)@ == (ConfigView { show_help, ..old(self)@ }),
    {
        self.show_help = show_help;
    }

    /// Whether truncation was switched on.
    pub fn should_truncate(&self) -> (truncate: bool)
        ensures
            truncate == self@.truncate,
    {
        self.truncate
    }

    /// Sets the truncate flag and leaves the rest as it is.
    fn set_should_truncate(&mut self, should_truncate: bool)
        ensures
            final(self)@ == (ConfigView { truncate: should_truncate, ..old(self)@ }),
    {
        self.truncate = should_truncate;
    }

    /// The configuration of a run that was given no arguments: no file name
    /// and both flags off.
    pub fn new() -> (config: Config)
        ensures
            config@ == (ConfigView { filename: Seq::empty(), show_help: false, truncate: false }),
    {
        Config { filename: String::new(), show_help: false, truncate: false }
    }
}

/// `String::push` puts the character at the end of the string and leaves
/// the rest as it was.
pub assume_specification[ String::push ](text: &mut String, ch: char)
    ensures
        final(text)@ == old(text)@.push(ch),
;

/// The token switches truncation on: `-t`, or `truncate` after any number
/// of dashes.
pub open spec fn is_truncate(token: Token) -> bool {
    match token {
        Token::Short(name) => name == 't',
        Token::Long(name, _) => name == "truncate"@,
        Token::Positional(_) => false,
    }
}

/// The token asks for the usage text: `help` after any number of dashes.
pub open spec fn is_help(token: Token) -> bool {
    match token {
        Token::Long(name, _) => name == "help"@,
        _ => false,
    }
}

/// The token is an option that the tool does not know.
pub open spec fn is_unrecognized(token: Token) -> bool {
    !(token is Positional) && !is_truncate(token) && !is_help(token)
}

/// Some token asks for the usage text.
pub open spec fn asks_help(line: Seq<Token>) -> bool {
    exists|i: int| 0 <= i < line.len() && is_help(#[trigger] line[i])
}

/// Some token switches truncation on.
pub open spec fn asks_truncate(line: Seq<Token>) -> bool {
    exists|i: int| 0 <= i < line.len() && is_truncate(#[trigger] line[i])
}

/// The texts of the positional tokens, in the order in which they stand.
pub open spec fn operands(line: Seq<Token>) -> Seq<Seq<char>>
    decreases line.len(),
{
    if line.len() == 0 {
        Seq::empty()
    } else {
        match line.last() {
            Token::Positional(text) => operands(line.drop_last()).push(text),
            _ => operands(line.drop_last()),
        }
    }
}

/// The options that the tool does not know, in the order in which they
/// stand.
pub open spec fn unrecognized(line: Seq<Token>) -> Seq<Token>
    decreases line.len(),
{
    if line.len() == 0 {
        Seq::empty()
    } else if is_unrecognized(line.last()) {
        unrecognized(line.drop_last()).push(line.last())
    } else {
        unrecognized(line.drop_last())
    }
}

/// The complaint about an option that the tool does not know. A short
/// option and a long one are reported in different words.
pub open spec fn option_error(token: Token) -> Seq<char>
    recommends
        !(token is Positional),
{
    match token {
        Token::Short(name) => "invalid option -- "@.push(name),
        Token::Long(name, _) => "unrecognized option '"@ + name + "'"@,
        Token::Positional(_) => Seq::empty(),
    }
}

/// The complaint about a command line without a file to work on.
pub open spec fn missing_operand_error() -> Seq<char> {
    "missing file operand"@
}

/// What a command line binds to.
///
/// A request for help overrides every complaint. Without one, the first
/// unknown option is an error, and so is a line without operands. The first
/// operand is the file name; further operands are ignored.
pub open spec fn bound(line: Seq<Token>) -> Result<ConfigView, Seq<char>> {
    if !asks_help(line) && unrecognized(line).len() > 0 {
        Err(option_error(unrecognized(line).first()))
    } else if operands(line).len() > 0 {
        Ok(
            ConfigView {
                filename: operands(line).first(),
                show_help: asks_help(line),
                truncate: asks_truncate(line),
            },
        )
    } else if !asks_help(line) {
        Err(missing_operand_error())
    } else {
        Ok(ConfigView { filename: Seq::empty(), show_help: true, truncate: asks_truncate(line) })
    }
}

/// The mathematical value of what the binder hands back.
pub open spec fn outcome(result: Result<Config, String>) -> Result<ConfigView, Seq<char>> {
    match result {
        Ok(config) => Ok(config@),
        Err(message) => Err(message@),
    }
}

/// What one more token adds to what the tokens before it gave.
proof fn lemma_bind_next(line: Seq<Token>, seen: int)
    requires
        0 <= seen < line.len(),
    ensures
        asks_help(line.take(seen + 1)) == (asks_help(line.take(seen)) || is_help(line[seen])),
        asks_truncate(line.take(seen + 1)) == (asks_truncate(line.take(seen)) || is_truncate(
            line[seen],
        )),
        operands(line.take(seen + 1)) == match line[seen] {
            Token::Positional(text) => operands(line.take(seen)).push(text),
            _ => operands(line.take(seen)),
        },
        unrecognized(line.take(seen + 1)) == if is_unrecognized(line[seen]) {
            unrecognized(line.take(seen)).push(line[seen])
        } else {
            unrecognized(line.take(seen))
        },
{
    let before = line.take(seen);
    let after = line.take(seen + 1);
    assert(after.drop_last() =~= before);
    assert(after.last() == line[seen]);
    assert(after[seen] == line[seen]);
    assert forall|i: int| 0 <= i < seen implies #[trigger] after[i] == before[i] by {}
    if asks_help(before) {
        let i = choose|i: int| 0 <= i < before.len() && is_help(#[trigger] before[i]);
        assert(is_help(after[i]));
    }
    if asks_truncate(before) {
        let i = choose|i: int| 0 <= i < before.len() && is_truncate(#[trigger] before[i]);
        assert(is_truncate(after[i]));
    }
    if asks_help(after) {
        let i = choose|i: int| 0 <= i < after.len() && is_help(#[trigger] after[i]);
        if i < seen {
            assert(is_help(before[i]));
        }
    }
    if asks_truncate(after) {
        let i = choose|i: int| 0 <= i < after.len() && is_truncate(#[trigger] after[i]);
        if i < seen {
            assert(is_truncate(before[i]));
        }
    }
}

/// The operands of two token sequences put end to end are the operands of
/// the first followed by the operands of the second.
pub proof fn lemma_operands_concat(front: Seq<Token>, back: Seq<Token>)
    ensures
        operands(front + back) == operands(front) + operands(back),
    decreases back.len(),
{
    if back.len() == 0 {
        assert(front + back =~= front);
        assert(operands(front) + operands(back) =~= operands(front));
    } else {
        lemma_operands_concat(front, back.drop_last());
        assert((front + back).drop_last() =~= front + back.drop_last());
        assert((front + back).last() == back.last());
        assert(operands(front + back) =~= operands(front) + operands(back));
    }
}

/// A group of short options holds no operand.
pub proof fn lemma_short_options_hold_no_operand(names: Seq<char>)
    ensures
        operands(short_options(names)) == Seq::<Seq<char>>::empty(),
    decreases names.len(),
{
    if names.len() > 0 {
        lemma_short_options_hold_no_operand(names.drop_last());
        assert(short_options(names).drop_last() =~= short_options(names.drop_last()));
    }
}

/// The arguments that do not start with a dash, in the order in which they
/// stand.
pub open spec fn plain_arguments(raw: Seq<Seq<char>>) -> Seq<Seq<char>> {
    raw.filter(|arg: Seq<char>| !starts_with_dash(arg))
}

/// Tokenizing keeps the operands and their order: the positional tokens of
/// a command line read, one after the other, as its arguments that do not
/// start with a dash.
pub proof fn lemma_tokenize_keeps_operands(raw: Seq<Seq<char>>)
    ensures
        operands(tokenize(raw)) == plain_arguments(raw),
    decreases raw.len(),
{
    reveal(Seq::filter);
    if raw.len() > 0 {
        let arg = raw.last();
        lemma_tokenize_keeps_operands(raw.drop_last());
        lemma_operands_concat(tokenize(raw.drop_last()), tokens_of(arg));
        if !starts_with_dash(arg) {
            assert(tokens_of(arg).drop_last() =~= Seq::<Token>::empty());
            assert(operands(Seq::<Token>::empty()) =~= Seq::<Seq<char>>::empty());
            assert(operands(tokens_of(arg)) =~= seq![arg]);
        } else if !is_option_shaped(arg) {
        } else if leading_dashes(arg) == 1 {
            lemma_short_options_hold_no_operand(arg.skip(1));
        } else {
            assert(tokens_of(arg).drop_last() =~= Seq::<Token>::empty());
            assert(operands(Seq::<Token>::empty()) =~= Seq::<Seq<char>>::empty());
            assert(operands(tokens_of(arg)) =~= Seq::<Seq<char>>::empty());
        }
        assert(operands(tokenize(raw)) =~= plain_arguments(raw));
    }
}

/// Binding depends on the tokens alone: two results for the same tokens
/// are the same result.
pub proof fn lemma_binding_is_deterministic(
    line: Seq<Token>,
    first: Result<Config, String>,
    second: Result<Config, String>,
)
    requires
        outcome(first) == bound(line),
        outcome(second) == bound(line),
    ensures
        outcome(first) == outcome(second),
        first is Ok <==> second is Ok,
{
}

/// A request for help overrides every complaint: the line binds, whatever
/// else it holds, and the configuration says that help was asked for.
pub proof fn lemma_help_overrides_errors(line: Seq<Token>)
    requires
        asks_help(line),
    ensures
        bound(line) is Ok,
        bound(line)->Ok_0.show_help,
{
}

/// Without a request for help, a line binds exactly when it holds no
/// unknown option and at least one operand.
pub proof fn lemma_binds_without_help(line: Seq<Token>)
    requires
        !asks_help(line),
    ensures
        bound(line) is Ok <==> unrecognized(line).len() == 0 && operands(line).len() > 0,
{
}

/// Whether `name` reads exactly `flag`.
fn is_named(name: &String, flag: &str) -> (yes: bool)
    ensures
        yes == (name@ == flag@),
{
    let flag = String::from_str(flag);
    *name == flag
}

/// Records `option_to_set` as the invalid option unless one is recorded
/// already: the first one found is the one reported.
fn set_invalid_option(invalid_option: &mut Option<Argument>, option_to_set: Option<Argument>)
    ensures
        *final(invalid_option) == if *old(invalid_option) is None {
            option_to_set
        } else {
            *old(invalid_option)
        },
{
    if invalid_option.is_none() {
        *invalid_option = option_to_set;
    }
}

/// Removes and returns the first element of `vector`, if there is one; the
/// elements after it move up by one place.
fn shift_vector<T>(vector: &mut Vec<T>) -> (first: Option<T>)
    ensures
        old(vector)@.len() == 0 ==> first is None && final(vector)@ == old(vector)@,
        old(vector)@.len() > 0 ==> first == Some(old(vector)@[0]) && final(vector)@ == old(
            vector,
        )@.remove(0),
{
    match vector.is_empty() {
        true => None,
        false => Some(vector.remove(0)),
    }
}

/// The complaint about the unknown short option `name`.
fn invalid_short_option(name: char) -> (message: String)
    ensures
        message@ == option_error(Token::Short(name)),
{
    let mut message = String::from_str("invalid option -- ");
    message.push(name);
    message
}

/// The complaint about the unknown long option `name`.
fn invalid_long_option(name: &String) -> (message: String)
    ensures
        forall|dashes: nat| message@ == option_error(Token::Long(name@, dashes)),
{
    let mut message = String::from_str("unrecognized option '");
    message.append(name.as_str());
    message.append("'");
    message
}

/// Binds the tokens from the cursor of `args_list` on to a configuration,
/// or says what is wrong with them.
///
/// The result is `Ok` exactly when a token asks for help, or no option is
/// unknown and there is an operand; [`bound`] gives the configuration and
/// each error message.
pub fn bind_arguments(args_list: ArgumentList) -> (result: Result<Config, String>)
    requires
        args_list.well_formed(),
    ensures
        outcome(result) == bound(tokens(args_list.remaining())),
{
    let mut args_list = args_list;
    let mut config = Config::new();
    let mut invalid_option: Option<Argument> = None;
    let mut operands: Vec<String> = Vec::new();

    let ghost line = tokens(args_list.remaining());
    let ghost start = args_list.position();
    let ghost items = args_list.items();
    proof {
        args_list.lemma_position_in_bounds();
    }
    loop
        invariant
            args_list.well_formed(),
            args_list.items() == items,
            start <= args_list.position() <= items.len(),
            line == tokens(items.skip(start as int)),
            config@ == (ConfigView {
                filename: Seq::empty(),
                show_help: asks_help(line.take(args_list.position() - start)),
                truncate: asks_truncate(line.take(args_list.position() - start)),
            }),
            texts(operands@) =~= self::operands(line.take(args_list.position() - start)),
            match invalid_option {
                Some(option) => {
                    &&& unrecognized(line.take(args_list.position() - start)).len() > 0
                    &&& unrecognized(line.take(args_list.position() - start)).first() == option@
                    &&& is_unrecognized(option@)
                },
                None => unrecognized(line.take(args_list.position() - start)).len() == 0,
            },
        ensures
            args_list.position() == items.len(),
        decreases items.len() - args_list.position(),
    {
        let ghost seen = args_list.position() - start;
        proof {
            args_list.lemma_position_in_bounds();
            if seen < line.len() {
                lemma_bind_next(line, seen);
                assert(line[seen] == items[args_list.position() as int]@);
            }
        }
        let arg = match args_list.next() {
            Some(arg) => arg,
            None => {
                break ;
            },
        };
        match arg {
            Argument::ShortOpt(name) => {
                if *name == 't' {
                    config.set_should_truncate(true);
                } else {
                    set_invalid_option(&mut invalid_option, Some(arg.clone()));
                }
            },
            Argument::LongOpt(name, _) => {
                if is_named(name, "help") {
                    config.set_should_show_help(true);
                    proof {
                        reveal_strlit("help");
                        reveal_strlit("truncate");
                        assert("help"@.len() != "truncate"@.len());
                    }
                } else if is_named(name, "truncate") {
                    config.set_should_truncate(true);
                } else {
                    set_invalid_option(&mut invalid_option, Some(arg.clone()));
                }
            },
            Argument::Positional(operand) => {
                let ghost held = operands@;
                operands.push(operand.clone());
                proof {
                    assert(texts(operands@) =~= texts(held).push(operand@));
                }
            },
        }
        proof {
            assert(config@.show_help == asks_help(line.take(seen + 1)));
            assert(config@.truncate == asks_truncate(line.take(seen + 1)));
        }
    }
    proof {
        assert(line.take(line.len() as int) =~= line);
    }

    if !config.should_show_help() {
        match invalid_option {
            Some(Argument::ShortOpt(name)) => {
                return Err(invalid_short_option(name));
            },
            Some(Argument::LongOpt(name, _)) => {
                return Err(invalid_long_option(&name));
            },
            _ => {},
        }
    }
    // The file to work on is the first operand; further operands are ignored.
    proof {
        assert(operands@.len() > 0 ==> texts(operands@)[0] == operands@[0]@);
    }
    match shift_vector(&mut operands) {
        Some(operand) => config.set_filename(operand),
        None => {
            if !config.should_show_help() {
                return Err(String::from_str("missing file operand"));
            }
        },
    }
    Ok(config)
}

/// Tokenizes and binds a command line.
///
/// `raw` holds the arguments in the order in which they were given, without
/// the path of the program.
pub fn get(raw: &Vec<String>) -> (result: Result<Config, String>)
    ensures
        outcome(result) == bound(tokenize(texts(raw@))),
{
    let args_list = parse_command_line_arguments(raw);
    proof {
        assert(args_list.remaining() =~= args_list.items());
    }
    bind_arguments(args_list)
}

} // verus!
