//! The tokenizer: splits raw command-line arguments into short options,
//! long options and positional operands.

use crate::utilities::iterator_list::IteratorList;
use vstd::prelude::*;
use vstd::string::*;
use vstd::utf8::{is_ascii_chars, is_ascii_chars_encode_utf8};

verus! {

/// One classified command-line token.
#[derive(Debug, PartialEq, Eq)]
pub enum Argument {
    /// A one-character flag, written after a single dash, alone or in a
    /// group (`-t`, `-tx`).
    ShortOpt(char),
    /// A flag name written after two or more dashes, with the number of
    /// dashes that introduced it.
    LongOpt(String, usize),
    /// An argument that does not start with a dash.
    Positional(String),
}

/// The mathematical value of an [`Argument`].
pub enum Token {
    /// A short option and its one-character name.
    Short(char),
    /// A long option: its name, and the number of dashes before it.
    Long(Seq<char>, nat),
    /// A positional operand and its text.
    Positional(Seq<char>),
}

impl View for Argument {
    type V = Token;

    open spec fn view(&self) -> Token {
        match *self {
            Argument::ShortOpt(name) => Token::Short(name),
            Argument::LongOpt(name, dashes) => Token::Long(name@, dashes as nat),
            Argument::Positional(text) => Token::Positional(text@),
        }
    }
}

impl Clone for Argument {
    /// A token with the same value.
    fn clone(&self) -> (copy: Argument)
        ensures
            copy@ == self@,
    {
        match self {
            Argument::ShortOpt(name) => Argument::ShortOpt(*name),
            Argument::LongOpt(name, dashes) => Argument::LongOpt(name.clone(), *dashes),
            Argument::Positional(text) => Argument::Positional(text.clone()),
        }
    }
}

impl Argument {
    /// The short option named `name`.
    pub fn short(name: char) -> (option: Argument)
        ensures
            option@ == Token::Short(name),
    {
        Argument::ShortOpt(name)
    }

    /// Whether this is a short option.
    pub fn is_short_opt(&self) -> (yes: bool)
        ensures
            yes == (self@ is Short),
    {
        match self {
            Argument::ShortOpt(_) => true,
            _ => false,
        }
    }

    /// Whether this is a long option.
    pub fn is_long_opt(&self) -> (yes: bool)
        ensures
            yes == (self@ is Long),
    {
        match self {
            Argument::LongOpt(_, _) => true,
            _ => false,
        }
    }

    /// Whether this is a positional operand.
    pub fn is_positional(&self) -> (yes: bool)
        ensures
            yes == (self@ is Positional),
    {
        match self {
            Argument::Positional(_) => true,
            _ => false,
        }
    }
}

/// The tokens of one command line, with the cursor that the binder moves
/// over them.
pub type ArgumentList = IteratorList<Argument>;

/// The pattern that an option argument has to fit: a run of dashes, then a
/// run of characters that are not dashes, and nothing else.
pub const OPTION_PATTERN: &'static str = "^(\\-+)([^-]+)$";

/// The values of a sequence of arguments.
pub open spec fn tokens(items: Seq<Argument>) -> Seq<Token> {
    items.map_values(|item: Argument| item@)
}

/// The values of a sequence of strings.
pub open spec fn texts(raw: Seq<String>) -> Seq<Seq<char>> {
    raw.map_values(|text: String| text@)
}

/// `arg` begins with a dash.
pub open spec fn starts_with_dash(arg: Seq<char>) -> bool {
    arg.len() > 0 && arg[0] == '-'
}

/// The number of dashes at the start of `arg`.
pub open spec fn leading_dashes(arg: Seq<char>) -> nat
    decreases arg.len(),
{
    if starts_with_dash(arg) {
        1 + leading_dashes(arg.drop_first())
    } else {
        0
    }
}

/// `arg` is one or more dashes followed by one or more characters none of
/// which is a dash.
pub open spec fn is_option_shaped(arg: Seq<char>) -> bool {
    &&& 1 <= leading_dashes(arg) < arg.len()
    &&& forall|i: int| leading_dashes(arg) <= i < arg.len() ==> arg[i] != '-'
}

/// The short option named `name`.
pub open spec fn short_option(name: char) -> Token {
    Token::Short(name)
}

/// One short option for each character of `names`, in order.
pub open spec fn short_options(names: Seq<char>) -> Seq<Token>
    decreases names.len(),
{
    if names.len() == 0 {
        Seq::empty()
    } else {
        short_options(names.drop_last()).push(short_option(names.last()))
    }
}

/// The tokens that one raw argument contributes.
///
/// An argument that does not start with a dash is a positional operand. One
/// that starts with a dash but is not option-shaped contributes nothing.
/// After a single dash every character is a short option of its own; after
/// two or more dashes the rest is one long option, kept whole.
pub open spec fn tokens_of(arg: Seq<char>) -> Seq<Token> {
    if !starts_with_dash(arg) {
        seq![Token::Positional(arg)]
    } else if !is_option_shaped(arg) {
        Seq::empty()
    } else if leading_dashes(arg) == 1 {
        short_options(arg.skip(1))
    } else {
        seq![Token::Long(arg.skip(leading_dashes(arg) as int), leading_dashes(arg))]
    }
}

/// The tokens of a whole command line: those of each argument, in the order
/// of the arguments.
pub open spec fn tokenize(raw: Seq<Seq<char>>) -> Seq<Token>
    decreases raw.len(),
{
    if raw.len() == 0 {
        Seq::empty()
    } else {
        tokenize(raw.drop_last()) + tokens_of(raw.last())
    }
}

/// Compiles `pattern` with `regex::Regex::new`, searches `token` with
/// `regex::Regex::captures_iter`, and hands back, for every match, the text
/// of its first and of its second capture group (`regex::Captures::get`,
/// `regex::Match::as_str`).
///
/// Not proved; it states what the pattern means to the regex engine, and for
/// [`OPTION_PATTERN`] only. That pattern is anchored at both ends, so it
/// matches at most once, and it matches exactly when `token` is
/// option-shaped. The first group is then the leading dashes and the second
/// group is the rest of `token`.
#[verifier::external_body]
fn option_groups(pattern: &str, token: &str) -> (found: Vec<(String, String)>)
    requires
        pattern@ == OPTION_PATTERN@,
    ensures
        is_option_shaped(token@) ==> {
            &&& found@.len() == 1
            &&& found@[0].0@ == token@.take(leading_dashes(token@) as int)
            &&& found@[0].1@ == token@.skip(leading_dashes(token@) as int)
        },
        !is_option_shaped(token@) ==> found@.len() == 0,
{
    match regex::Regex::new(pattern) {
        Ok(option_regex) => option_regex
            .captures_iter(token)
            .map(|group| {
                (
                    group.get(1).map_or(String::new(), |m| m.as_str().to_string()),
                    group.get(2).map_or(String::new(), |m| m.as_str().to_string()),
                )
            })
            .collect(),
        Err(_) => Vec::new(),
    }
}

/// Whether `token` begins with a dash.
fn has_leading_dash(token: &str) -> (yes: bool)
    ensures
        yes == starts_with_dash(token@),
{
    !token.is_empty() && token.get_char(0) == '-'
}

/// Appends one short option for each character of `names`.
fn push_short_options(list: &mut ArgumentList, names: &str)
    requires
        old(list).well_formed(),
    ensures
        final(list).well_formed(),
        final(list).position() == old(list).position(),
        tokens(final(list).items()) == tokens(old(list).items()) + short_options(names@),
{
    let ghost before = tokens(list.items());
    for character in letters: names.chars()
        invariant
            letters.seq() == names@,
            list.well_formed(),
            list.position() == old(list).position(),
            tokens(list.items()) =~= before + short_options(names@.take(letters.index())),
    {
        proof {
            assert(names@.take(letters.index() + 1).drop_last() =~= names@.take(letters.index()));
        }
        let ghost items = list.items();
        let option = Argument::short(character);
        list.push(option);
        proof {
            assert(tokens(list.items()) =~= tokens(items).push(option@));
        }
    }
    proof {
        assert(names@.take(names@.len() as int) =~= names@);
    }
}

/// The dashes that [`leading_dashes`] counts are dashes, they lie within
/// `arg`, and the character after them, if there is one, is no dash.
pub proof fn lemma_leading_dashes(arg: Seq<char>)
    ensures
        leading_dashes(arg) <= arg.len(),
        forall|i: int| 0 <= i < leading_dashes(arg) ==> arg[i] == '-',
        leading_dashes(arg) < arg.len() ==> arg[leading_dashes(arg) as int] != '-',
    decreases arg.len(),
{
    if starts_with_dash(arg) {
        let rest = arg.drop_first();
        lemma_leading_dashes(rest);
        assert forall|i: int| 0 <= i < leading_dashes(arg) implies arg[i] == '-' by {
            if i > 0 {
                assert(arg[i] == rest[i - 1]);
            }
        }
        if leading_dashes(arg) < arg.len() {
            assert(arg[leading_dashes(arg) as int] == rest[leading_dashes(rest) as int]);
        }
    }
}

/// Tokenizing keeps the order of the arguments and never merges tokens
/// across them: the tokens of two command lines put end to end are the
/// tokens of the first followed by the tokens of the second.
pub proof fn lemma_tokenize_concat(front: Seq<Seq<char>>, back: Seq<Seq<char>>)
    ensures
        tokenize(front + back) == tokenize(front) + tokenize(back),
    decreases back.len(),
{
    if back.len() == 0 {
        assert(front + back =~= front);
        assert(tokenize(front) + tokenize(back) =~= tokenize(front));
    } else {
        lemma_tokenize_concat(front, back.drop_last());
        assert((front + back).drop_last() =~= front + back.drop_last());
        assert((front + back).last() == back.last());
        assert(tokenize(front + back) =~= tokenize(front) + tokenize(back));
    }
}

/// Classifies one raw argument and appends the tokens that it contributes.
fn push_argument(list: &mut ArgumentList, token: &String)
    requires
        old(list).well_formed(),
    ensures
        final(list).well_formed(),
        final(list).position() == old(list).position(),
        tokens(final(list).items()) == tokens(old(list).items()) + tokens_of(token@),
{
    let ghost before = tokens(list.items());
    if has_leading_dash(token.as_str()) {
        let found = option_groups(OPTION_PATTERN, token.as_str());
        let mut index: usize = 0;
        while index < found.len()
            invariant
                index <= found@.len() <= 1,
                starts_with_dash(token@),
                found@.len() == 1 ==> {
                    &&& is_option_shaped(token@)
                    &&& found@[0].0@ == token@.take(leading_dashes(token@) as int)
                    &&& found@[0].1@ == token@.skip(leading_dashes(token@) as int)
                },
                list.well_formed(),
                list.position() == old(list).position(),
                tokens(list.items()) =~= before + (if index == 0 {
                    Seq::empty()
                } else {
                    tokens_of(token@)
                }),
            decreases found@.len() - index,
        {
            let dashes_group: &String = &found[index].0;
            let opt_name: &String = &found[index].1;
            let dashes: &str = dashes_group.as_str();
            let num_dashes: usize = dashes.as_bytes().len();
            proof {
                lemma_leading_dashes(token@);
                assert(is_ascii_chars(dashes@));
                is_ascii_chars_encode_utf8(dashes@);
                assert(num_dashes == leading_dashes(token@));
            }
            let ghost items = list.items();
            if num_dashes > 1 {
                let option = Argument::LongOpt(opt_name.clone(), num_dashes);
                list.push(option);
                proof {
                    assert(tokens(list.items()) =~= tokens(items).push(option@));
                }
            } else {
                push_short_options(list, opt_name.as_str());
            }
            index += 1;
        }
    } else {
        let operand = Argument::Positional(token.clone());
        let ghost items = list.items();
        list.push(operand);
        proof {
            assert(tokens(list.items()) =~= tokens(items).push(operand@));
        }
    }
}

/// Tokenizes a command line.
///
/// `raw` holds the arguments in the order in which they were given, without
/// the path of the program. The list that comes back holds the tokens of
/// each argument in that order, with the cursor at the first token.
pub fn parse_command_line_arguments(raw: &Vec<String>) -> (list: ArgumentList)
    ensures
        list.well_formed(),
        list.position() == 0,
        tokens(list.items()) == tokenize(texts(raw@)),
{
    let mut list = ArgumentList::new();
    let mut index: usize = 0;
    while index < raw.len()
        invariant
            index <= raw@.len(),
            list.well_formed(),
            list.position() == 0,
            tokens(list.items()) =~= tokenize(texts(raw@).take(index as int)),
        decreases raw@.len() - index,
    {
        proof {
            assert(texts(raw@).take(index + 1).drop_last() =~= texts(raw@).take(index as int));
            assert(texts(raw@).take(index + 1).last() == raw@[index as int]@);
        }
        push_argument(&mut list, &raw[index]);
        index += 1;
    }
    proof {
        assert(texts(raw@).take(raw@.len() as int) =~= texts(raw@));
    }
    list
}

} // verus!
