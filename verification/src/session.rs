//! The session leader: the command line from the configuration, split into
//! the program and its arguments.

use shell_words::ParseError;
use vstd::prelude::*;

verus! {

/// The error of `shell_words::split` (an unclosed quote); carried, never inspected.
#[verifier::external_type_specification]
#[verifier::external_body]
pub struct ExParseError(ParseError);

/// The words `shell_words::split` makes of a command line, the way a Unix
/// shell splits it (quotes, backslashes, comments), or `None` where it
/// refuses the line.
pub uninterp spec fn shell_split(line: Seq<char>) -> Option<Seq<Seq<char>>>;

/// Splits a command line with `shell_words::split`.
///
/// Trusted: the words it returns are `shell_split` of the line, and it fails
/// exactly where `shell_split` is `None`. Nothing more is stated of how the
/// line is split.
#[verifier::external_body]
fn split_words(line: &str) -> (words: Result<Vec<String>, ParseError>)
    ensures
        match words {
            Ok(w) => shell_split(line@) == Some(w.deep_view()),
            Err(_) => shell_split(line@) is None,
        },
{
    shell_words::split(line)
}

/// Why the leader command of a session cannot be started.
#[derive(Debug, Clone, Copy, PartialEq, Eq, Structural)]
pub enum LeaderError {
    /// The command line does not split (an unclosed quote).
    Unparsable,
    /// The command line holds no word.
    Empty,
}

/// The program and arguments a list of words stands for: the first word and
/// the rest, or `None` for no words.
pub open spec fn spec_split_first(words: Seq<Seq<char>>) -> Option<(Seq<char>, Seq<Seq<char>>)> {
    if words.len() == 0 {
        None
    } else {
        Some((words[0], words.drop_first()))
    }
}

/// What starting the leader `line` runs: the program and its arguments, or
/// why there is none.
pub open spec fn spec_leader_command(line: Seq<char>) -> Result<(Seq<char>, Seq<Seq<char>>), LeaderError> {
    match shell_split(line) {
        None => Err(LeaderError::Unparsable),
        Some(words) => match spec_split_first(words) {
            None => Err(LeaderError::Empty),
            Some(split) => Ok(split),
        },
    }
}

/// Takes the first word off a list of words: the program, then its arguments.
pub fn split_first_word(words: Vec<String>) -> (split: Option<(String, Vec<String>)>)
    ensures
        match split {
            Some((first, rest)) => spec_split_first(words.deep_view()) == Some(
                (first@, rest.deep_view()),
            ),
            None => spec_split_first(words.deep_view()) is None,
        },
{
    let mut words = words;
    if words.len() == 0 {
        None
    } else {
        let ghost before = words.deep_view();
        let first = words.remove(0);
        assert(words.deep_view() =~= before.drop_first());
        Some((first, words))
    }
}

/// The program and arguments of the session leader `leader`, split the way
/// a shell would.
pub fn leader_command(leader: &str) -> (command: Result<(String, Vec<String>), LeaderError>)
    ensures
        match command {
            Ok((program, args)) => spec_leader_command(leader@) == Ok::<
                (Seq<char>, Seq<Seq<char>>),
                LeaderError,
            >((program@, args.deep_view())),
            Err(e) => spec_leader_command(leader@) == Err::<(Seq<char>, Seq<Seq<char>>), LeaderError>(
                e,
            ),
        },
{
    match split_words(leader) {
        Err(_) => Err(LeaderError::Unparsable),
        Ok(words) => match split_first_word(words) {
            None => Err(LeaderError::Empty),
            Some(split) => Ok(split),
        },
    }
}


/// Splitting the leader loses no word: the program followed by its
/// arguments is the whole split of the line.
pub proof fn lemma_leader_command_keeps_words(line: Seq<char>)
    ensures
        spec_leader_command(line) matches Ok((program, args)) ==> shell_split(line) == Some(
            seq![program] + args,
        ),
{
    if let Ok((program, args)) = spec_leader_command(line) {
        let words = shell_split(line).unwrap();
        assert(seq![program] + args =~= words);
    }
}


/// Which leader lines start and which are refused: a line that the shell
/// splitter refuses is `Unparsable`; a line that splits into no word is
/// `Empty`; a line that splits into one or more words starts its first word
/// as the program, with the other words (none for a one-word leader) as its
/// arguments.
pub proof fn lemma_leader_command_outcome(line: Seq<char>)
    ensures
        shell_split(line) is None ==> spec_leader_command(line) == Err::<
            (Seq<char>, Seq<Seq<char>>),
            LeaderError,
        >(LeaderError::Unparsable),
        shell_split(line) == Some(Seq::<Seq<char>>::empty()) ==> spec_leader_command(line)
            == Err::<(Seq<char>, Seq<Seq<char>>), LeaderError>(LeaderError::Empty),
        ({
            let words = shell_split(line).unwrap();
            shell_split(line) is Some && words.len() >= 1 ==> spec_leader_command(line) == Ok::<
                (Seq<char>, Seq<Seq<char>>),
                LeaderError,
            >((words[0], words.subrange(1, words.len() as int)))
        }),
        spec_leader_command(line) is Ok <==> (shell_split(line) is Some && shell_split(
            line,
        ).unwrap().len() >= 1),
{
    if let Some(words) = shell_split(line) {
        if words.len() >= 1 {
            assert(words.drop_first() =~= words.subrange(1, words.len() as int));
        }
        if words.len() == 0 {
            assert(words =~= Seq::<Seq<char>>::empty());
        }
    }
}

} // verus!
