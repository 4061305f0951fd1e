//! The command dispatcher: from a line that the operator typed to a validated
//! command. Nothing here touches the channel.

use vstd::prelude::*;
use crate::codec::{mode_of, parse_mode, Mode};
use crate::text::same_text;

verus! {

/// A command whose argument has been validated.
#[derive(Clone, Debug, PartialEq, Eq)]
pub enum Command {
    /// Close the connection and terminate.
    Exit,
    /// One-shot request for the instruments on offer.
    ActiveSymbols(Mode),
    /// One-shot cancellation of the subscription with the given id.
    Forget(String),
    /// Ping, after the given delay in milliseconds; without delay a one-shot
    /// exchange, with a delay a subscribing one.
    Ping(u64),
    /// Subscription to the ticks of the given symbol.
    Ticks(String),
    /// One-shot request for the status of the site.
    WebsiteStatus,
}

/// The mathematical value of a [`Command`].
pub enum CommandView {
    Exit,
    ActiveSymbols(Mode),
    Forget(Seq<char>),
    Ping(u64),
    Ticks(Seq<char>),
    WebsiteStatus,
}

impl View for Command {
    type V = CommandView;

    open spec fn view(&self) -> CommandView {
        match self {
            Command::Exit => CommandView::Exit,
            Command::ActiveSymbols(mode) => CommandView::ActiveSymbols(*mode),
            Command::Forget(id) => CommandView::Forget(id@),
            Command::Ping(delay_ms) => CommandView::Ping(*delay_ms),
            Command::Ticks(symbol) => CommandView::Ticks(symbol@),
            Command::WebsiteStatus => CommandView::WebsiteStatus,
        }
    }
}

/// What the dispatcher makes of a command name and its arguments.
#[derive(Clone, Debug, PartialEq, Eq)]
pub enum Outcome {
    /// The command is recognized and its argument is valid.
    Accepted(Command),
    /// The name is not one of the recognized commands.
    InvalidCommand,
    /// The name is recognized, but the argument is missing or outside the
    /// valid domain.
    InvalidArgument,
}

/// The mathematical value of an [`Outcome`].
pub enum OutcomeView {
    Accepted(CommandView),
    InvalidCommand,
    InvalidArgument,
}

impl View for Outcome {
    type V = OutcomeView;

    open spec fn view(&self) -> OutcomeView {
        match self {
            Outcome::Accepted(command) => OutcomeView::Accepted(command@),
            Outcome::InvalidCommand => OutcomeView::InvalidCommand,
            Outcome::InvalidArgument => OutcomeView::InvalidArgument,
        }
    }
}

/// The texts of a list of strings.
pub open spec fn texts(words: Seq<String>) -> Seq<Seq<char>> {
    words.map_values(|word: String| word@)
}

/// Whether `c` is a decimal digit.
pub open spec fn is_digit(c: char) -> bool {
    '0' <= c && c <= '9'
}

/// Whether `s` is a non-empty run of decimal digits.
pub open spec fn is_decimal(s: Seq<char>) -> bool {
    s.len() > 0 && forall|i: int| 0 <= i < s.len() ==> is_digit(#[trigger] s[i])
}

/// The number that a run of decimal digits denotes.
pub open spec fn decimal_value(s: Seq<char>) -> nat
    decreases s.len(),
{
    if s.len() == 0 {
        0
    } else {
        (decimal_value(s.drop_last()) * 10 + (s.last() as u32 - '0' as u32)) as nat
    }
}

/// The delay that an argument denotes: its value where it is a decimal number
/// that fits in 64 bits, and zero for anything else.
pub open spec fn delay_of(s: Seq<char>) -> nat {
    if is_decimal(s) && decimal_value(s) <= u64::MAX {
        decimal_value(s)
    } else {
        0
    }
}

/// The outcome of a command name with its arguments. Only the first argument
/// is read; a missing one is invalid where the command needs one, and stands
/// for no delay with `ping`.
pub open spec fn outcome_of(name: Seq<char>, args: Seq<Seq<char>>) -> OutcomeView {
    if name == "exit"@ {
        OutcomeView::Accepted(CommandView::Exit)
    } else if name == "active_symbols"@ {
        if args.len() > 0 && mode_of(args[0]) is Some {
            OutcomeView::Accepted(CommandView::ActiveSymbols(mode_of(args[0])->0))
        } else {
            OutcomeView::InvalidArgument
        }
    } else if name == "forget"@ {
        if args.len() > 0 && args[0].len() > 0 {
            OutcomeView::Accepted(CommandView::Forget(args[0]))
        } else {
            OutcomeView::InvalidArgument
        }
    } else if name == "ping"@ {
        if args.len() > 0 {
            OutcomeView::Accepted(CommandView::Ping(delay_of(args[0]) as u64))
        } else {
            OutcomeView::Accepted(CommandView::Ping(0))
        }
    } else if name == "ticks"@ {
        if args.len() > 0 && args[0].len() > 0 {
            OutcomeView::Accepted(CommandView::Ticks(args[0]))
        } else {
            OutcomeView::InvalidArgument
        }
    } else if name == "website_status"@ {
        OutcomeView::Accepted(CommandView::WebsiteStatus)
    } else {
        OutcomeView::InvalidCommand
    }
}

/// The pieces of a line between its single spaces. A line without a space is
/// one piece; two spaces in a row enclose an empty piece.
pub open spec fn pieces(line: Seq<char>) -> Seq<Seq<char>>
    decreases line.len(),
{
    if line.len() == 0 {
        seq![Seq::empty()]
    } else {
        let before = pieces(line.drop_last());
        if line.last() == ' ' {
            before.push(Seq::empty())
        } else {
            before.drop_last().push(before.last().push(line.last()))
        }
    }
}

/// The outcome of a line: its first piece is the command name, the pieces
/// after it are the arguments.
pub open spec fn outcome_of_line(line: Seq<char>) -> OutcomeView {
    outcome_of(pieces(line)[0], pieces(line).skip(1))
}

/// Appending a digit multiplies the value by ten and adds the digit, so the
/// value never shrinks.
proof fn lemma_decimal_value_grows(s: Seq<char>, c: char)
    requires
        is_digit(c),
    ensures
        decimal_value(s.push(c)) == decimal_value(s) * 10 + (c as u32 - '0' as u32),
        decimal_value(s.push(c)) >= decimal_value(s),
{
    assert(s.push(c).drop_last() =~= s);
    assert(s.push(c).last() == c);
}

/// Reads a delay in milliseconds: the value of a decimal number that fits in
/// 64 bits, and zero for anything else.
pub fn parse_delay(text: &str) -> (delay_ms: u64)
    ensures
        delay_ms == delay_of(text@),
{
    let mut value: u64 = 0;
    let mut valid = true;
    let mut count: usize = 0;
    for c in it: text.chars()
        invariant
            it.seq() == text@,
            count == 0 <==> it.index() == 0,
            valid ==> value == decimal_value(text@.take(it.index() as int)),
            valid ==> forall|i: int| 0 <= i < it.index() ==> is_digit(#[trigger] text@[i]),
            !valid ==> (exists|i: int| 0 <= i < it.index() && !is_digit(#[trigger] text@[i]))
                || decimal_value(text@.take(it.index() as int)) > u64::MAX,
    {
        let ghost before = text@.take(it.index() as int);
        let ghost after = text@.take(it.index() + 1);
        assert(after =~= before.push(c));
        count = 1;
        if '0' <= c && c <= '9' {
            proof {
                lemma_decimal_value_grows(before, c);
            }
            if valid {
                let digit: u64 = (c as u32 - '0' as u32) as u64;
                match value.checked_mul(10) {
                    Some(tens) => match tens.checked_add(digit) {
                        Some(sum) => {
                            value = sum;
                        },
                        None => {
                            valid = false;
                        },
                    },
                    None => {
                        valid = false;
                    },
                }
            }
        } else {
            valid = false;
            assert(!is_digit(text@[it.index() as int]));
        }
    }
    assert(text@.take(text@.len() as int) =~= text@);
    if valid && count > 0 {
        value
    } else {
        0
    }
}

/// Splits a line at every single space.
pub fn split_line(line: &str) -> (words: Vec<String>)
    ensures
        texts(words@) == pieces(line@),
        words.len() >= 1,
{
    let mut done: Vec<String> = Vec::new();
    let mut current = String::new();
    for c in it: line.chars()
        invariant
            it.seq() == line@,
            texts(done@).push(current@) == pieces(line@.take(it.index() as int)),
    {
        let ghost before = line@.take(it.index() as int);
        let ghost after = line@.take(it.index() + 1);
        let ghost old_done = texts(done@);
        let ghost old_current = current@;
        assert(after.drop_last() =~= before);
        assert(after.last() == c);
        assert(old_done.push(old_current).drop_last() =~= old_done);
        if c == ' ' {
            done.push(current);
            current = String::new();
            assert(texts(done@) =~= old_done.push(old_current));
        } else {
            current.push(c);
        }
        assert(texts(done@).push(current@) =~= pieces(after));
    }
    assert(line@.take(line@.len() as int) =~= line@);
    let ghost old_done = texts(done@);
    done.push(current);
    assert(texts(done@) =~= old_done.push(current@));
    done
}

/// Validates a command: the name against the recognized commands, the first
/// argument against the command's domain.
pub fn dispatch(name: &str, args: &Vec<String>) -> (outcome: Outcome)
    ensures
        outcome@ == outcome_of(name@, texts(args@)),
{
    if same_text(name, "exit") {
        Outcome::Accepted(Command::Exit)
    } else if same_text(name, "active_symbols") {
        if args.len() > 0 {
            match parse_mode(args[0].as_str()) {
                Some(mode) => Outcome::Accepted(Command::ActiveSymbols(mode)),
                None => Outcome::InvalidArgument,
            }
        } else {
            Outcome::InvalidArgument
        }
    } else if same_text(name, "forget") {
        if args.len() > 0 && !args[0].as_str().is_empty() {
            Outcome::Accepted(Command::Forget(args[0].clone()))
        } else {
            Outcome::InvalidArgument
        }
    } else if same_text(name, "ping") {
        if args.len() > 0 {
            Outcome::Accepted(Command::Ping(parse_delay(args[0].as_str())))
        } else {
            Outcome::Accepted(Command::Ping(0))
        }
    } else if same_text(name, "ticks") {
        if args.len() > 0 && !args[0].as_str().is_empty() {
            Outcome::Accepted(Command::Ticks(args[0].clone()))
        } else {
            Outcome::InvalidArgument
        }
    } else if same_text(name, "website_status") {
        Outcome::Accepted(Command::WebsiteStatus)
    } else {
        Outcome::InvalidCommand
    }
}

/// Validates a line as the operator typed it.
pub fn dispatch_line(line: &str) -> (outcome: Outcome)
    ensures
        outcome@ == outcome_of_line(line@),
{
    let mut words = split_line(line);
    let ghost all = texts(words@);
    let name = words.remove(0);
    assert(texts(words@) =~= all.skip(1));
    dispatch(name.as_str(), &words)
}

} // verus!
