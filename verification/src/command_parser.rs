//! The command line of the view: keys are gathered into a line, and a
//! finished line is split into words, its alias is expanded, and the
//! instruction it names is turned into a command for the dispatch loop.

use vstd::prelude::*;
use vstd::string::StringExecFns;

use crate::commander::filter_handler::add_filter;
use crate::commander::filter_handler::parse_filter;
use crate::commander::user_commands::find_log;
use crate::commander::user_commands::parse_find_log;
use crate::commander::user_commands::parse_stream_file;
use crate::commander::user_commands::parse_stream_start;
use crate::commander::user_commands::parse_stream_stop;
use crate::commander::user_commands::parsed_view;
use crate::commander::user_commands::stream_file;
use crate::commander::user_commands::stream_start;
use crate::commander::user_commands::stream_stop;
use crate::commander::Command;
use crate::commander::CommandView;
use crate::configuration::clone_aliases;
use crate::configuration::Alias;
use crate::configuration::AliasView;
use crate::text::chars_of;
use crate::text::push_char;
use crate::text::replace_first;
use crate::text::replace_first_char;
use crate::text::split_words;
use crate::text::string_of;
use crate::text::words;
use crate::tui::Key;

verus! {

/// Whether a command line is being typed.
#[derive(Clone, Copy, Debug, PartialEq, Eq, Structural)]
pub enum State {
    Idle,
    Parsing,
}

/// What an instruction of the command line does with its arguments.
#[derive(Clone, Copy, Debug, PartialEq, Eq, Structural)]
pub enum Operation {
    /// Stream an input file.
    StreamFile,
    /// Start recording into a file.
    StreamStart,
    /// Stop recording.
    StreamStop,
    /// Search the logs.
    FindLog,
    /// Add a filter.
    AddFilter,
}

impl Operation {
    /// What the operation makes of its arguments: a command, or the text
    /// of a complaint.
    pub open spec fn outcome(self, args: Seq<Seq<char>>) -> Result<CommandView, Seq<char>> {
        match self {
            Operation::StreamFile => parse_stream_file(args),
            Operation::StreamStart => parse_stream_start(args),
            Operation::StreamStop => parse_stream_stop(args),
            Operation::FindLog => parse_find_log(args),
            Operation::AddFilter => match parse_filter(args) {
                Ok(filter) => Ok(CommandView::AddFilter(filter)),
                Err(text) => Err(text),
            },
        }
    }

    /// Runs the operation on its arguments.
    pub fn run(self, args: Vec<String>) -> (r: Result<Command, String>)
        ensures
            parsed_view(r) == self.outcome(args.deep_view()),
    {
        match self {
            Operation::StreamFile => stream_file(args),
            Operation::StreamStart => stream_start(args),
            Operation::StreamStop => stream_stop(args),
            Operation::FindLog => find_log(args),
            Operation::AddFilter => add_filter(args),
        }
    }
}

/// An instruction that the command line knows: its name and what it does.
#[derive(Debug)]
pub struct Instruction {
    opcode: String,
    operation: Operation,
}

/// What the contracts say of an [`Instruction`].
pub struct InstructionView {
    pub opcode: Seq<char>,
    pub operation: Operation,
}

impl DeepView for Instruction {
    type V = InstructionView;

    closed spec fn deep_view(&self) -> InstructionView {
        InstructionView { opcode: self.opcode@, operation: self.operation }
    }
}

/// The operation of the first instruction with the given name.
pub open spec fn lookup(instructions: Seq<InstructionView>, opcode: Seq<char>) -> Option<Operation>
    decreases instructions.len(),
{
    if instructions.len() == 0 {
        None
    } else {
        match lookup(instructions.drop_last(), opcode) {
            Some(operation) => Some(operation),
            None => if instructions.last().opcode == opcode {
                Some(instructions.last().operation)
            } else {
                None
            },
        }
    }
}

/// An instruction found among the first is the instruction found.
proof fn lemma_lookup_prefix(instructions: Seq<InstructionView>, n: int, opcode: Seq<char>)
    requires
        0 <= n <= instructions.len(),
        lookup(instructions.take(n), opcode) is Some,
    ensures
        lookup(instructions, opcode) == lookup(instructions.take(n), opcode),
    decreases instructions.len() - n,
{
    if n < instructions.len() {
        assert(instructions.take(n + 1).drop_last() =~= instructions.take(n));
        lemma_lookup_prefix(instructions, n + 1, opcode);
    } else {
        assert(instructions.take(n) =~= instructions);
    }
}

/// The words of a line after one alias was tried on them: where the first
/// word is the alias, the words of its expansion take its place.
pub open spec fn expand_alias(tokens: Seq<Seq<char>>, alias: AliasView) -> Seq<Seq<char>> {
    if tokens.len() > 0 && tokens[0] == alias.alias {
        words(alias.expanded) + tokens.skip(1)
    } else {
        tokens
    }
}

/// The words of a line after every alias was tried on them, in the order
/// of the alias list.
pub open spec fn expand(tokens: Seq<Seq<char>>, aliases: Seq<AliasView>) -> Seq<Seq<char>>
    decreases aliases.len(),
{
    if aliases.len() == 0 {
        tokens
    } else {
        expand_alias(expand(tokens, aliases.drop_last()), aliases.last())
    }
}

/// What the contracts say of a [`CommandParser`].
pub struct CommandParserView {
    /// The line typed so far, or the message shown in its place
    pub text: Seq<char>,
    pub state: State,
    pub instructions: Seq<InstructionView>,
    pub aliases: Seq<AliasView>,
}

impl CommandParserView {
    /// The line as it is read when it is finished: its first `/`, the
    /// shorthand for a search, becomes `:find `.
    pub open spec fn finished_line(self) -> Seq<char> {
        replace_first(self.text, '/', ":find "@)
    }

    /// The words of the finished line, aliases expanded.
    pub open spec fn tokens(self) -> Seq<Seq<char>> {
        expand(words(self.finished_line()), self.aliases)
    }

    /// The command that the finished line sends: that of the instruction
    /// named by its first word, run on the other words, or the complaint of
    /// that instruction as a message. A line without words, or with a first
    /// word that names no instruction, sends nothing.
    pub open spec fn command(self) -> Option<CommandView> {
        if self.tokens().len() == 0 {
            None
        } else {
            match lookup(self.instructions, self.tokens()[0]) {
                None => None,
                Some(operation) => match operation.outcome(self.tokens().skip(1)) {
                    Ok(command) => Some(command),
                    Err(text) => Some(CommandView::PrintMessage(text)),
                },
            }
        }
    }

    /// The parser after the line was finished. An empty line leaves the
    /// parser waiting for more; any other ends the typing.
    pub open spec fn executed(self) -> CommandParserView {
        CommandParserView {
            text: self.finished_line(),
            state: if words(self.finished_line()).len() == 0 {
                self.state
            } else {
                State::Idle
            },
            ..self
        }
    }

    /// The parser after a key. `:` and `/` start a line when none is
    /// being typed; any character joins the line; backspace takes the last
    /// one away; escape gives the line up; enter finishes it.
    pub open spec fn after_key(self, key: Key) -> CommandParserView {
        match key {
            Key::Char(c) => if (c == ':' || c == '/') && self.state == State::Idle {
                CommandParserView { text: seq![c], state: State::Parsing, ..self }
            } else {
                CommandParserView { text: self.text.push(c), ..self }
            },
            Key::Enter => self.executed(),
            Key::Esc => CommandParserView { text: Seq::empty(), state: State::Idle, ..self },
            Key::Backspace => if self.text.len() > 0 {
                CommandParserView { text: self.text.drop_last(), ..self }
            } else {
                self
            },
            _ => self,
        }
    }

    /// The command that a key sends: that of the finished line on enter,
    /// none on any other key.
    pub open spec fn sent_by(self, key: Key) -> Option<CommandView> {
        match key {
            Key::Enter => if words(self.finished_line()).len() == 0 {
                None
            } else {
                self.command()
            },
            _ => None,
        }
    }
}

/// The line editor and interpreter of the command line.
pub struct CommandParser {
    parsed_command: String,
    state: State,
    registered_instructions: Vec<Instruction>,
    aliases: Vec<Alias>,
}

impl DeepView for CommandParser {
    type V = CommandParserView;

    closed spec fn deep_view(&self) -> CommandParserView {
        CommandParserView {
            text: self.parsed_command@,
            state: self.state,
            instructions: self.registered_instructions.deep_view(),
            aliases: self.aliases.deep_view(),
        }
    }
}

impl CommandParser {
    /// Create a new command parser
    pub fn new(aliases: Vec<Alias>) -> (r: CommandParser)
        ensures
            r.deep_view() == (CommandParserView {
                text: Seq::empty(),
                state: State::Idle,
                instructions: Seq::empty(),
                aliases: aliases.deep_view(),
            }),
    {
        let r = CommandParser {
            parsed_command: String::new(),
            state: State::Idle,
            registered_instructions: Vec::new(),
            aliases,
        };
        assert(r.deep_view().instructions =~= Seq::empty());
        r
    }

    /// Check if it is currently idle or processing a command
    pub fn is_idle(&self) -> (r: bool)
        ensures
            r == (self.deep_view().state == State::Idle),
    {
        match self.state {
            State::Idle => true,
            State::Parsing => false,
        }
    }

    /// Getter for the currently parsed string
    pub fn get_parsed_cmd(&self) -> (r: String)
        ensures
            r@ == self.deep_view().text,
    {
        self.parsed_command.clone()
    }

    /// Register an instruction to the command parser
    pub fn register_instruction(&mut self, opcode: String, operation: Operation)
        ensures
            final(self).deep_view() == (CommandParserView {
                instructions: old(self).deep_view().instructions.push(
                    InstructionView { opcode: opcode@, operation },
                ),
                ..old(self).deep_view()
            }),
    {
        let ghost before = self.registered_instructions.deep_view();
        self.registered_instructions.push(Instruction { opcode, operation });
        assert(self.registered_instructions.deep_view() =~= before.push(
            InstructionView { opcode: opcode@, operation },
        ));
    }

    /// Print message
    pub fn print_message(&mut self, msg: String)
        ensures
            final(self).deep_view() == (CommandParserView { text: msg@, ..old(self).deep_view() }),
    {
        self.parsed_command = msg;
    }

    /// Utility function, just cancel parsing
    pub fn cancel_parsing(&mut self)
        ensures
            final(self).deep_view() == old(self).deep_view().after_key(Key::Esc),
    {
        self.parsed_command = String::new();
        self.state = State::Idle;
    }

    /// Tries one alias on the words of a line.
    fn expand_alias(tokens: Vec<String>, alias: &Alias) -> (r: Vec<String>)
        ensures
            r.deep_view() == expand_alias(tokens.deep_view(), alias.deep_view()),
    {
        if tokens.len() > 0 && tokens[0] == alias.alias {
            let ghost given = tokens.deep_view();
            let mut tokens = tokens;
            let _ = tokens.remove(0);
            assert(tokens.deep_view() =~= given.skip(1));
            let mut expanded = split_words(alias.expanded.as_str());
            let ghost head = expanded.deep_view();
            expanded.append(&mut tokens);
            assert(expanded.deep_view() =~= head + given.skip(1));
            expanded
        } else {
            tokens
        }
    }

    /// Looks an instruction up by its name.
    fn find_operation(&self, opcode: &String) -> (r: Option<Operation>)
        ensures
            r == lookup(self.deep_view().instructions, opcode@),
    {
        let mut i: usize = 0;
        let ghost all = self.registered_instructions.deep_view();
        proof {
            assert(all.take(0) =~= Seq::<InstructionView>::empty());
        }
        while i < self.registered_instructions.len()
            invariant
                i <= self.registered_instructions.len(),
                all == self.registered_instructions.deep_view(),
                lookup(all.take(i as int), opcode@) is None,
            decreases self.registered_instructions.len() - i,
        {
            let instruction = &self.registered_instructions[i];
            proof {
                assert(all.take(i + 1).drop_last() =~= all.take(i as int));
                assert(all.take(i + 1).last() == instruction.deep_view());
            }
            if instruction.opcode == *opcode {
                proof {
                    lemma_lookup_prefix(all, i + 1, opcode@);
                }
                return Some(instruction.operation);
            }
            i += 1;
        }
        assert(all.take(self.registered_instructions.len() as int) =~= all);
        None
    }

    /// Command complete, process it
    fn execute(&mut self) -> (r: Option<Command>)
        ensures
            final(self).deep_view() == old(self).deep_view().executed(),
            r.deep_view() == old(self).deep_view().sent_by(Key::Enter),
    {
        let ghost before = self.deep_view();
        // Handle special case of `/` for search
        self.parsed_command = replace_first_char(self.parsed_command.as_str(), '/', ":find ");
        // Split with spaces
        let mut tokens = split_words(self.parsed_command.as_str());
        if tokens.len() == 0 {
            return None;
        }
        // Identify and apply aliases
        let mut i: usize = 0;
        let ghost aliases = self.aliases.deep_view();
        proof {
            assert(aliases.take(0) =~= Seq::<AliasView>::empty());
        }
        while i < self.aliases.len()
            invariant
                i <= self.aliases.len(),
                aliases == self.aliases.deep_view(),
                self.deep_view() == (CommandParserView { text: before.finished_line(), ..before }),
                tokens.deep_view() == expand(words(before.finished_line()), aliases.take(i as int)),
            decreases self.aliases.len() - i,
        {
            proof {
                assert(aliases.take(i + 1).drop_last() =~= aliases.take(i as int));
                assert(aliases.take(i + 1).last() == self.aliases[i as int].deep_view());
            }
            tokens = CommandParser::expand_alias(tokens, &self.aliases[i]);
            i += 1;
        }
        assert(aliases.take(self.aliases.len() as int) =~= aliases);
        self.state = State::Idle;
        if tokens.len() == 0 {
            return None;
        }
        // Separate command from arguments
        let ghost expanded = tokens.deep_view();
        let inst = tokens.remove(0);
        assert(tokens.deep_view() =~= expanded.skip(1));
        // Execute command
        match self.find_operation(&inst) {
            None => None,
            Some(operation) => match operation.run(tokens) {
                Ok(command) => Some(command),
                Err(e) => Some(Command::PrintMessage(e)),
            },
        }
    }

    /// Process keypresses received
    ///
    /// Hands back the command that the key sends to the dispatch loop, if
    /// it sends one.
    pub fn process_key(&mut self, key: Key) -> (r: Option<Command>)
        ensures
            final(self).deep_view() == old(self).deep_view().after_key(key),
            r.deep_view() == old(self).deep_view().sent_by(key),
    {
        match key {
            // First time means start parsing command, subsequent times
            // mean it is just another character
            Key::Char(c) => {
                if (c == ':' || c == '/') && self.is_idle() {
                    self.state = State::Parsing;
                    self.parsed_command = String::new();
                    push_char(&mut self.parsed_command, c);
                    assert(self.parsed_command@ =~= seq![c]);
                } else {
                    // Append to the command that is being parsed
                    push_char(&mut self.parsed_command, c);
                }
                None
            },
            // Search for the matching instruction
            Key::Enter => self.execute(),
            // Cancel
            Key::Esc => {
                self.cancel_parsing();
                None
            },
            // Remove last character
            Key::Backspace => {
                let chars = chars_of(self.parsed_command.as_str());
                if chars.len() > 0 {
                    self.parsed_command = string_of(&chars, 0, chars.len() - 1);
                    assert(self.parsed_command@ =~= old(self).parsed_command@.drop_last());
                }
                None
            },
            _ => None,
        }
    }
}

} // verus!
