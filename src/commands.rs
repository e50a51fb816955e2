//! The commands a user can type, and the actions they start.
use crate::directory::{Binding, PeerDirectory};
use crate::messages::{HandCardData, NetMessage, Outgoing};
use crate::transfer::Processing;
use vstd::prelude::*;
use crate::text::owned;
use vstd::string::StringExecFns;

verus! {

/// Why a typed command was refused.
#[derive(Debug, Clone, PartialEq, Eq)]
pub enum CommandError {
    /// `send` was given no file.
    NoFileSpecified,
    /// The file path could not be expanded; the reason.
    PathExpansion(String),
    /// No command has this name.
    UnknownCommand(String),
}

/// What a command asks the session to do.
#[derive(Debug, Clone, PartialEq, Eq)]
pub enum ActionRequest {
    /// Send the file at this path to every peer.
    SendFile(String),
    /// Broadcast an answer to the current hand.
    Answer(CardasciiAnswer),
    /// Broadcast that this player passes.
    Pass(CardasciiPass),
}

/// The words of `s`, as split at spaces.
pub open spec fn split_words(s: Seq<char>) -> Seq<Seq<char>>
    decreases s.len(),
{
    if s.len() == 0 {
        Seq::empty()
    } else {
        let w = split_words(s.drop_last());
        if s.last() == ' ' {
            w
        } else if s.len() >= 2 && s[s.len() - 2] != ' ' {
            w.update(w.len() - 1, w.last().push(s.last()))
        } else {
            w.push(seq![s.last()])
        }
    }
}

proof fn lemma_split_words_nonempty(s: Seq<char>)
    requires
        s.len() > 0,
        s.last() != ' ',
    ensures
        split_words(s).len() > 0,
    decreases s.len(),
{
    if s.len() >= 2 && s[s.len() - 2] != ' ' {
        lemma_split_words_nonempty(s.drop_last());
    }
}

/// The words of a line, as the command parser sees them.
pub fn split_params(line: &str) -> (r: Vec<String>)
    ensures
        r@.map_values(|w: String| w@) == split_words(line@),
{
    let len = line.unicode_len();
    let mut words: Vec<String> = Vec::new();
    let mut cur = String::new();
    let mut in_word = false;
    let mut i: usize = 0;
    while i < len
        invariant
            i <= len,
            len == line@.len(),
            in_word == (i > 0 && line@[i - 1] != ' '),
            in_word ==> words@.map_values(|w: String| w@).push(cur@) == split_words(
                line@.subrange(0, i as int),
            ),
            !in_word ==> words@.map_values(|w: String| w@) == split_words(
                line@.subrange(0, i as int),
            ),
        decreases len - i,
    {
        let c = line.get_char(i);
        let ghost sub = line@.subrange(0, i as int + 1);
        assert(sub.drop_last() =~= line@.subrange(0, i as int));
        assert(sub.last() == c);
        if c == ' ' {
            if in_word {
                let ghost before = words@;
                words.push(cur);
                assert(words@.map_values(|w: String| w@) =~= before.map_values(|w: String| w@).push(
                    cur@,
                ));
                cur = String::new();
                in_word = false;
            }
        } else {
            let piece = line.substring_char(i, i + 1);
            if in_word {
                let ghost prev = cur@;
                cur.append(piece);
                proof {
                    let w = split_words(line@.subrange(0, i as int));
                    let wv = words@.map_values(|w: String| w@);
                    assert(w == wv.push(prev));
                    assert(w.last() == prev);
                    assert(piece@ =~= seq![c]);
                    assert(cur@ =~= prev.push(c));
                    assert(w.update(w.len() - 1, w.last().push(c)) =~= words@.map_values(
                        |w: String| w@,
                    ).push(cur@));
                }
            } else {
                cur = String::new();
                cur.append(piece);
                proof {
                    assert(piece@ =~= seq![c]);
                    assert(cur@ =~= seq![c]);
                }
                in_word = true;
            }
        }
        i = i + 1;
    }
    assert(line@.subrange(0, len as int) =~= line@);
    if in_word {
        let ghost before = words@;
        words.push(cur);
        assert(words@.map_values(|w: String| w@) =~= before.map_values(|w: String| w@).push(cur@));
    }
    words
}

/// The parameters joined into one text, each after a space.
pub open spec fn spaced(params: Seq<Seq<char>>) -> Seq<char>
    decreases params.len(),
{
    if params.len() == 0 {
        Seq::empty()
    } else {
        spaced(params.drop_last()) + seq![' '] + params.last()
    }
}

/// Broadcasts an answer to the current hand.
#[derive(Debug, Clone, PartialEq, Eq)]
pub struct CardasciiAnswer {
    pub operation: String,
}

impl CardasciiAnswer {
    /// An answer action for the given expression.
    pub fn new(operation: String) -> (r: Result<CardasciiAnswer, CommandError>)
        ensures
            r == Ok::<CardasciiAnswer, CommandError>(CardasciiAnswer { operation }),
    {
        Ok(CardasciiAnswer { operation })
    }

    /// Sends the answer to every peer; done in one step.
    pub fn process(&self, peers: &PeerDirectory) -> (r: (Outgoing, Processing))
        ensures
            r.0.to@ == peers@.map_values(|p: Binding| p.0),
            r.0.message == NetMessage::CardasciiAnswer(self.operation),
            r.1 == Processing::Completed,
    {
        let m = NetMessage::CardasciiAnswer(self.operation.clone());
        (Outgoing { to: peers.all_endpoints(), message: m }, Processing::Completed)
    }
}

/// Broadcasts that this player passes the turn.
#[derive(Debug, Clone, PartialEq, Eq)]
pub struct CardasciiPass {}

impl CardasciiPass {
    /// A pass action.
    pub fn new() -> (r: Result<CardasciiPass, CommandError>)
        ensures
            r == Ok::<CardasciiPass, CommandError>(CardasciiPass {  }),
    {
        Ok(CardasciiPass {  })
    }

    /// Sends the pass to every peer; done in one step.
    pub fn process(&self, peers: &PeerDirectory) -> (r: (Outgoing, Processing))
        ensures
            r.0.to@ == peers@.map_values(|p: Binding| p.0),
            r.0.message == NetMessage::CardasciiPass,
            r.1 == Processing::Completed,
    {
        (Outgoing { to: peers.all_endpoints(), message: NetMessage::CardasciiPass }, Processing::Completed)
    }
}

/// The `answer` command.
pub struct CardasciiAnswerCommand;

impl CardasciiAnswerCommand {
    /// The command's name.
    pub fn name(&self) -> (r: &'static str)
        ensures
            r@ == "answer"@,
    {
        "answer"
    }

    /// The words after the command make up the expression, each after a space.
    pub fn parse_params(&self, params: Vec<String>) -> (r: Result<ActionRequest, CommandError>)
        ensures
            r matches Ok(ActionRequest::Answer(a)) && a.operation@ == spaced(
                params@.map_values(|p: String| p@),
            ),
    {
        let mut operation = String::new();
        let mut i: usize = 0;
        while i < params.len()
            invariant
                i <= params@.len(),
                operation@ == spaced(params@.subrange(0, i as int).map_values(|p: String| p@)),
            decreases params@.len() - i,
        {
            let ghost prev = params@.subrange(0, i as int).map_values(|p: String| p@);
            operation.append(" ");
            operation.append(params[i].as_str());
            proof {
                let next = params@.subrange(0, i as int + 1).map_values(|p: String| p@);
                assert(next.drop_last() =~= prev);
                assert(" "@ =~= seq![' ']) by {
                    reveal_strlit(" ");
                }
            }
            i = i + 1;
        }
        assert(params@.subrange(0, params@.len() as int) =~= params@);
        match CardasciiAnswer::new(operation) {
            Ok(action) => Ok(ActionRequest::Answer(action)),
            Err(e) => Err(e),
        }
    }
}

/// The `pass` command.
pub struct CardasciiPassCommand;

impl CardasciiPassCommand {
    /// The command's name.
    pub fn name(&self) -> (r: &'static str)
        ensures
            r@ == "pass"@,
    {
        "pass"
    }

    /// Takes no parameters; any given are ignored.
    pub fn parse_params(&self, params: Vec<String>) -> (r: Result<ActionRequest, CommandError>)
        ensures
            r == Ok::<ActionRequest, CommandError>(ActionRequest::Pass(CardasciiPass {  })),
    {
        match CardasciiPass::new() {
            Ok(action) => Ok(ActionRequest::Pass(action)),
            Err(e) => Err(e),
        }
    }
}

/// Whether every `$` of the text that has a character after it is
/// followed by an ASCII character.
pub open spec fn dollars_followed_by_ascii(s: Seq<char>) -> bool {
    forall|i: int| 0 <= i < s.len() - 1 && #[trigger] s[i] == '$' ==> (s[i + 1] as u32) < 128
}

/// A path that expansion leaves alone: no `$`, and no leading `~`.
pub open spec fn plain_path(s: Seq<char>) -> bool {
    !s.contains('$') && !(s.len() > 0 && s[0] == '~')
}

/// Tests `dollars_followed_by_ascii`.
pub fn dollars_ok(path: &str) -> (r: bool)
    ensures
        r == dollars_followed_by_ascii(path@),
{
    let len = path.unicode_len();
    let mut i: usize = 0;
    while i < len
        invariant
            len == path@.len(),
            i <= len,
            forall|j: int| 0 <= j < i && j < len - 1 && #[trigger] path@[j] == '$' ==> (path@[j + 1] as u32) < 128,
        decreases len - i,
    {
        if i + 1 < len && path.get_char(i) == '$' && (path.get_char(i + 1) as u32) >= 128 {
            return false;
        }
        i = i + 1;
    }
    true
}

/// Relies on shellexpand's `full`: expands a leading `~` and environment
/// variables, or fails on an unknown variable. What comes back depends on
/// the environment, but a path with no `$` and no leading `~` comes back
/// unchanged. `full` slices the text one byte after a `$`, which panics
/// when a non-ASCII character follows it; such text is left out.
#[verifier::external_body]
fn expand_path(path: &str) -> (r: Result<String, String>)
    requires
        dollars_followed_by_ascii(path@),
    ensures
        plain_path(path@) ==> r is Ok && r->Ok_0@ == path@,
{
    match shellexpand::full(path) {
        Ok(p) => Ok(p.into_owned()),
        Err(e) => Err(format!("{}", e)),
    }
}

/// The `send` command.
pub struct SendFileCommand;

impl SendFileCommand {
    /// The command's name.
    pub fn name(&self) -> (r: &'static str)
        ensures
            r@ == "send"@,
    {
        "send"
    }

    /// The first word is the path of the file, with `~` and variables
    /// expanded. A path with a `$` followed by a non-ASCII character is
    /// refused.
    pub fn parse_params(&self, params: Vec<String>) -> (r: Result<ActionRequest, CommandError>)
        ensures
            params@.len() == 0 ==> r == Err::<ActionRequest, CommandError>(CommandError::NoFileSpecified),
            params@.len() > 0 ==> (r matches Ok(ActionRequest::SendFile(_))) || (r matches Err(
                CommandError::PathExpansion(_),
            )),
            params@.len() > 0 && !dollars_followed_by_ascii(params@[0]@) ==> (r matches Err(
                CommandError::PathExpansion(_),
            )),
            params@.len() > 0 && plain_path(params@[0]@) ==> (r matches Ok(ActionRequest::SendFile(p))
                && p@ == params@[0]@),
    {
        if params.len() == 0 {
            return Err(CommandError::NoFileSpecified);
        }
        if !dollars_ok(params[0].as_str()) {
            return Err(
                CommandError::PathExpansion(
                    owned("a '$' is followed by a character that cannot start a variable name"),
                ),
            );
        }
        match expand_path(params[0].as_str()) {
            Ok(path) => Ok(ActionRequest::SendFile(path)),
            Err(e) => Err(CommandError::PathExpansion(e)),
        }
    }
}

/// The name of the command on a line: its first word without the leading `/`.
pub open spec fn command_name(words: Seq<Seq<char>>) -> Seq<char> {
    let w0 = words[0];
    w0.subrange(if w0.len() > 0 { 1 } else { 0 }, w0.len() as int)
}

/// Whether a line is a command rather than chat text.
pub open spec fn is_command_line(line: Seq<char>) -> bool {
    line.len() > 0 && line[0] == '/' && split_words(line).len() > 0
}

fn text_is(s: &String, w: &str) -> (r: bool)
    ensures
        r == (s@ == w@),
{
    let t = <String as StringExecFns>::from_str(w);
    *s == t
}

/// Reads a typed line. A line that starts with `/` names a command, and
/// the words after the name are its parameters: `send <path>`,
/// `answer <expression>` or `pass`. Any other line is chat text, for which
/// there is no action.
pub fn find_command_action(input: &String) -> (r: Option<Result<ActionRequest, CommandError>>)
    ensures
        !is_command_line(input@) ==> r is None,
        is_command_line(input@) ==> {
            let words = split_words(input@);
            let name = command_name(words);
            let params = words.drop_first();
            &&& r is Some
            &&& name == "answer"@ ==> (r matches Some(Ok(ActionRequest::Answer(a))) && a.operation@
                == spaced(params))
            &&& name == "pass"@ ==> r == Some(
                Ok::<ActionRequest, CommandError>(ActionRequest::Pass(CardasciiPass {  })),
            )
            &&& name == "send"@ ==> (params.len() == 0 ==> r == Some(
                Err::<ActionRequest, CommandError>(CommandError::NoFileSpecified),
            )) && (params.len() > 0 ==> (r matches Some(Ok(ActionRequest::SendFile(_))))
                || (r matches Some(Err(CommandError::PathExpansion(_))))) && (params.len() > 0
                && plain_path(params[0]) ==> (r matches Some(Ok(ActionRequest::SendFile(p))) && p@
                == params[0]))
            &&& (name != "answer"@ && name != "pass"@ && name != "send"@) ==> (r matches Some(
                Err(CommandError::UnknownCommand(n)),
            ) && n@ == name)
        },
{
    if input.unicode_len() == 0 || input.get_char(0) != '/' {
        return None;
    }
    let mut words = split_params(input.as_str());
    if words.len() == 0 {
        return None;
    }
    let first = words.remove(0);
    let first_len = first.unicode_len();
    let start: usize = if first_len > 0 {
        1
    } else {
        0
    };
    let name = <String as StringExecFns>::from_str(first.substring_char(start, first_len));
    proof {
        let ws = split_words(input@);
        assert(words@.map_values(|w: String| w@) =~= ws.drop_first());
        assert(name@ == command_name(ws));
        reveal_strlit("answer");
        reveal_strlit("pass");
        reveal_strlit("send");
        assert("answer"@.len() == 6 && "pass"@.len() == 4 && "send"@.len() == 4);
        assert("pass"@[0] == 'p' && "send"@[0] == 's');
    }
    if text_is(&name, "answer") {
        Some(CardasciiAnswerCommand.parse_params(words))
    } else if text_is(&name, "pass") {
        Some(CardasciiPassCommand.parse_params(words))
    } else if text_is(&name, "send") {
        Some(SendFileCommand.parse_params(words))
    } else {
        Some(Err(CommandError::UnknownCommand(name)))
    }
}

/// Reads a typed command from the answer keys of the hand; input is taken
/// through the session's input line, so this yields nothing.
pub fn get_command(hand: &HandCardData) -> (r: Option<String>)
    ensures
        r is None,
{
    None
}

} // verus!
