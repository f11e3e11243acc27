//! Handling of the commands that clients of the line-protocol service send.
//! A message is cut at spaces: its first piece is the command, and `SUBMIT`
//! takes the name of the file to compile as its second piece.
use vstd::prelude::*;

use crate::text;

verus! {

/// What the service does with one message: the file to hand to the compiling
/// stage, if any, and the text to answer with.
#[derive(Debug, PartialEq)]
pub struct MessageReply {
    pub file_to_compile: Option<String>,
    pub response: String,
}

/// The command of a message: its text up to the first space.
pub open spec fn command_of(msg: Seq<char>) -> Seq<char> {
    msg.subrange(0, text::piece_end(msg, ' ', 0))
}

/// The argument of a message: its text between the first and the second
/// space, without surrounding white space; `None` when there is no space.
pub open spec fn argument_of(msg: Seq<char>) -> Option<Seq<char>> {
    let first = text::piece_end(msg, ' ', 0);
    if first == msg.len() {
        None
    } else {
        Some(text::trimmed(msg.subrange(first + 1, text::piece_end(msg, ' ', first + 1))))
    }
}

/// The file that a message submits, and the answer to it.
pub open spec fn reply_to(msg: Seq<char>) -> (Option<Seq<char>>, Seq<char>) {
    if command_of(msg) == "SUBMIT"@ {
        match argument_of(msg) {
            Some(file) => (Some(file), "File "@ + file + " submitted"@),
            None => (None, "File name required"@),
        }
    } else {
        (None, "Invalid command"@)
    }
}

/// What the service does with the message `msg`.
pub fn handle_message(msg: &str) -> (r: MessageReply)
    ensures
        r.file_to_compile is Some == reply_to(msg@).0 is Some,
        r.file_to_compile is Some ==> r.file_to_compile->0@ == reply_to(msg@).0->0,
        r.response@ == reply_to(msg@).1,
{
    let n = msg.unicode_len();
    let first = text::find_piece_end(msg, ' ', 0);
    let cmd = msg.substring_char(0, first);
    proof {
        reveal_strlit("SUBMIT");
    }
    if text::same_text(cmd, "SUBMIT") {
        if first == n {
            proof {
                reveal_strlit("File name required");
            }
            MessageReply { file_to_compile: None, response: String::from_str("File name required") }
        } else {
            let second = text::find_piece_end(msg, ' ', first + 1);
            let piece = msg.substring_char(first + 1, second);
            let file = text::trim(piece);
            let mut response = text::join("File ", file);
            response.append(" submitted");
            MessageReply { file_to_compile: Some(String::from_str(file)), response }
        }
    } else {
        proof {
            reveal_strlit("Invalid command");
        }
        MessageReply { file_to_compile: None, response: String::from_str("Invalid command") }
    }
}

/// The name of a submitted file holds no space and neither starts nor ends
/// with white space.
pub proof fn lemma_submitted_name_is_clean(msg: Seq<char>)
    ensures
        reply_to(msg).0 matches Some(file) ==> {
            &&& forall|i: int| 0 <= i < file.len() ==> #[trigger] file[i] != ' '
            &&& file.len() > 0 ==> !text::is_white(file[0])
            &&& file.len() > 0 ==> !text::is_white(file[file.len() - 1])
        },
{
    text::lemma_piece_end(msg, ' ', 0);
    let first = text::piece_end(msg, ' ', 0);
    if command_of(msg) == "SUBMIT"@ && first < msg.len() {
        text::lemma_piece_end(msg, ' ', first + 1);
        let second = text::piece_end(msg, ' ', first + 1);
        let piece = msg.subrange(first + 1, second);
        text::lemma_trimmed(piece);
        let file = text::trimmed(piece);
        assert forall|i: int| 0 <= i < file.len() implies #[trigger] file[i] != ' ' by {
            let j = choose|j: int| 0 <= j < piece.len() && piece[j] == file[i];
            assert(piece[j] == msg[first + 1 + j]);
        }
    }
}

} // verus!
