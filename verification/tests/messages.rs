use coderunner::models::{FileToCompile, FileToRun, MsgToHandle, MsgToRes};
use coderunner::pipeline::msg_handling::handle_message;
use coderunner::pipeline::respondning::response_line;

#[test]
fn submit_with_a_file_name() {
    let reply = handle_message("SUBMIT main.cpp\n");
    assert_eq!(reply.file_to_compile.as_deref(), Some("main.cpp"));
    assert_eq!(reply.response, "File main.cpp submitted");
}

#[test]
fn submit_takes_only_the_second_piece() {
    let reply = handle_message("SUBMIT a.cpp b.cpp");
    assert_eq!(reply.file_to_compile.as_deref(), Some("a.cpp"));
    assert_eq!(reply.response, "File a.cpp submitted");
}

#[test]
fn submit_without_a_file_name() {
    let reply = handle_message("SUBMIT");
    assert_eq!(reply.file_to_compile, None);
    assert_eq!(reply.response, "File name required");
}

#[test]
fn submit_with_an_empty_piece() {
    let reply = handle_message("SUBMIT \t");
    assert_eq!(reply.file_to_compile.as_deref(), Some(""));
    assert_eq!(reply.response, "File  submitted");
}

#[test]
fn other_commands_are_invalid() {
    for msg in ["HELLO world", "", "submit x", "SUBMIT\nx"] {
        let reply = handle_message(msg);
        assert_eq!(reply.file_to_compile, None);
        assert_eq!(reply.response, "Invalid command");
    }
}

#[test]
fn answers_end_with_a_line_break() {
    assert_eq!(response_line("File a submitted"), "File a submitted\n");
    assert_eq!(response_line(""), "\n");
}

#[test]
fn messages_keep_their_parts() {
    let m = MsgToHandle::new(5, "SUBMIT x");
    assert_eq!((m.id, m.text.as_str()), (5, "SUBMIT x"));
    let r = MsgToRes::new(6, "ok");
    assert_eq!((r.id, r.text.as_str()), (6, "ok"));
    assert_eq!(FileToCompile::new("a.cpp").file_name, "a.cpp");
    assert_eq!(FileToRun::new("a.out").file_name, "a.out");
}

#[test]
fn submitted_names_hold_no_space_or_edge_white() {
    let reply = handle_message("SUBMIT \ta.cpp\t more");
    let file = reply.file_to_compile.unwrap();
    assert_eq!(file, "a.cpp");
    assert!(!file.contains(' '));
    assert_eq!(reply.response, "File a.cpp submitted");
}
