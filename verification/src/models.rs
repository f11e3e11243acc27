//! Messages that the stages of the line-protocol service pass on.
use vstd::prelude::*;

verus! {

#[derive(Debug, Clone)]
pub struct FileToCompile {
    pub file_name: String,
}

impl FileToCompile {
    pub fn new(file_name: &str) -> (r: Self)
        ensures
            r.file_name@ == file_name@,
    {
        FileToCompile { file_name: String::from_str(file_name) }
    }
}

#[derive(Debug, Clone)]
pub struct FileToRun {
    pub file_name: String,
}

impl FileToRun {
    pub fn new(file_name: &str) -> (r: Self)
        ensures
            r.file_name@ == file_name@,
    {
        FileToRun { file_name: String::from_str(file_name) }
    }
}

/// A message received from the client connected under `id`.
#[derive(Debug, Clone)]
pub struct MsgToHandle {
    pub id: u128,
    pub text: String,
}

impl MsgToHandle {
    pub fn new(id: u128, text: &str) -> (r: Self)
        ensures
            r.id == id,
            r.text@ == text@,
    {
        MsgToHandle { id, text: String::from_str(text) }
    }
}

/// An answer for the client connected under `id`.
#[derive(Debug, Clone)]
pub struct MsgToRes {
    pub id: u128,
    pub text: String,
}

impl MsgToRes {
    pub fn new(id: u128, text: &str) -> (r: Self)
        ensures
            r.id == id,
            r.text@ == text@,
    {
        MsgToRes { id, text: String::from_str(text) }
    }
}

} // verus!
