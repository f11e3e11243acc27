//! The states of a test on the wire.
use vstd::prelude::*;

use crate::grpc::models::{Empty, TestChecking, TestCorrect, TestCrash, TestLimitsExceeded, TestWrong};

verus! {

#[derive(Debug, PartialEq)]
pub enum State {
    Pending(Empty),
    Executing(Empty),
    Checking(TestChecking),
    Correct(TestCorrect),
    Wrong(TestWrong),
    LimitsExceeded(TestLimitsExceeded),
    Crash(TestCrash),
    InternalError(Empty),
}

impl Clone for State {
    fn clone(&self) -> (r: Self)
        ensures
            r == *self,
    {
        match self {
            State::Pending(e) => State::Pending(*e),
            State::Executing(e) => State::Executing(*e),
            State::Checking(c) => State::Checking(*c),
            State::Correct(c) => State::Correct(*c),
            State::Wrong(w) => State::Wrong(w.clone()),
            State::LimitsExceeded(l) => State::LimitsExceeded(*l),
            State::Crash(c) => State::Crash(*c),
            State::InternalError(e) => State::InternalError(*e),
        }
    }
}

} // verus!
