//! The plugin's reply handlers: what the runtime gets back when a
//! submessage has completed. Each token has a handler of its own, and each
//! handler names its response after its own completion.

use vstd::prelude::*;
use crate::reply::ReplyToken;
use crate::response::{response, Response};

verus! {

/// Action of the response to the completion of the local setup.
pub const INSTANTIATE_REPLY_ACTION: &'static str = "instantiate_reply";

/// Action of the response to the completion of a dispatched batch.
pub const JACKAL_REPLY_ACTION: &'static str = "jackal_reply";

/// The action that names the completion reported under `token`.
pub open spec fn reply_action(token: ReplyToken) -> Seq<char> {
    match token {
        ReplyToken::Setup => INSTANTIATE_REPLY_ACTION@,
        ReplyToken::Dispatch => JACKAL_REPLY_ACTION@,
    }
}

/// What answers the completion reported under `token`: a response named
/// after that completion, which shows nothing else and runs nothing.
pub open spec fn answers(token: ReplyToken, answer: Response) -> bool {
    &&& answer.action@ == reply_action(token)
    &&& answer.attributes@.len() == 0
    &&& answer.messages@.len() == 0
}

/// Answers the completion of the local setup. The completion's payload is
/// not looked at.
pub fn instantiate_reply() -> (answer: Response)
    ensures
        answers(ReplyToken::Setup, answer),
        answer.action@ == INSTANTIATE_REPLY_ACTION@,
{
    response(INSTANTIATE_REPLY_ACTION)
}

/// Answers the completion of a dispatched batch. The completion's payload
/// is not looked at.
pub fn jackal_reply() -> (answer: Response)
    ensures
        answers(ReplyToken::Dispatch, answer),
        answer.action@ == JACKAL_REPLY_ACTION@,
{
    response(JACKAL_REPLY_ACTION)
}

/// Hands a completion reported under `id` to the handler of its token: the
/// setup's id is answered by the setup's handler, the id of dispatched
/// batches by theirs. An id that stands for no token has no handler and
/// gets no answer.
pub fn reply(id: u64) -> (answer: Option<Response>)
    ensures
        match ReplyToken::spec_from_id(id) {
            Some(token) => answer matches Some(given) && answers(token, given),
            None => answer is None,
        },
{
    match ReplyToken::from_id(id) {
        Some(ReplyToken::Setup) => Some(instantiate_reply()),
        Some(ReplyToken::Dispatch) => Some(jackal_reply()),
        None => None,
    }
}

/// The two completions are never taken for each other: their actions
/// differ, so a response that answers one token answers no other.
pub proof fn lemma_reply_actions_differ(first: ReplyToken, second: ReplyToken, answer: Response)
    ensures
        INSTANTIATE_REPLY_ACTION@ != JACKAL_REPLY_ACTION@,
        reply_action(first) == reply_action(second) <==> first == second,
        answers(first, answer) && answers(second, answer) ==> first == second,
{
    reveal_strlit("instantiate_reply");
    reveal_strlit("jackal_reply");
    assert(INSTANTIATE_REPLY_ACTION@.len() != JACKAL_REPLY_ACTION@.len());
}

} // verus!
