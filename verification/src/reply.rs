//! Reply tokens: the fixed identifiers under which the runtime reports that
//! a submessage has completed, and the record of which of them are awaited.

use vstd::prelude::*;

verus! {

/// Reply id of the local setup.
pub const INSTANTIATE_REPLY_ID: u64 = 1;

/// Reply id of a dispatched batch of commands.
pub const JACKAL_MSG_REPLY_ID: u64 = 2;

/// When the runtime calls back after a submessage.
#[derive(Clone, Copy, Debug, PartialEq, Eq, Structural)]
pub enum ReplyOn {
    /// After the submessage, whatever its outcome.
    Always,
    /// Only after a failed submessage.
    Error,
    /// Only after a successful submessage.
    Success,
    /// Never.
    Never,
}

/// Which kind of call a completion belongs to.
#[derive(Clone, Copy, Debug, PartialEq, Eq, Structural)]
pub enum ReplyToken {
    /// The local setup has completed.
    Setup,
    /// A dispatched batch of commands has completed.
    Dispatch,
}

impl ReplyToken {
    /// The reply id that stands for the token.
    pub open spec fn spec_id(self) -> u64 {
        match self {
            ReplyToken::Setup => INSTANTIATE_REPLY_ID,
            ReplyToken::Dispatch => JACKAL_MSG_REPLY_ID,
        }
    }

    /// The token that a reply id stands for, if it stands for one.
    pub open spec fn spec_from_id(id: u64) -> Option<ReplyToken> {
        if id == INSTANTIATE_REPLY_ID {
            Some(ReplyToken::Setup)
        } else if id == JACKAL_MSG_REPLY_ID {
            Some(ReplyToken::Dispatch)
        } else {
            None
        }
    }

    /// Gives the reply id that stands for the token.
    #[verifier::when_used_as_spec(spec_id)]
    pub fn id(self) -> (id: u64)
        ensures
            id == self.spec_id(),
    {
        match self {
            ReplyToken::Setup => INSTANTIATE_REPLY_ID,
            ReplyToken::Dispatch => JACKAL_MSG_REPLY_ID,
        }
    }

    /// Finds the token that a reply id stands for. An id that stands for
    /// none gives `None`.
    #[verifier::when_used_as_spec(spec_from_id)]
    pub fn from_id(id: u64) -> (token: Option<ReplyToken>)
        ensures
            token == ReplyToken::spec_from_id(id),
    {
        if id == INSTANTIATE_REPLY_ID {
            Some(ReplyToken::Setup)
        } else if id == JACKAL_MSG_REPLY_ID {
            Some(ReplyToken::Dispatch)
        } else {
            None
        }
    }
}

/// The two tokens never stand for each other: a token's id leads back to
/// that token, and two tokens with one id are one token.
pub proof fn lemma_tokens_distinct(a: ReplyToken, b: ReplyToken)
    ensures
        ReplyToken::spec_from_id(a.spec_id()) == Some(a),
        a.spec_id() == b.spec_id() ==> a == b,
{
}

/// Which tokens await their completion. A token is awaited by at most one
/// call at a time: a second request under an awaited token is refused until
/// the first has completed.
#[derive(Clone, Copy, Debug, PartialEq, Eq, Structural)]
pub struct ReplyCorrelator {
    /// The setup's completion is awaited.
    pub setup_pending: bool,
    /// A dispatched batch's completion is awaited.
    pub dispatch_pending: bool,
}

impl ReplyCorrelator {
    /// Whether the completion of `token` is awaited.
    pub open spec fn pending(&self, token: ReplyToken) -> bool {
        match token {
            ReplyToken::Setup => self.setup_pending,
            ReplyToken::Dispatch => self.dispatch_pending,
        }
    }

    /// A record in which nothing is awaited.
    pub fn new() -> (fresh: ReplyCorrelator)
        ensures
            forall|token: ReplyToken| !fresh.pending(token),
    {
        ReplyCorrelator { setup_pending: false, dispatch_pending: false }
    }

    /// Tells whether the completion of `token` is awaited.
    pub fn is_pending(&self, token: ReplyToken) -> (awaited: bool)
        ensures
            awaited == self.pending(token),
    {
        match token {
            ReplyToken::Setup => self.setup_pending,
            ReplyToken::Dispatch => self.dispatch_pending,
        }
    }

    /// Asks to await a completion under `token`. The request is accepted,
    /// and the token awaited from then on, when the token was free; it is
    /// refused, and the record left as it was, when the token was awaited.
    pub fn begin(&mut self, token: ReplyToken) -> (accepted: bool)
        ensures
            accepted == !old(self).pending(token),
            final(self).pending(token),
            forall|other: ReplyToken| other != token ==> final(self).pending(other) == old(self).pending(other),
    {
        match token {
            ReplyToken::Setup => {
                let accepted = !self.setup_pending;
                self.setup_pending = true;
                accepted
            },
            ReplyToken::Dispatch => {
                let accepted = !self.dispatch_pending;
                self.dispatch_pending = true;
                accepted
            },
        }
    }

    /// Takes in the completion that the runtime reports under `id`. An id
    /// that stands for an awaited token gives that token and frees it; any
    /// other id gives `None` and changes nothing.
    pub fn complete(&mut self, id: u64) -> (completed: Option<ReplyToken>)
        ensures
            match ReplyToken::spec_from_id(id) {
                Some(token) if old(self).pending(token) => {
                    &&& completed == Some(token)
                    &&& !final(self).pending(token)
                    &&& forall|other: ReplyToken| other != token ==> final(self).pending(other) == old(self).pending(other)
                },
                _ => completed is None && *final(self) == *old(self),
            },
    {
        match ReplyToken::from_id(id) {
            Some(ReplyToken::Setup) => {
                if self.setup_pending {
                    self.setup_pending = false;
                    Some(ReplyToken::Setup)
                } else {
                    None
                }
            },
            Some(ReplyToken::Dispatch) => {
                if self.dispatch_pending {
                    self.dispatch_pending = false;
                    Some(ReplyToken::Dispatch)
                } else {
                    None
                }
            },
            None => None,
        }
    }
}

} // verus!
