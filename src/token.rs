use vstd::prelude::*;
use crate::data::{HlcTimestamp, ZFDataMessage, ZFMessage};
use crate::error::{ZFError, ZFResult};

verus! {

/// What the runtime does with a ready token's message once the input rule has run.
#[derive(Debug, Clone, Copy, PartialEq, Eq, Structural)]
pub enum TokenAction {
    /// Handed to run and removed from the pending messages (the default).
    Consume,
    /// Discarded without being handed to run.
    Drop,
    /// Handed to run and kept for a later cycle.
    KeepRun,
    /// Kept for a later cycle, not handed to run.
    Keep,
    /// Waiting for a message; only a not-ready token reports it.
    Wait,
}

} // verus!

verus! {

/// The marker of a port on which nothing has arrived this cycle.
#[derive(Debug, Clone, Copy, Default)]
pub struct NotReadyToken;

/// A port's message for this cycle, with what is to be done with it.
#[derive(Debug)]
pub struct ReadyToken {
    pub data: ZFDataMessage,
    pub action: TokenAction,
}

/// The readiness of one input port for the current cycle.
#[derive(Debug)]
pub enum Token {
    NotReady,
    Ready(ReadyToken),
}

/// The token that a transport message turns into: control traffic never
/// satisfies a data input, a data message is ready and consumed by default.
pub open spec fn token_of(message: ZFMessage) -> Token {
    match message {
        ZFMessage::Control(_) => Token::NotReady,
        ZFMessage::Data(d) => Token::Ready(ReadyToken { data: d, action: TokenAction::Consume }),
    }
}

impl Token {
    /// The token's state with its action replaced, where it is ready.
    pub open spec fn with_action(self, action: TokenAction) -> Token {
        match self {
            Token::NotReady => Token::NotReady,
            Token::Ready(r) => Token::Ready(ReadyToken { data: r.data, action }),
        }
    }

    /// The action a token reports: its own when ready, `Wait` otherwise.
    pub open spec fn spec_action(self) -> TokenAction {
        match self {
            Token::NotReady => TokenAction::Wait,
            Token::Ready(r) => r.action,
        }
    }

    pub fn new_ready(data: ZFDataMessage) -> (r: Token)
        ensures
            r == Token::Ready(ReadyToken { data, action: TokenAction::Consume }),
    {
        Token::Ready(ReadyToken { data, action: TokenAction::Consume })
    }

    pub fn get_timestamp(&self) -> (r: Option<HlcTimestamp>)
        ensures
            match *self {
                Token::NotReady => r is None,
                Token::Ready(t) => r == Some(t.data.timestamp),
            },
    {
        match self {
            Token::NotReady => None,
            Token::Ready(token) => Some(token.data.timestamp),
        }
    }

    pub fn is_ready(&self) -> (r: bool)
        ensures
            r == (*self is Ready),
    {
        matches!(self, Token::Ready(_))
    }

    pub fn is_not_ready(&self) -> (r: bool)
        ensures
            r == (*self is NotReady),
    {
        matches!(self, Token::NotReady)
    }

    /// Sets the action of a ready token; a not-ready token is left as it is
    /// and the call fails.
    fn set_action(&mut self, action: TokenAction) -> (r: ZFResult<()>)
        requires
            action != TokenAction::Wait,
        ensures
            *final(self) == old(self).with_action(action),
            *old(self) is Ready <==> r is Ok,
            *old(self) is NotReady ==> r == Err::<(), ZFError>(ZFError::GenericError),
    {
        match self {
            Token::Ready(ready) => {
                ready.action = action;
                Ok(())
            },
            Token::NotReady => Err(ZFError::GenericError),
        }
    }

    pub fn consume(&mut self) -> (r: ZFResult<()>)
        ensures
            *final(self) == old(self).with_action(TokenAction::Consume),
            *old(self) is Ready <==> r is Ok,
            *old(self) is NotReady ==> r == Err::<(), ZFError>(ZFError::GenericError),
    {
        self.set_action(TokenAction::Consume)
    }

    pub fn drop(&mut self) -> (r: ZFResult<()>)
        ensures
            *final(self) == old(self).with_action(TokenAction::Drop),
            *old(self) is Ready <==> r is Ok,
            *old(self) is NotReady ==> r == Err::<(), ZFError>(ZFError::GenericError),
    {
        self.set_action(TokenAction::Drop)
    }

    pub fn keep_run(&mut self) -> (r: ZFResult<()>)
        ensures
            *final(self) == old(self).with_action(TokenAction::KeepRun),
            *old(self) is Ready <==> r is Ok,
            *old(self) is NotReady ==> r == Err::<(), ZFError>(ZFError::GenericError),
    {
        self.set_action(TokenAction::KeepRun)
    }

    pub fn keep(&mut self) -> (r: ZFResult<()>)
        ensures
            *final(self) == old(self).with_action(TokenAction::Keep),
            *old(self) is Ready <==> r is Ok,
            *old(self) is NotReady ==> r == Err::<(), ZFError>(ZFError::GenericError),
    {
        self.set_action(TokenAction::Keep)
    }

    /// A copy of the message of a ready token.
    pub fn data(&self) -> (r: ZFResult<ZFDataMessage>)
        ensures
            match *self {
                Token::NotReady => r == Err::<ZFDataMessage, ZFError>(ZFError::GenericError),
                Token::Ready(t) => r is Ok && r->Ok_0.data@ == t.data.data@
                    && r->Ok_0.timestamp == t.data.timestamp,
            },
    {
        match self {
            Token::Ready(ready) => Ok(ready.data.duplicate()),
            Token::NotReady => Err(ZFError::GenericError),
        }
    }

    pub fn action(&self) -> (r: TokenAction)
        ensures
            r == self.spec_action(),
    {
        match self {
            Token::Ready(ready) => ready.action,
            Token::NotReady => TokenAction::Wait,
        }
    }

    /// Takes the token apart into its message, if any, and its action.
    pub fn split(self) -> (r: (Option<ZFDataMessage>, TokenAction))
        ensures
            match self {
                Token::NotReady => r == (None::<ZFDataMessage>, TokenAction::Wait),
                Token::Ready(t) => r == (Some(t.data), t.action),
            },
    {
        match self {
            Token::Ready(ready) => (Some(ready.data), ready.action),
            Token::NotReady => (None, TokenAction::Wait),
        }
    }
}

impl From<ZFMessage> for Token {
    fn from(message: ZFMessage) -> (r: Token) {
        match message {
            ZFMessage::Control(_) => Token::NotReady,
            ZFMessage::Data(data_message) => Token::new_ready(data_message),
        }
    }
}

impl vstd::std_specs::convert::FromSpecImpl<ZFMessage> for Token {
    open spec fn obeys_from_spec() -> bool {
        true
    }

    open spec fn from_spec(message: ZFMessage) -> Token {
        token_of(message)
    }
}

/// A token made from a data message is ready with the default action
/// `Consume`; one made from a control message is not ready.
pub proof fn lemma_fresh_token(message: ZFMessage)
    ensures
        message is Data ==> token_of(message) is Ready
            && token_of(message).spec_action() == TokenAction::Consume,
        message is Control ==> token_of(message) is NotReady,
{
}

/// Setting an action on a not-ready token leaves it as it is; on a ready
/// token it changes the action alone and keeps the message.
pub proof fn lemma_set_action(t: Token, action: TokenAction)
    ensures
        t is NotReady ==> t.with_action(action) == t,
        t is Ready ==> t.with_action(action) is Ready
            && t.with_action(action)->Ready_0.data == t->Ready_0.data
            && t.with_action(action).spec_action() == action,
{
}

} // verus!
