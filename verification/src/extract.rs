//! What a message handler answers: how the message it saw goes on.
use vstd::prelude::*;

use crate::text::chars_of;

verus! {

/// What becomes of a message after a handler saw it.
#[derive(Debug)]
pub enum Response<Message> {
    /// The message goes on as it is.
    Continue,
    /// The message is replaced by another on its way.
    Replace(Message),
    /// The message is replaced by several on its way.
    ReplaceMultiple(Vec<Message>),
    /// The message is dropped.
    Swallow,
    /// The message is dropped and no further handler runs.
    Stop,
    /// The message is dropped and its sender is removed.
    Kick,
}

impl<Message> Default for Response<Message> {
    fn default() -> (r: Response<Message>)
        ensures
            r == Response::<Message>::Continue,
    {
        Response::Continue
    }
}

/// Whether `r` is the answer `expected`.
pub open spec fn is_response<Message>(r: Response<Message>, expected: Response<Message>) -> bool {
    r == expected
}

/// A value a handler may answer with.
pub trait IntoResponse<R>: Sized {
    /// The answer this value stands for.
    fn into_response(self) -> R;
}

impl<Message> IntoResponse<Response<Message>> for () {
    /// Nothing to say: the message goes on.
    fn into_response(self) -> (r: Response<Message>)
        ensures
            is_response::<Message>(r, Response::Continue),
    {
        Response::Continue
    }
}

/// The answer a flag stands for: `true` stops the handling, `false` lets the message
/// go on.
pub fn response_of_flag<Message>(stop: bool) -> (r: Response<Message>)
    ensures
        stop ==> r == Response::<Message>::Stop,
        !stop ==> r == Response::<Message>::Continue,
{
    if stop {
        Response::Stop
    } else {
        Response::Continue
    }
}

impl<Message> IntoResponse<Response<Message>> for bool {
    /// `true` stops the handling, `false` lets the message go on.
    fn into_response(self) -> (r: Response<Message>)
        ensures
            self ==> is_response::<Message>(r, Response::Stop),
            !self ==> is_response::<Message>(r, Response::Continue),
    {
        response_of_flag(self)
    }
}

impl<Message> IntoResponse<Response<Message>> for Option<Message> {
    /// A message replaces the one seen; none lets it go on.
    fn into_response(self) -> (r: Response<Message>)
        ensures
            self matches Some(m) ==> r == Response::Replace(m),
            self is None ==> r == Response::<Message>::Continue,
    {
        match self {
            Some(message) => Response::Replace(message),
            None => Response::Continue,
        }
    }
}

impl<Message> IntoResponse<Response<Message>> for Vec<Message> {
    /// Messages replace the one seen.
    fn into_response(self) -> (r: Response<Message>)
        ensures
            r == Response::ReplaceMultiple(self),
    {
        Response::ReplaceMultiple(self)
    }
}

/// The word `s` spells `w`.
fn is_word(s: &str, w: &str) -> (r: bool)
    ensures
        r == (s@ == w@),
{
    let a = chars_of(s);
    let b = chars_of(w);
    if a.len() != b.len() {
        return false;
    }
    let mut i: usize = 0;
    while i < a.len()
        invariant
            i <= a@.len(),
            a@.len() == b@.len(),
            a@ == s@,
            b@ == w@,
            forall|k: int| 0 <= k < i ==> a@[k] == b@[k],
        decreases a@.len() - i,
    {
        if a[i] != b[i] {
            return false;
        }
        i = i + 1;
    }
    assert(a@ =~= b@);
    true
}

/// The answer a word names: `continue`, `stop`, `kick`, `cancel` or `_cancel` (which
/// drops the message); any other word lets the message go on.
pub open spec fn response_word<Message>(s: Seq<char>) -> Response<Message> {
    if s == "stop"@ {
        Response::Stop
    } else if s == "kick"@ {
        Response::Kick
    } else if s == "cancel"@ || s == "_cancel"@ {
        Response::Swallow
    } else {
        Response::Continue
    }
}

/// The answer a word names.
pub fn response_of_word<Message>(word: &str) -> (r: Response<Message>)
    ensures
        r == response_word::<Message>(word@),
{
    proof {
        reveal_strlit("continue");
        reveal_strlit("stop");
        reveal_strlit("kick");
        reveal_strlit("cancel");
        reveal_strlit("_cancel");
        assert("continue"@.len() == 8 && "stop"@.len() == 4 && "kick"@.len() == 4);
        assert("cancel"@.len() == 6 && "_cancel"@.len() == 7);
        assert("stop"@ != "kick"@) by {
            assert("stop"@[0] != "kick"@[0]);
        }
    }
    if is_word(word, "continue") {
        Response::Continue
    } else if is_word(word, "stop") {
        Response::Stop
    } else if is_word(word, "kick") {
        Response::Kick
    } else if is_word(word, "cancel") || is_word(word, "_cancel") {
        Response::Swallow
    } else {
        Response::Continue
    }
}

impl<'a, Message> IntoResponse<Response<Message>> for &'a str {
    /// The answer the word names (see `response_word`).
    fn into_response(self) -> (r: Response<Message>)
        ensures
            is_response::<Message>(r, response_word::<Message>(self@)),
    {
        response_of_word(self)
    }
}

} // verus!
