use crate::app::cycle::ErrorRefreshRequest;
use crate::model::{contains_string, string_views};
use vstd::prelude::*;

verus! {

/// A cloud sync that answers with a prepared result and keeps every request it
/// is handed, for running a device cycle away from the device; without a
/// prepared result it fails with "unexpected sync". Both device cycles use it,
/// each with its own request and result types.
pub struct ScriptedSync<Q, A, E> {
    pub result: Option<Result<A, E>>,
    pub requests: Vec<Q>,
    pub replies: Ghost<Seq<Result<A, E>>>,
}

impl<Q, A, E: From<&'static str>> ScriptedSync<Q, A, E> {
    /// A sync that answers its first request with `result`.
    pub fn answering(result: Result<A, E>) -> (sync: Self)
        ensures
            sync.result == Some(result),
            sync.requests@.len() == 0,
            sync.replies@.len() == 0,
    {
        ScriptedSync { result: Some(result), requests: Vec::new(), replies: Ghost(Seq::empty()) }
    }

    /// Keeps `request` and hands out the prepared answer, once.
    pub fn answer(&mut self, request: Q) -> (result: Result<A, E>)
        ensures
            final(self).requests@ == old(self).requests@.push(request),
            final(self).replies@ == old(self).replies@.push(result),
            final(self).result is None,
            old(self).result is Some ==> result == old(self).result->Some_0,
    {
        self.requests.push(request);
        let answer = match self.result.take() {
            Some(result) => result,
            None => Err(E::from("unexpected sync")),
        };
        self.replies = Ghost(self.replies@.push(answer));
        answer
    }
}

impl<Q, A, E> Default for ScriptedSync<Q, A, E> {
    fn default() -> (sync: Self)
        ensures
            sync.result is None,
            sync.requests@.len() == 0,
            sync.replies@.len() == 0,
    {
        ScriptedSync { result: None, requests: Vec::new(), replies: Ghost(Seq::empty()) }
    }
}

/// A display that keeps every request, holds the photos named in `images`,
/// and answers with a prepared result once (success otherwise), for running a
/// device cycle away from the device. Both device cycles use it, each with its
/// own photo request type.
pub struct ScriptedDisplay<Q, E> {
    pub images: Vec<String>,
    pub result: Option<Result<(), E>>,
    pub requests: Vec<Q>,
    pub error_requests: Vec<ErrorRefreshRequest>,
    pub answers: Ghost<Seq<Result<(), E>>>,
}

impl<Q, E> ScriptedDisplay<Q, E> {
    /// The prepared answer if there is one, success otherwise; the prepared
    /// answer is given once.
    fn next_answer(&mut self) -> (answer: Result<(), E>)
        ensures
            final(self).result is None,
            answer == (match old(self).result {
                Some(result) => result,
                None => Ok(()),
            }),
            final(self).images@ == old(self).images@,
            final(self).requests@ == old(self).requests@,
            final(self).error_requests@ == old(self).error_requests@,
            final(self).answers@ == old(self).answers@,
    {
        match self.result.take() {
            Some(result) => result,
            None => Ok(()),
        }
    }

    /// Keeps the photo request and answers it.
    pub fn answer_photo(&mut self, request: Q) -> (result: Result<(), E>)
        ensures
            final(self).requests@ == old(self).requests@.push(request),
            final(self).error_requests@ == old(self).error_requests@,
            final(self).answers@ == old(self).answers@.push(result),
            final(self).images@ == old(self).images@,
            final(self).result is None,
            result == (match old(self).result {
                Some(result) => result,
                None => Ok(()),
            }),
    {
        self.requests.push(request);
        let answer = self.next_answer();
        self.answers = Ghost(self.answers@.push(answer));
        answer
    }

    /// Keeps the error page request and answers it.
    pub fn answer_page(&mut self, request: ErrorRefreshRequest) -> (result: Result<(), E>)
        ensures
            final(self).error_requests@ == old(self).error_requests@.push(request),
            final(self).requests@ == old(self).requests@,
            final(self).answers@ == old(self).answers@.push(result),
            final(self).images@ == old(self).images@,
            final(self).result is None,
            result == (match old(self).result {
                Some(result) => result,
                None => Ok(()),
            }),
    {
        self.error_requests.push(request);
        let answer = self.next_answer();
        self.answers = Ghost(self.answers@.push(answer));
        answer
    }

    /// Whether `sha256` is one of the photos the display holds.
    pub fn holds(&self, sha256: &str) -> (found: bool)
        ensures
            found == string_views(self.images@).contains(sha256@),
    {
        contains_string(&self.images, sha256)
    }
}

impl<Q, E> Default for ScriptedDisplay<Q, E> {
    fn default() -> (display: Self)
        ensures
            display.images@.len() == 0,
            display.result is None,
            display.requests@.len() == 0,
            display.error_requests@.len() == 0,
            display.answers@.len() == 0,
    {
        ScriptedDisplay {
            images: Vec::new(),
            result: None,
            requests: Vec::new(),
            error_requests: Vec::new(),
            answers: Ghost(Seq::empty()),
        }
    }
}

} // verus!
