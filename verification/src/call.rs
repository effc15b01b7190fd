//! One call to the cloud: what is sent, kept for every attempt.
//!
//! The headers of a call are made once, its key among them, and stay with its request
//! until the call is over. A repetition therefore is the same message to the letter, and
//! the server recognises it by its key.

use crate::cloud::{header_pairs, CloudClient};
use crate::request::{pairs, Request, RequestView};
use crate::retry::{
    handed_back, idempotency_key, is_safe, key_text, law_keys_are_distinct, next_wait, sends,
    wait_after, Attempts, Next, Outcome,
};
use crate::text::opt_text;
use crate::time::Duration;
use vstd::prelude::*;

verus! {

broadcast use vstd::string::group_string_axioms;

/// What tells one call from another: the clock in nanoseconds, a running number and the
/// process.
#[derive(Debug, Clone, Copy, PartialEq, Eq, Structural)]
pub struct Stamp {
    pub nanos: u128,
    pub count: u64,
    pub process: u32,
}

impl Stamp {
    /// The key of the call with this stamp.
    pub open spec fn key(self) -> Seq<char> {
        key_text(self.nanos as nat, self.count as nat, self.process as nat)
    }
}

/// A call under way.
#[derive(Debug)]
pub struct Call {
    pub request: Request,
    /// Names and values of the headers.
    pub headers: Vec<(String, String)>,
    pub attempts: Attempts,
}

/// What one attempt sends: the request with its body, and the headers.
#[verifier::ext_equal]
pub struct Message {
    pub request: RequestView,
    pub headers: Seq<(Seq<char>, Seq<char>)>,
}

impl Call {
    /// What the attempt that is under way sends.
    pub open spec fn message(self) -> Message {
        Message { request: self.request@, headers: pairs(self.headers@) }
    }

    /// The call after a decision.
    pub open spec fn after(self, wait: Option<nat>) -> Call {
        Call { attempts: self.attempts.after(wait), ..self }
    }

    /// Decides what follows an answer. The message stays what it is.
    pub fn on_answer(&mut self, status: u16, requested: Option<Duration>, jitter: u64) -> (r: Next)
        ensures
            next_wait(r) == old(self).attempts.wait_after_answer(status, requested, jitter),
            *final(self) == old(self).after(next_wait(r)),
    {
        self.attempts.on_answer(status, requested, jitter)
    }

    /// Decides what follows a failure to get any answer. The message stays what it is.
    pub fn on_failure(&mut self, jitter: u64) -> (r: Next)
        ensures
            next_wait(r) == old(self).attempts.wait_after_failure(jitter),
            *final(self) == old(self).after(next_wait(r)),
    {
        self.attempts.on_failure(jitter)
    }
}

/// Whether a call is the one that a client begins with a request.
pub open spec fn is_begun(
    call: Call,
    client: CloudClient,
    request: Request,
    client_id: Seq<char>,
    device_token: Option<Seq<char>>,
    stamp: Stamp,
) -> bool {
    &&& call.request == request
    &&& pairs(call.headers@) == header_pairs(
        client,
        request.method,
        request.body is Some,
        client_id,
        device_token,
        stamp.key(),
    )
    &&& call.attempts == Attempts::starting(client.retry, request.method, true)
}

impl CloudClient {
    /// Begins a call: its headers are made, with the key that its stamp gives.
    pub fn begin(
        &self,
        request: Request,
        client_id: &str,
        device_token: Option<&str>,
        stamp: Stamp,
    ) -> (r: Call)
        ensures
            is_begun(r, *self, request, client_id@, opt_text(device_token), stamp),
    {
        let key: String = idempotency_key(stamp.nanos, stamp.count, stamp.process);
        let headers: Vec<(String, String)> = self.headers(
            request.method,
            request.body.is_some(),
            client_id,
            device_token,
            key.as_str(),
        );
        let attempts: Attempts = Attempts::start(self.retry, request.method, true);
        Call { request, headers, attempts }
    }
}

/// What is sent over a call, attempt by attempt, when its attempts come out as given.
pub open spec fn sent(call: Call, outcomes: Seq<Outcome>) -> Seq<Message>
    decreases outcomes.len(),
{
    if outcomes.len() == 0 {
        seq![call.message()]
    } else {
        match wait_after(call.attempts, outcomes[0]) {
            Some(w) => seq![call.message()] + sent(call.after(Some(w)), outcomes.drop_first()),
            None => seq![call.message()],
        }
    }
}

proof fn lemma_sent(call: Call, outcomes: Seq<Outcome>)
    ensures
        sent(call, outcomes).len() == sends(call.attempts, outcomes),
        forall|i: int|
            0 <= i < sent(call, outcomes).len() ==> #[trigger] sent(call, outcomes)[i]
                == call.message(),
    decreases outcomes.len(),
{
    if outcomes.len() > 0 {
        if let Some(w) = wait_after(call.attempts, outcomes[0]) {
            let later = sent(call.after(Some(w)), outcomes.drop_first());
            lemma_sent(call.after(Some(w)), outcomes.drop_first());
            assert forall|i: int| 0 <= i < sent(call, outcomes).len() implies #[trigger] sent(
                call,
                outcomes,
            )[i] == call.message() by {
                if i > 0 {
                    assert(sent(call, outcomes)[i] == later[i - 1]);
                }
            }
        }
    }
}

/// The name of the header that carries a call's key.
pub open spec fn key_header() -> Seq<char> {
    "Idempotency-Key"@
}

/// One call to the cloud with an unsafe method is one message, whatever comes back: every
/// attempt carries the same body and the same key, which is not empty; there are at most
/// as many attempts as the policy has, and at least one; and what is handed back came of
/// the last of them.
pub proof fn law_one_key_and_body_per_call(
    call: Call,
    client: CloudClient,
    request: Request,
    client_id: Seq<char>,
    device_token: Option<Seq<char>>,
    stamp: Stamp,
    outcomes: Seq<Outcome>,
)
    requires
        is_begun(call, client, request, client_id, device_token, stamp),
        !is_safe(request.method),
    ensures
        ({
            let messages = sent(call, outcomes);
            let most = if client.retry.max_attempts >= 1 {
                client.retry.max_attempts as nat
            } else {
                1
            };
            &&& 1 <= messages.len() <= most
            &&& forall|i: int|
                0 <= i < messages.len() ==> {
                    &&& (#[trigger] messages[i]).request == request@
                    &&& messages[i].headers == pairs(call.headers@)
                }
            &&& stamp.key().len() > 0
            &&& pairs(call.headers@).contains((key_header(), stamp.key()))
            &&& forall|j: int|
                0 <= j < pairs(call.headers@).len() && (#[trigger] pairs(call.headers@)[j]).0
                    == key_header() ==> pairs(call.headers@)[j].1 == stamp.key()
            &&& handed_back(call.attempts, outcomes) matches Some(o) ==> messages.len()
                <= outcomes.len() && o == outcomes[messages.len() - 1]
        }),
{
    lemma_sent(call, outcomes);
    crate::retry::law_attempts_are_bounded(call.attempts, outcomes);
    crate::retry::law_the_last_attempt_counts(call.attempts, outcomes);
    crate::cloud::law_unsafe_calls_carry_their_key(
        client,
        request.method,
        request.body is Some,
        client_id,
        device_token,
        stamp.key(),
    );
    crate::cloud::lemma_one_key_header(
        client,
        request.method,
        request.body is Some,
        client_id,
        device_token,
        stamp.key(),
    );
    reveal_strlit("writ-");
}

/// Calls are told apart: two calls with different stamps have different keys.
pub proof fn law_separate_calls_have_separate_keys(a: Stamp, b: Stamp)
    requires
        a != b,
    ensures
        a.key() != b.key(),
{
    if a.key() == b.key() {
        law_keys_are_distinct(
            a.nanos as nat,
            a.count as nat,
            a.process as nat,
            b.nanos as nat,
            b.count as nat,
            b.process as nat,
        );
    }
}

} // verus!
