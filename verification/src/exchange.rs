//! The exchanges of several steps: request and reply, survey and response.
//!
//! Each exchange is a chain of calls, and each step is a function that
//! takes what the engine answered to the call before. The caller makes the
//! calls; nothing here waits, and nothing adds a lock: two exchanges on one
//! socket are kept apart by the caller or by the engine.

use vstd::prelude::*;
use vstd::std_specs::convert::FromSpec;
use crate::buffer::MessageBuffer;
use crate::error::{Error, NNG_ETIMEDOUT};
use crate::options::{
    can_ask, reads, sets, write_option, OptionReading, NNG_OPT_SUB_SUBSCRIBE, NNG_OPT_SUB_UNSUBSCRIBE,
    NNG_OPT_SURVEYOR_SURVEYTIME,
};
use crate::protocol::{SPRecv, SPSend};
use crate::protocols::{Protocol, Rep, Req, Respondent, Sub, Surveyor};
use crate::transport::{Call, Level, OptionName, Target};

verus! {

/// The bytes of what was received, or the error.
pub open spec fn payload_of(received: Result<MessageBuffer, Error>) -> Result<Seq<u8>, Error> {
    match received {
        Ok(buffer) => Ok(buffer@),
        Err(e) => Err(e),
    }
}

/// The bytes of each of `buffers`.
pub open spec fn payloads(buffers: Seq<MessageBuffer>) -> Seq<Seq<u8>> {
    buffers.map_values(|buffer: MessageBuffer| buffer@)
}

/// The bytes or the error of each of `receipts`.
pub open spec fn receipts_of(receipts: Seq<Result<MessageBuffer, Error>>) -> Seq<
    Result<Seq<u8>, Error>,
> {
    receipts.map_values(|received: Result<MessageBuffer, Error>| payload_of(received))
}

/// Each of `responses` as a receipt that succeeded.
pub open spec fn arrivals(responses: Seq<Seq<u8>>) -> Seq<Result<Seq<u8>, Error>> {
    responses.map_values(|response: Seq<u8>| Ok::<Seq<u8>, Error>(response))
}

/// Whether the error is the engine's timeout.
pub open spec fn is_timeout(e: Error) -> bool {
    e == Error::Nng(NNG_ETIMEDOUT)
}

/// What a request gives, from what the engine answered to the send and to
/// the receive: a send that failed fails the request, and nothing is
/// received; else the request gives what the receive gave.
pub open spec fn request_outcome(sent: Result<usize, Error>, received: Result<Seq<u8>, Error>) -> Result<
    Seq<u8>,
    Error,
> {
    match sent {
        Err(e) => Err(e),
        Ok(_) => received,
    }
}

/// Where a survey stands.
pub enum Collection {
    /// The survey is running; these are the responses so far.
    Open(Seq<Seq<u8>>),
    /// The survey is over, with all its responses or with an error.
    Closed(Result<Seq<Seq<u8>>, Error>),
}

/// Where a survey that holds `responses` stands after `receipts`. Every
/// response is added at the end. The first receipt that failed closes the
/// survey: a timeout is the deadline and gives the responses, any other
/// error gives that error and no responses. What comes after is not looked
/// at.
pub open spec fn collect_from(
    responses: Seq<Seq<u8>>,
    receipts: Seq<Result<Seq<u8>, Error>>,
) -> Collection
    decreases receipts.len(),
{
    if receipts.len() == 0 {
        Collection::Open(responses)
    } else {
        match receipts[0] {
            Ok(response) => collect_from(responses.push(response), receipts.drop_first()),
            Err(e) => if is_timeout(e) {
                Collection::Closed(Ok(responses))
            } else {
                Collection::Closed(Err(e))
            },
        }
    }
}

/// What a survey gives, from what the engine answered to the send and to
/// the receives after it. A send that failed fails the survey.
pub open spec fn survey_outcome(
    sent: Result<usize, Error>,
    receipts: Seq<Result<Seq<u8>, Error>>,
) -> Collection {
    match sent {
        Err(e) => Collection::Closed(Err(e)),
        Ok(_) => collect_from(Seq::<Seq<u8>>::empty(), receipts),
    }
}

/// A survey that has been sent and collects its responses.
#[derive(Debug)]
pub struct Survey {
    socket: u32,
    responses: Vec<MessageBuffer>,
}

/// What a receipt makes of a survey.
#[derive(Debug)]
pub enum Collected {
    /// The survey goes on: receive again.
    More(Survey),
    /// The survey is over.
    Done(Result<Vec<MessageBuffer>, Error>),
}

impl View for Collected {
    type V = Collection;

    open spec fn view(&self) -> Collection {
        match *self {
            Collected::More(survey) => Collection::Open(survey.spec_responses()),
            Collected::Done(Ok(responses)) => Collection::Closed(Ok(payloads(responses@))),
            Collected::Done(Err(e)) => Collection::Closed(Err(e)),
        }
    }
}

impl Collected {
    /// The socket of the survey, while it goes on.
    pub open spec fn spec_socket(&self) -> Option<u32> {
        match *self {
            Collected::More(survey) => Some(survey.spec_socket()),
            Collected::Done(_) => None,
        }
    }
}

/// One receipt decides as the first of many does.
pub proof fn collect_from_unfolds(
    responses: Seq<Seq<u8>>,
    first: Result<Seq<u8>, Error>,
    rest: Seq<Result<Seq<u8>, Error>>,
)
    ensures
        collect_from(responses, seq![first] + rest) == (match collect_from(responses, seq![first]) {
            Collection::Open(more) => collect_from(more, rest),
            Collection::Closed(result) => Collection::Closed(result),
        }),
        collect_from(responses, seq![first]) == (match first {
            Ok(response) => Collection::Open(responses.push(response)),
            Err(e) => if is_timeout(e) {
                Collection::Closed(Ok(responses))
            } else {
                Collection::Closed(Err(e))
            },
        }),
{
    let all = seq![first] + rest;
    assert(all[0] == first);
    assert(all.drop_first() =~= rest);
    let one = seq![first];
    assert(one[0] == first);
    assert(one.drop_first() =~= Seq::<Result<Seq<u8>, Error>>::empty());
    match first {
        Ok(response) => {
            assert(collect_from(responses.push(response), one.drop_first()) == Collection::Open(
                responses.push(response),
            ));
        },
        Err(_) => {},
    }
}

impl Survey {
    /// The socket that the survey went out on.
    pub closed spec fn spec_socket(&self) -> u32 {
        self.socket
    }

    /// The responses so far, in the order in which they came.
    pub closed spec fn spec_responses(&self) -> Seq<Seq<u8>> {
        payloads(self.responses@)
    }

    /// The call that waits for the next response.
    pub fn receive(&self) -> (call: Call<'static>)
        ensures
            call == (Call::Receive { socket: self.spec_socket(), flags: 0 }),
    {
        Call::Receive { socket: self.socket, flags: 0 }
    }

    /// The number of responses so far.
    pub fn len(&self) -> (n: usize)
        ensures
            n == self.spec_responses().len(),
    {
        self.responses.len()
    }

    /// Takes what the engine answered to `receive`. A response is added
    /// and the survey goes on. A timeout is the deadline: the survey is
    /// over and gives its responses. Any other error ends the survey with
    /// that error.
    pub fn collect(self, received: Result<MessageBuffer, Error>) -> (c: Collected)
        ensures
            c@ == (match received {
                Ok(response) => Collection::Open(self.spec_responses().push(response@)),
                Err(e) => if is_timeout(e) {
                    Collection::Closed(Ok(self.spec_responses()))
                } else {
                    Collection::Closed(Err(e))
                },
            }),
            c@ == collect_from(self.spec_responses(), seq![payload_of(received)]),
            c is More ==> c.spec_socket() == Some(self.spec_socket()),
    {
        proof {
            collect_from_unfolds(
                self.spec_responses(),
                payload_of(received),
                Seq::<Result<Seq<u8>, Error>>::empty(),
            );
        }
        let mut survey = self;
        match received {
            Ok(response) => {
                let ghost before = survey.responses@;
                survey.responses.push(response);
                assert(payloads(survey.responses@) =~= payloads(before).push(response@));
                Collected::More(survey)
            },
            Err(e) => {
                if timed_out(&e) {
                    Collected::Done(Ok(survey.responses))
                } else {
                    Collected::Done(Err(e))
                }
            },
        }
    }

    /// Takes what the engine answered to a run of receives, one after the
    /// other, and stops at the first that ends the survey.
    pub fn collect_all(self, receipts: Vec<Result<MessageBuffer, Error>>) -> (c: Collected)
        ensures
            c@ == collect_from(self.spec_responses(), receipts_of(receipts@)),
            c is More ==> c.spec_socket() == Some(self.spec_socket()),
    {
        let ghost goal = collect_from(self.spec_responses(), receipts_of(receipts@));
        let ghost socket = self.spec_socket();
        let mut survey = self;
        let mut rest = receipts;
        while rest.len() > 0
            invariant
                goal == collect_from(self.spec_responses(), receipts_of(receipts@)),
                collect_from(survey.spec_responses(), receipts_of(rest@)) == goal,
                survey.spec_socket() == socket,
            decreases rest.len(),
        {
            let ghost before = rest@;
            let ghost held = survey.spec_responses();
            let received = rest.remove(0);
            proof {
                assert(receipts_of(before) =~= seq![payload_of(received)] + receipts_of(rest@));
                collect_from_unfolds(held, payload_of(received), receipts_of(rest@));
            }
            match survey.collect(received) {
                Collected::More(next) => {
                    survey = next;
                },
                Collected::Done(result) => {
                    return Collected::Done(result);
                },
            }
        }
        assert(receipts_of(rest@) =~= Seq::<Result<Seq<u8>, Error>>::empty());
        Collected::More(survey)
    }
}

/// Whether the error is the engine's timeout.
fn timed_out(e: &Error) -> (b: bool)
    ensures
        b == is_timeout(*e),
{
    match e {
        Error::Nng(code) => *code == NNG_ETIMEDOUT,
        _ => false,
    }
}

impl Surveyor {
    /// The call that sends `message` out as a survey. Its answer goes to
    /// `survey_sent`.
    pub fn survey(&self, message: MessageBuffer) -> (call: Call<'static>)
        ensures
            call == (Call::Send { socket: self.spec_socket().spec_raw(), buffer: message, flags: 0 }),
    {
        self.send(message)
    }

    /// Takes what the engine answered to the send. A survey that went out
    /// starts to collect, with no responses yet; one that did not fails
    /// with the error of the send.
    pub fn survey_sent(&self, sent: Result<usize, Error>) -> (r: Result<Survey, Error>)
        ensures
            match sent {
                Ok(_) => r matches Ok(survey) && survey.spec_socket() == self.spec_socket().spec_raw()
                    && survey.spec_responses() == Seq::<Seq<u8>>::empty(),
                Err(e) => r matches Err(x) && x == e,
            },
    {
        match sent {
            Ok(_) => {
                let survey = Survey { socket: self.socket().as_raw(), responses: Vec::new() };
                assert(payloads(survey.responses@) =~= Seq::<Seq<u8>>::empty());
                Ok(survey)
            },
            Err(e) => Err(e),
        }
    }

    /// The call that sets the deadline of the surveys that follow, in
    /// milliseconds. Responses that come later are dropped by the engine.
    pub fn set_survey_deadline(&self, deadline: i32) -> (call: Call<'static>)
        ensures
            sets(
                call,
                Target::Socket(self.spec_socket().spec_raw()),
                (OptionName { level: Level::Protocol, key: NNG_OPT_SURVEYOR_SURVEYTIME }),
                crate::options::SetOption::spec_encode(&deadline),
            ),
    {
        write_option(
            Target::Socket(self.socket().as_raw()),
            OptionName { level: Level::Protocol, key: NNG_OPT_SURVEYOR_SURVEYTIME },
            &deadline,
        )
    }

    /// Reads the deadline of a survey, in milliseconds.
    pub fn get_survey_deadline<E: Fn(Call<'static>) -> Result<OptionReading, Error>>(
        &self,
        engine: E,
    ) -> (r: Result<i32, Error>)
        requires
            can_ask(
                engine,
                Target::Socket(self.spec_socket().spec_raw()),
                (OptionName { level: Level::Protocol, key: NNG_OPT_SURVEYOR_SURVEYTIME }),
            ),
        ensures
            reads(
                engine,
                Target::Socket(self.spec_socket().spec_raw()),
                (OptionName { level: Level::Protocol, key: NNG_OPT_SURVEYOR_SURVEYTIME }),
                r,
            ),
    {
        self.socket().get_option(
            OptionName { level: Level::Protocol, key: NNG_OPT_SURVEYOR_SURVEYTIME },
            engine,
        )
    }
}

impl Sub {
    /// The call that subscribes to `topic`: from then on the messages that
    /// begin with it are received.
    pub fn subscribe(&self, topic: &[u8]) -> (call: Call<'static>)
        ensures
            sets(
                call,
                Target::Socket(self.spec_socket().spec_raw()),
                (OptionName { level: Level::Protocol, key: NNG_OPT_SUB_SUBSCRIBE }),
                topic@,
            ),
    {
        let value: Vec<u8> = vstd::slice::slice_to_vec(topic);
        Call::SetOption {
            target: Target::Socket(self.socket().as_raw()),
            name: OptionName { level: Level::Protocol, key: NNG_OPT_SUB_SUBSCRIBE },
            value,
        }
    }

    /// The call that gives up the subscription to `topic`.
    pub fn unsubscribe(&self, topic: &[u8]) -> (call: Call<'static>)
        ensures
            sets(
                call,
                Target::Socket(self.spec_socket().spec_raw()),
                (OptionName { level: Level::Protocol, key: NNG_OPT_SUB_UNSUBSCRIBE }),
                topic@,
            ),
    {
        let value: Vec<u8> = vstd::slice::slice_to_vec(topic);
        Call::SetOption {
            target: Target::Socket(self.socket().as_raw()),
            name: OptionName { level: Level::Protocol, key: NNG_OPT_SUB_UNSUBSCRIBE },
            value,
        }
    }
}

impl Req {
    /// The call that sends `body` as a request. Its answer goes to
    /// `request_sent`.
    pub fn request(&self, body: MessageBuffer) -> (call: Call<'static>)
        ensures
            call == (Call::Send { socket: self.spec_socket().spec_raw(), buffer: body, flags: 0 }),
    {
        self.send(body)
    }

    /// Takes what the engine answered to the send: the call that waits for
    /// the reply where the request went out, the error of the send where it
    /// did not. The answer to that call goes to `request_received`.
    pub fn request_sent(&self, sent: Result<usize, Error>) -> (r: Result<Call<'static>, Error>)
        ensures
            r == (match sent {
                Ok(_) => Ok::<Call<'static>, Error>(
                    (Call::Receive { socket: self.spec_socket().spec_raw(), flags: 0 }),
                ),
                Err(e) => Err::<Call<'static>, Error>(e),
            }),
    {
        match sent {
            Ok(_) => Ok(self.recv()),
            Err(e) => Err(e),
        }
    }

    /// Takes what the engine answered to the receive. That is the reply:
    /// nothing is taken from it and nothing is added.
    pub fn request_received(&self, received: Result<MessageBuffer, Error>) -> (r: Result<
        MessageBuffer,
        Error,
    >)
        ensures
            r == received,
            payload_of(r) == request_outcome(Ok::<usize, Error>(0), payload_of(received)),
    {
        received
    }
}

/// Whether `r` is what answering a request gives. A receive that failed
/// fails with its error, converted. A handler that gave a response leads
/// to the call that sends exactly that response, on `socket` and waiting. A
/// handler that failed fails with its own error, and nothing is sent.
pub open spec fn handled<F: FnOnce(MessageBuffer) -> Result<MessageBuffer, E>, E: From<Error>>(
    socket: u32,
    received: Result<MessageBuffer, Error>,
    handler: F,
    r: Result<Call<'static>, E>,
) -> bool {
    match received {
        Err(e) => r matches Err(x) && (E::obeys_from_spec() ==> x == E::from_spec(e)),
        Ok(request) => match r {
            Ok(call) => call matches Call::Send { socket: s, buffer, flags } && s == socket && flags
                == 0 && call_ensures(handler, (request,), Ok::<MessageBuffer, E>(buffer)),
            Err(x) => call_ensures(handler, (request,), Err::<MessageBuffer, E>(x)),
        },
    }
}

/// Whether `r` is what the answer to the send of a response gives: success
/// where it went out, its error, converted, where it did not.
pub open spec fn finished<E: From<Error>>(sent: Result<usize, Error>, r: Result<(), E>) -> bool {
    match sent {
        Ok(_) => r is Ok,
        Err(e) => r matches Err(x) && (E::obeys_from_spec() ==> x == E::from_spec(e)),
    }
}

/// Answers a request with `handler`.
fn answer_with<F: FnOnce(MessageBuffer) -> Result<MessageBuffer, E>, E: From<Error>>(
    socket: u32,
    received: Result<MessageBuffer, Error>,
    handler: F,
) -> (r: Result<Call<'static>, E>)
    requires
        forall|request: MessageBuffer| call_requires(handler, (request,)),
    ensures
        handled(socket, received, handler, r),
{
    match received {
        Err(e) => Err(E::from(e)),
        Ok(request) => match handler(request) {
            Ok(response) => Ok(Call::Send { socket, buffer: response, flags: 0 }),
            Err(x) => Err(x),
        },
    }
}

/// Decides what the send of a response gave.
fn finish<E: From<Error>>(sent: Result<usize, Error>) -> (r: Result<(), E>)
    ensures
        finished(sent, r),
{
    match sent {
        Ok(_) => Ok(()),
        Err(e) => Err(E::from(e)),
    }
}

impl Rep {
    /// The call that waits for a request. Its answer goes to
    /// `reply_received`.
    pub fn reply(&self) -> (call: Call<'static>)
        ensures
            call == (Call::Receive { socket: self.spec_socket().spec_raw(), flags: 0 }),
    {
        self.recv()
    }

    /// Takes what the engine answered to the receive and prepares the
    /// response with `handler`. The result is the call that sends the
    /// response; its answer goes to `reply_sent`, or in a loop to
    /// `reply_loop_sent`. Where the receive or the handler failed, the
    /// result is that failure and nothing is sent.
    pub fn reply_received<F: Fn(MessageBuffer) -> Result<MessageBuffer, E>, E: From<Error>>(
        &self,
        received: Result<MessageBuffer, Error>,
        handler: &F,
    ) -> (r: Result<Call<'static>, E>)
        requires
            forall|request: MessageBuffer| call_requires(*handler, (request,)),
        ensures
            handled(self.spec_socket().spec_raw(), received, *handler, r),
    {
        match received {
            Err(e) => Err(E::from(e)),
            Ok(request) => match handler(request) {
                Ok(response) => Ok(
                    Call::Send { socket: self.socket().as_raw(), buffer: response, flags: 0 },
                ),
                Err(x) => Err(x),
            },
        }
    }

    /// Takes what the engine answered to the send of the response, and
    /// with it ends the reply.
    pub fn reply_sent<E: From<Error>>(&self, sent: Result<usize, Error>) -> (r: Result<(), E>)
        ensures
            finished(sent, r),
    {
        finish(sent)
    }

    /// The call that begins a loop of replies: it waits for the first
    /// request. The loop goes from here to `reply_received`, from there to
    /// `reply_loop_sent`, and from there to `reply_received` again.
    pub fn reply_loop(&self) -> (call: Call<'static>)
        ensures
            call == (Call::Receive { socket: self.spec_socket().spec_raw(), flags: 0 }),
    {
        self.recv()
    }

    /// Takes what the engine answered to the send of a response in a loop
    /// of replies. A response that went out leads to the call that waits
    /// for the next request; the loop never ends in success. One that did
    /// not go out ends the loop with its error.
    pub fn reply_loop_sent<E: From<Error>>(&self, sent: Result<usize, Error>) -> (r: Result<
        Call<'static>,
        E,
    >)
        ensures
            match sent {
                Ok(_) => r matches Ok(call) && call == (Call::Receive {
                    socket: self.spec_socket().spec_raw(),
                    flags: 0,
                }),
                Err(e) => r matches Err(x) && (E::obeys_from_spec() ==> x == E::from_spec(e)),
            },
    {
        match sent {
            Ok(_) => Ok(self.recv()),
            Err(e) => Err(E::from(e)),
        }
    }
}

impl Respondent {
    /// The call that waits for a survey. Its answer goes to
    /// `respond_received`.
    pub fn respond(&self) -> (call: Call<'static>)
        ensures
            call == (Call::Receive { socket: self.spec_socket().spec_raw(), flags: 0 }),
    {
        self.recv()
    }

    /// Takes what the engine answered to the receive and prepares the
    /// response with `handler`, which is called once. The result is the
    /// call that sends the response; its answer goes to `respond_sent`.
    /// Where the receive or the handler failed, the result is that failure
    /// and nothing is sent.
    pub fn respond_received<F: FnOnce(MessageBuffer) -> Result<MessageBuffer, E>, E: From<Error>>(
        &self,
        received: Result<MessageBuffer, Error>,
        handler: F,
    ) -> (r: Result<Call<'static>, E>)
        requires
            forall|request: MessageBuffer| call_requires(handler, (request,)),
        ensures
            handled(self.spec_socket().spec_raw(), received, handler, r),
    {
        answer_with(self.socket().as_raw(), received, handler)
    }

    /// Takes what the engine answered to the send of the response, and
    /// with it ends the response.
    pub fn respond_sent<E: From<Error>>(&self, sent: Result<usize, Error>) -> (r: Result<(), E>)
        ensures
            finished(sent, r),
    {
        finish(sent)
    }
}

/// Responses that arrive are added in the order in which they arrive, and
/// each of them is kept, also where two are alike.
pub proof fn responses_are_kept_in_order(
    before: Seq<Seq<u8>>,
    responses: Seq<Seq<u8>>,
    rest: Seq<Result<Seq<u8>, Error>>,
)
    ensures
        collect_from(before, arrivals(responses) + rest) == collect_from(before + responses, rest),
    decreases responses.len(),
{
    if responses.len() == 0 {
        assert(arrivals(responses) + rest =~= rest);
        assert(before + responses =~= before);
    } else {
        let all = arrivals(responses) + rest;
        let tail = responses.drop_first();
        assert(all[0] == Ok::<Seq<u8>, Error>(responses[0]));
        assert(all.drop_first() =~= arrivals(tail) + rest);
        responses_are_kept_in_order(before.push(responses[0]), tail, rest);
        assert(before.push(responses[0]) + tail =~= before + responses);
    }
}

/// A survey whose deadline passes after the responses `responses` gives
/// exactly these: as many as arrived, in the order of their arrival, a
/// responder that answered twice twice. What the engine would have
/// answered afterwards plays no part.
pub proof fn survey_gives_every_response(
    sent: usize,
    responses: Seq<Seq<u8>>,
    rest: Seq<Result<Seq<u8>, Error>>,
)
    ensures
        survey_outcome(
            Ok(sent),
            arrivals(responses) + (seq![Err::<Seq<u8>, Error>(Error::Nng(NNG_ETIMEDOUT))] + rest),
        ) == Collection::Closed(Ok(responses)),
{
    let timeout = Err::<Seq<u8>, Error>(Error::Nng(NNG_ETIMEDOUT));
    let empty = Seq::<Seq<u8>>::empty();
    responses_are_kept_in_order(empty, responses, seq![timeout] + rest);
    assert(empty + responses =~= responses);
    collect_from_unfolds(responses, timeout, rest);
}

/// A survey that nobody answers before the deadline gives no responses,
/// which is a success and no error.
pub proof fn survey_without_responders_is_empty(sent: usize, rest: Seq<Result<Seq<u8>, Error>>)
    ensures
        survey_outcome(Ok(sent), seq![Err::<Seq<u8>, Error>(Error::Nng(NNG_ETIMEDOUT))] + rest)
            == Collection::Closed(Ok(Seq::<Seq<u8>>::empty())),
{
    let empty = Seq::<Seq<u8>>::empty();
    survey_gives_every_response(sent, empty, rest);
    assert(arrivals(empty) + (seq![Err::<Seq<u8>, Error>(Error::Nng(NNG_ETIMEDOUT))] + rest) =~= seq![
        Err::<Seq<u8>, Error>(Error::Nng(NNG_ETIMEDOUT)),
    ] + rest);
}

/// A receive that fails for another reason than the deadline fails the
/// survey with its error. The responses that had arrived are not
/// returned.
pub proof fn survey_failure_gives_no_responses(
    sent: usize,
    responses: Seq<Seq<u8>>,
    e: Error,
    rest: Seq<Result<Seq<u8>, Error>>,
)
    requires
        !is_timeout(e),
    ensures
        survey_outcome(Ok(sent), arrivals(responses) + (seq![Err::<Seq<u8>, Error>(e)] + rest))
            == Collection::Closed(Err(e)),
{
    let empty = Seq::<Seq<u8>>::empty();
    responses_are_kept_in_order(empty, responses, seq![Err::<Seq<u8>, Error>(e)] + rest);
    assert(empty + responses =~= responses);
    collect_from_unfolds(responses, Err::<Seq<u8>, Error>(e), rest);
}

/// While nothing has failed the survey is running, and holds what has
/// arrived.
pub proof fn survey_runs_until_a_receive_fails(sent: usize, responses: Seq<Seq<u8>>)
    ensures
        survey_outcome(Ok(sent), arrivals(responses)) == Collection::Open(responses),
{
    let empty = Seq::<Seq<u8>>::empty();
    let none = Seq::<Result<Seq<u8>, Error>>::empty();
    responses_are_kept_in_order(empty, responses, none);
    assert(arrivals(responses) + none =~= arrivals(responses));
    assert(empty + responses =~= responses);
}

/// Where a replier answers a request with its handler, and the engine
/// delivers to the requester what the replier's call sends, the request
/// gives exactly the bytes that the handler produced.
pub proof fn reply_reaches_requester<F: FnOnce(MessageBuffer) -> Result<MessageBuffer, E>, E: From<Error>>(
    socket: u32,
    request: MessageBuffer,
    handler: F,
    call: Call<'static>,
    sent: usize,
    delivered: Result<MessageBuffer, Error>,
)
    requires
        handled(socket, Ok::<MessageBuffer, Error>(request), handler, Ok::<Call<'static>, E>(call)),
        call matches Call::Send { buffer, .. } && delivered matches Ok(reply) && reply@ == buffer@,
    ensures
        exists|response: MessageBuffer| #[trigger]
            call_ensures(handler, (request,), Ok::<MessageBuffer, E>(response)) && request_outcome(
                Ok(sent),
                payload_of(delivered),
            ) == Ok::<Seq<u8>, Error>(response@),
{
    match call {
        Call::Send { socket: _, buffer, flags: _ } => {
            assert(call_ensures(handler, (request,), Ok::<MessageBuffer, E>(buffer)));
        },
        _ => {},
    }
}

} // verus!
