//! One exchange, from the arrival of a request to the last byte of its
//! response, as a machine that decides what the transport does next: read
//! the body, print the log block, wait, send the headers, wait, send the
//! body.

use vstd::prelude::*;

use crate::config::Config;
use crate::id::{generate_id, is_id_text, IdGenerator, RequestId};
use crate::logging::{log_text, render_log, BodyRead, RequestHead};
use crate::response::{
    are_response_headers, compose_body, compose_headers, is_response_body, ResponseHeader,
};

verus! {

/// How far an exchange has come.
#[derive(Clone, Copy, Debug, PartialEq, Eq, Structural)]
pub enum Stage {
    /// The request has arrived; nothing was done yet.
    Received,
    /// The transport was told to read the body of the request.
    ReadingBody,
    /// The log block was handed out.
    Logged,
    /// The headers are assembled, and the delay before them is running.
    HeadersDelayed,
    /// The headers were handed out.
    HeadersSent,
    /// The delay before the body is running.
    BodyDelayed,
    /// The body was handed out.
    Finished,
}

/// What the transport reports back when it has done what it was told.
pub enum Event {
    /// The last action is done.
    Resumed,
    /// The body of the request was read, or reading it failed.
    Body(BodyRead),
}

/// What the transport is to do next.
pub enum Action {
    /// Read the whole body of the request and report it.
    ReadBody,
    /// Print the log block to standard output, in one piece.
    Print(String),
    /// Wait for so many milliseconds, without holding up other exchanges.
    Sleep(u64),
    /// Send the response with these headers; its body follows later.
    SendHeaders(Vec<ResponseHeader>),
    /// Send this text as the one chunk of the body.
    SendBody(String),
    /// Nothing: the exchange is over.
    Done,
}

/// An action without its payload.
pub enum ActionKind {
    ReadBody,
    Print,
    Sleep(u64),
    SendHeaders,
    SendBody,
    Done,
}

impl Action {
    /// The kind of the action.
    pub open spec fn kind(self) -> ActionKind {
        match self {
            Action::ReadBody => ActionKind::ReadBody,
            Action::Print(_) => ActionKind::Print,
            Action::Sleep(ms) => ActionKind::Sleep(ms),
            Action::SendHeaders(_) => ActionKind::SendHeaders,
            Action::SendBody(_) => ActionKind::SendBody,
            Action::Done => ActionKind::Done,
        }
    }
}

impl Event {
    /// The body that the event reports. An event without a body stands for
    /// a body that could not be read.
    pub open spec fn body(self) -> BodyRead {
        match self {
            Event::Body(body) => body,
            Event::Resumed => BodyRead::Failed,
        }
    }
}

/// The stage that follows when the headers are dealt with: they are sent at
/// once, or held back while the configured delay runs.
pub open spec fn stage_after_log(config: Config) -> Stage {
    if config.delay_headers is Some {
        Stage::HeadersDelayed
    } else {
        Stage::HeadersSent
    }
}

/// The kind of the action with which the headers are dealt with.
pub open spec fn action_after_log(config: Config) -> ActionKind {
    match config.delay_headers {
        Some(ms) => ActionKind::Sleep(ms),
        None => ActionKind::SendHeaders,
    }
}

/// The stage that follows `stage`. Where logging is off, the exchange
/// passes from the arrival of the request straight on to the headers.
pub open spec fn stage_after(config: Config, stage: Stage) -> Stage {
    match stage {
        Stage::Received => if config.quiet {
            stage_after_log(config)
        } else {
            Stage::ReadingBody
        },
        Stage::ReadingBody => Stage::Logged,
        Stage::Logged => stage_after_log(config),
        Stage::HeadersDelayed => Stage::HeadersSent,
        Stage::HeadersSent => if config.delay_body is Some {
            Stage::BodyDelayed
        } else {
            Stage::Finished
        },
        Stage::BodyDelayed => Stage::Finished,
        Stage::Finished => Stage::Finished,
    }
}

/// The kind of the action that leads from `stage` to the next.
pub open spec fn action_after(config: Config, stage: Stage) -> ActionKind {
    match stage {
        Stage::Received => if config.quiet {
            action_after_log(config)
        } else {
            ActionKind::ReadBody
        },
        Stage::ReadingBody => ActionKind::Print,
        Stage::Logged => action_after_log(config),
        Stage::HeadersDelayed => ActionKind::SendHeaders,
        Stage::HeadersSent => match config.delay_body {
            Some(ms) => ActionKind::Sleep(ms),
            None => ActionKind::SendBody,
        },
        Stage::BodyDelayed => ActionKind::SendBody,
        Stage::Finished => ActionKind::Done,
    }
}

/// The stage that an exchange is in after `n` steps.
pub open spec fn stage_at(config: Config, n: nat) -> Stage
    decreases n,
{
    if n == 0 {
        Stage::Received
    } else {
        stage_after(config, stage_at(config, (n - 1) as nat))
    }
}

/// The kind of the action that step `n` of an exchange hands out, counted
/// from zero.
pub open spec fn action_at(config: Config, n: nat) -> ActionKind {
    action_after(config, stage_at(config, n))
}

/// The milliseconds that an action tells the transport to wait.
pub open spec fn wait_of(kind: ActionKind) -> nat {
    match kind {
        ActionKind::Sleep(ms) => ms as nat,
        _ => 0,
    }
}

/// The milliseconds that the transport was told to wait in the steps before
/// step `n`.
pub open spec fn waited_before(config: Config, n: nat) -> nat
    decreases n,
{
    if n == 0 {
        0
    } else {
        waited_before(config, (n - 1) as nat) + wait_of(action_at(config, (n - 1) as nat))
    }
}

/// The step that hands out the headers: after the two steps of logging,
/// where there is logging, and after the wait, where there is a delay.
pub open spec fn headers_step(config: Config) -> nat {
    let logging: nat = if config.quiet {
        0
    } else {
        2
    };
    let waiting: nat = if config.delay_headers is Some {
        1
    } else {
        0
    };
    logging + waiting
}

/// The step that hands out the body: the one after the headers, or the
/// second after them where there is a delay.
pub open spec fn body_step(config: Config) -> nat {
    let waiting: nat = if config.delay_body is Some {
        1
    } else {
        0
    };
    headers_step(config) + 1 + waiting
}

/// Once an exchange is finished it stays so, and nothing more is done.
pub proof fn lemma_finished_for_good(config: Config, n: nat, m: nat)
    requires
        stage_at(config, n) == Stage::Finished,
        n <= m,
    ensures
        stage_at(config, m) == Stage::Finished,
        action_at(config, m) == ActionKind::Done,
    decreases m,
{
    if n < m {
        lemma_finished_for_good(config, n, (m - 1) as nat);
    }
}

/// Every exchange comes to its end: the step after the body finishes it,
/// whatever the transport reports on the way.
pub proof fn lemma_exchange_finishes(config: Config)
    ensures
        body_step(config) <= 5,
        stage_at(config, body_step(config) + 1) == Stage::Finished,
{
    reveal_with_fuel(stage_at, 8);
}

/// The headers are handed out once, at `headers_step`, and the body once,
/// at `body_step`, which comes later.
pub proof fn lemma_headers_then_body(config: Config, n: nat)
    ensures
        headers_step(config) < body_step(config),
        action_at(config, n) == ActionKind::SendHeaders <==> n == headers_step(config),
        action_at(config, n) == ActionKind::SendBody <==> n == body_step(config),
{
    reveal_with_fuel(stage_at, 8);
    lemma_exchange_finishes(config);
    if n > body_step(config) {
        lemma_finished_for_good(config, body_step(config) + 1, n);
    }
}

/// Where logging is on, an exchange first reads the body of the request and
/// prints the log block, and only then turns to the response.
pub proof fn lemma_log_comes_first(config: Config)
    requires
        !config.quiet,
    ensures
        action_at(config, 0) == ActionKind::ReadBody,
        action_at(config, 1) == ActionKind::Print,
        1 < headers_step(config),
{
    reveal_with_fuel(stage_at, 3);
}

/// Where logging is off, no step of an exchange reads the body of the
/// request or prints anything.
pub proof fn lemma_quiet_prints_nothing(config: Config, n: nat)
    requires
        config.quiet,
    ensures
        action_at(config, n) != ActionKind::ReadBody,
        action_at(config, n) != ActionKind::Print,
{
    reveal_with_fuel(stage_at, 8);
    lemma_exchange_finishes(config);
    if n > body_step(config) {
        lemma_finished_for_good(config, body_step(config) + 1, n);
    }
}

/// The two delays add up: by the time the headers are handed out the
/// transport was told to wait for the delay before the headers, and by the
/// time the body is handed out for that and the delay before the body.
pub proof fn lemma_delays_add_up(config: Config)
    ensures
        waited_before(config, headers_step(config)) == config.header_delay(),
        waited_before(config, body_step(config)) == config.header_delay() + config.body_delay(),
{
    reveal_with_fuel(stage_at, 8);
    reveal_with_fuel(waited_before, 8);
}

/// Whether `action` carries what an action of its kind has to carry in an
/// exchange for the request `id`, `head`, when the transport has reported
/// `event`.
pub open spec fn carries_payload(
    action: Action,
    config: Config,
    id: Seq<char>,
    head: RequestHead,
    event: Event,
) -> bool {
    match action {
        Action::Print(text) => text@ == log_text(id, head, event.body()),
        Action::SendHeaders(headers) => are_response_headers(headers@, config.size_headers),
        Action::SendBody(body) => is_response_body(body@, id, config.size_body),
        _ => true,
    }
}

/// One exchange: the configuration, the request with its identifier, and
/// how far it has come.
pub struct Exchange {
    config: Config,
    id: RequestId,
    head: RequestHead,
    stage: Stage,
    headers: Vec<ResponseHeader>,
}

impl Exchange {
    #[verifier::type_invariant]
    spec fn well_formed(self) -> bool {
        self.stage == Stage::HeadersDelayed ==> are_response_headers(
            self.headers@,
            self.config.size_headers,
        )
    }

    /// The configuration under which the exchange runs.
    pub closed spec fn config(&self) -> Config {
        self.config
    }

    /// The identifier of the request, the same in the log block and in the
    /// body of the response.
    pub closed spec fn id(&self) -> Seq<char> {
        self.id@
    }

    /// The head of the request.
    pub closed spec fn head(&self) -> RequestHead {
        self.head
    }

    /// How far the exchange has come.
    pub closed spec fn stage(&self) -> Stage {
        self.stage
    }

    /// Starts the exchange for a request that was given the identifier
    /// `id`.
    pub fn with_id(config: Config, id: RequestId, head: RequestHead) -> (exchange: Exchange)
        ensures
            exchange.config() == config,
            exchange.id() == id@,
            is_id_text(exchange.id()),
            exchange.head() == head,
            exchange.stage() == Stage::Received,
    {
        let text = id.as_str();
        assert(is_id_text(text@));
        Exchange { config, id, head, stage: Stage::Received, headers: Vec::new() }
    }

    /// Starts the exchange for a request that has just arrived: it gets a
    /// fresh identifier.
    pub fn begin(config: Config, generator: &IdGenerator, head: RequestHead) -> (exchange:
        Exchange)
        ensures
            exchange.config() == config,
            is_id_text(exchange.id()),
            exchange.head() == head,
            exchange.stage() == Stage::Received,
    {
        Exchange::with_id(config, generate_id(generator), head)
    }

    /// The current stage.
    pub fn current_stage(&self) -> (stage: Stage)
        ensures
            stage == self.stage(),
    {
        self.stage
    }

    /// The identifier of the request.
    pub fn request_id(&self) -> (id: &RequestId)
        ensures
            id@ == self.id(),
    {
        &self.id
    }

    /// Tells the transport what to do next, given what it reports of the
    /// last action, and moves on to the next stage. The request and the
    /// configuration stay as they are.
    pub fn step(&mut self, event: Event) -> (action: Action)
        ensures
            final(self).config() == old(self).config(),
            final(self).id() == old(self).id(),
            final(self).head() == old(self).head(),
            final(self).stage() == stage_after(old(self).config(), old(self).stage()),
            action.kind() == action_after(old(self).config(), old(self).stage()),
            carries_payload(action, old(self).config(), old(self).id(), old(self).head(), event),
    {
        proof {
            use_type_invariant(&*self);
        }
        match self.stage {
            Stage::Received => {
                if self.config.quiet {
                    self.headers_action()
                } else {
                    self.stage = Stage::ReadingBody;
                    Action::ReadBody
                }
            },
            Stage::ReadingBody => {
                let text = match event {
                    Event::Body(body) => render_log(&self.id, &self.head, &body),
                    Event::Resumed => render_log(&self.id, &self.head, &BodyRead::Failed),
                };
                self.stage = Stage::Logged;
                Action::Print(text)
            },
            Stage::Logged => self.headers_action(),
            Stage::HeadersDelayed => {
                let mut headers: Vec<ResponseHeader> = Vec::new();
                self.stage = Stage::HeadersSent;
                core::mem::swap(&mut self.headers, &mut headers);
                Action::SendHeaders(headers)
            },
            Stage::HeadersSent => {
                match self.config.delay_body {
                    Some(ms) => {
                        self.stage = Stage::BodyDelayed;
                        Action::Sleep(ms)
                    },
                    None => self.body_action(),
                }
            },
            Stage::BodyDelayed => self.body_action(),
            Stage::Finished => Action::Done,
        }
    }

    /// Assembles the headers, and either hands them out or, where a delay
    /// is set, keeps them until it has passed.
    fn headers_action(&mut self) -> (action: Action)
        requires
            old(self).stage == Stage::Logged || (old(self).stage == Stage::Received && old(
                self,
            ).config.quiet),
        ensures
            final(self).config == old(self).config,
            final(self).id == old(self).id,
            final(self).head == old(self).head,
            final(self).stage == stage_after(old(self).config, old(self).stage),
            action.kind() == action_after(old(self).config, old(self).stage),
            action matches Action::SendHeaders(headers) ==> are_response_headers(
                headers@,
                old(self).config.size_headers,
            ),
    {
        let headers = compose_headers(self.config.size_headers);
        match self.config.delay_headers {
            Some(ms) => {
                self.headers = headers;
                self.stage = Stage::HeadersDelayed;
                Action::Sleep(ms)
            },
            None => {
                self.stage = Stage::HeadersSent;
                Action::SendHeaders(headers)
            },
        }
    }

    /// Writes the body and hands it out.
    fn body_action(&mut self) -> (action: Action)
        requires
            old(self).stage == Stage::HeadersSent || old(self).stage == Stage::BodyDelayed,
        ensures
            final(self).config == old(self).config,
            final(self).id == old(self).id,
            final(self).head == old(self).head,
            final(self).stage == Stage::Finished,
            action matches Action::SendBody(body) && is_response_body(
                body@,
                old(self).id@,
                old(self).config.size_body,
            ),
    {
        let body = compose_body(&self.id, self.config.size_body);
        self.stage = Stage::Finished;
        Action::SendBody(body)
    }
}

} // verus!
