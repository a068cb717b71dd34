use vstd::prelude::*;

use crate::http::{reply, response_build, route, route_of, Method, Response, ResponseView, Route};

verus! {

/// The text served at the root path.
pub open spec fn instructions() -> Seq<char> {
    "Try POSTing data to /compute such as: `curl localhost:8002/compute -XPOST -d '...'`"@
}

pub open spec fn invalid_order_message() -> Seq<char> {
    "The request body is not a valid order."@
}

pub open spec fn connect_failed_message() -> Seq<char> {
    "Cannot connect to sales tax rate service"@
}

pub open spec fn read_failed_message() -> Seq<char> {
    "Cannot read response from sales tax rate service"@
}

pub open spec fn unknown_rate_message() -> Seq<char> {
    "The zip code in the order does not have a corresponding sales tax rate."@
}

pub open spec fn unserializable_message() -> Seq<char> {
    "Cannot serialize the priced order."@
}

/// The JSON body of every error response.
pub open spec fn error_envelope(message: Seq<char>) -> Seq<char> {
    "{\"status\":\"error\",\"message\":\""@ + message + "\"}"@
}

/// Writes the error envelope around a message.
pub fn error_body(message: &str) -> (r: String)
    ensures
        r@ == error_envelope(message@),
{
    let mut s = String::from_str("{\"status\":\"error\",\"message\":\"");
    s.append(message);
    s.append("\"}");
    s
}

/// How far a request has come.
#[derive(Clone, Copy, Debug, PartialEq, Eq, Structural)]
pub enum Stage {
    /// The request body is being read as an order.
    AwaitOrder,
    /// The zip code has been posted to the rate lookup service.
    AwaitConnection,
    /// The rate lookup service answered; its body is being read.
    AwaitRateText,
    /// The rate text is being parsed and the order priced.
    AwaitPricing,
    /// The response has been decided.
    Done,
}

/// What the host reports back after doing what it was asked.
pub enum Event {
    /// The body is a valid order; this is its shipping zip code.
    OrderParsed { zip: String },
    /// The body could not be read, or is not a valid order.
    OrderRejected,
    /// The rate lookup service accepted the connection and answered.
    Connected,
    /// The rate lookup service could not be reached or timed out.
    ConnectFailed,
    /// The body of the lookup service's answer was read.
    RateRead,
    /// The body of the lookup service's answer could not be read.
    ReadFailed,
    /// The rate parsed; this is the priced order as JSON.
    Priced { json: String },
    /// The rate text is not a number.
    RateRejected,
    /// The priced order could not be written as JSON.
    SerializeFailed,
}

/// What the handler asks the host to do next.
pub enum Action {
    /// Read the request body and parse it as an order.
    ParseOrder,
    /// Post this zip code, as the whole body, to the rate lookup service.
    PostZip { zip: String },
    /// Read the body of the lookup service's answer.
    ReadRate,
    /// Parse the rate, set the order's total and write the order as JSON.
    Price,
    /// Send this response; the request is finished.
    Respond { response: Response },
}

pub enum ActionView {
    ParseOrder,
    PostZip { zip: Seq<char> },
    ReadRate,
    Price,
    Respond { response: ResponseView },
}

impl View for Action {
    type V = ActionView;

    open spec fn view(&self) -> ActionView {
        match self {
            Action::ParseOrder => ActionView::ParseOrder,
            Action::PostZip { zip } => ActionView::PostZip { zip: zip@ },
            Action::ReadRate => ActionView::ReadRate,
            Action::Price => ActionView::Price,
            Action::Respond { response } => ActionView::Respond { response: response@ },
        }
    }
}

pub open spec fn respond(status: u16, body: Seq<char>) -> ActionView {
    ActionView::Respond { response: reply(status, body) }
}

pub open spec fn fail(status: u16, message: Seq<char>) -> ActionView {
    respond(status, error_envelope(message))
}

/// The first decision on a request, from its method and path alone.
pub open spec fn start_spec(method: Method, path: Seq<char>) -> (Stage, ActionView) {
    match route_of(method, path) {
        Route::Preflight => (Stage::Done, respond(200, ""@)),
        Route::Instructions => (Stage::Done, respond(200, instructions())),
        Route::Compute => (Stage::AwaitOrder, ActionView::ParseOrder),
        Route::NotFound => (Stage::Done, respond(404, ""@)),
    }
}

/// Which events can come in which stage.
pub open spec fn accepts(stage: Stage, event: Event) -> bool {
    match stage {
        Stage::AwaitOrder => event is OrderParsed || event is OrderRejected,
        Stage::AwaitConnection => event is Connected || event is ConnectFailed,
        Stage::AwaitRateText => event is RateRead || event is ReadFailed,
        Stage::AwaitPricing => event is Priced || event is RateRejected || event is SerializeFailed,
        Stage::Done => false,
    }
}

/// The next stage and action once an event has come.
pub open spec fn step_spec(stage: Stage, event: Event) -> (Stage, ActionView) {
    match event {
        Event::OrderParsed { zip } => (Stage::AwaitConnection, ActionView::PostZip { zip: zip@ }),
        Event::OrderRejected => (Stage::Done, fail(400, invalid_order_message())),
        Event::Connected => (Stage::AwaitRateText, ActionView::ReadRate),
        Event::ConnectFailed => (Stage::Done, fail(500, connect_failed_message())),
        Event::RateRead => (Stage::AwaitPricing, ActionView::Price),
        Event::ReadFailed => (Stage::Done, fail(500, read_failed_message())),
        Event::Priced { json } => (Stage::Done, respond(200, json@)),
        Event::RateRejected => (Stage::Done, fail(400, unknown_rate_message())),
        Event::SerializeFailed => (Stage::Done, fail(500, unserializable_message())),
    }
}

fn failure(status: u16, message: &str) -> (r: Action)
    ensures
        r@ == fail(status, message@),
{
    let body = error_body(message);
    Action::Respond { response: response_build(status, body.as_str()) }
}

/// Decides what to do with a new request.
pub fn start(method: Method, path: &str) -> (r: (Stage, Action))
    ensures
        (r.0, r.1@) == start_spec(method, path@),
{
    match route(method, path) {
        Route::Preflight => (Stage::Done, Action::Respond { response: response_build(200, "") }),
        Route::Instructions => (
            Stage::Done,
            Action::Respond {
                response: response_build(
                    200,
                    "Try POSTing data to /compute such as: `curl localhost:8002/compute -XPOST -d '...'`",
                ),
            },
        ),
        Route::Compute => (Stage::AwaitOrder, Action::ParseOrder),
        Route::NotFound => (Stage::Done, Action::Respond { response: response_build(404, "") }),
    }
}

impl Stage {
    /// Whether the event can come in this stage.
    pub fn accepts(&self, event: &Event) -> (r: bool)
        ensures
            r == accepts(*self, *event),
    {
        match self {
            Stage::AwaitOrder => matches!(event, Event::OrderParsed { .. } | Event::OrderRejected),
            Stage::AwaitConnection => matches!(event, Event::Connected | Event::ConnectFailed),
            Stage::AwaitRateText => matches!(event, Event::RateRead | Event::ReadFailed),
            Stage::AwaitPricing => matches!(
                event,
                Event::Priced { .. } | Event::RateRejected | Event::SerializeFailed
            ),
            Stage::Done => false,
        }
    }

    /// Moves a request on by one event.
    pub fn step(self, event: Event) -> (r: (Stage, Action))
        requires
            accepts(self, event),
        ensures
            (r.0, r.1@) == step_spec(self, event),
    {
        match event {
            Event::OrderParsed { zip } => (Stage::AwaitConnection, Action::PostZip { zip }),
            Event::OrderRejected => (
                Stage::Done,
                failure(400, "The request body is not a valid order."),
            ),
            Event::Connected => (Stage::AwaitRateText, Action::ReadRate),
            Event::ConnectFailed => (
                Stage::Done,
                failure(500, "Cannot connect to sales tax rate service"),
            ),
            Event::RateRead => (Stage::AwaitPricing, Action::Price),
            Event::ReadFailed => (
                Stage::Done,
                failure(500, "Cannot read response from sales tax rate service"),
            ),
            Event::Priced { json } => (
                Stage::Done,
                Action::Respond { response: response_build(200, json.as_str()) },
            ),
            Event::RateRejected => (
                Stage::Done,
                failure(400, "The zip code in the order does not have a corresponding sales tax rate."),
            ),
            Event::SerializeFailed => (Stage::Done, failure(500, "Cannot serialize the priced order.")),
        }
    }
}

} // verus!
