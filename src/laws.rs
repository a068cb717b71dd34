use vstd::prelude::*;

use crate::handler::{
    accepts, connect_failed_message, error_envelope, fail, instructions, invalid_order_message,
    respond, start_spec, step_spec, unknown_rate_message, ActionView, Event, Stage,
};
use crate::http::{compute_path, cors_headers, reply, root_path, route_of, Method, Route};

verus! {

/// Feeds the events to a request in the given stage, one by one; `None` if
/// one of them cannot come where it stands.
pub open spec fn run(stage: Stage, events: Seq<Event>) -> Option<(Stage, Seq<ActionView>)>
    decreases events.len(),
{
    if events.len() == 0 {
        Some((stage, Seq::empty()))
    } else if !accepts(stage, events[0]) {
        None
    } else {
        let (next, action) = step_spec(stage, events[0]);
        match run(next, events.drop_first()) {
            Some((last, actions)) => Some((last, seq![action] + actions)),
            None => None,
        }
    }
}

/// A whole request: the first decision, then the events the host reports.
pub open spec fn handle_spec(method: Method, path: Seq<char>, events: Seq<Event>) -> Option<
    (Stage, Seq<ActionView>),
> {
    let (stage, action) = start_spec(method, path);
    match run(stage, events) {
        Some((last, actions)) => Some((last, seq![action] + actions)),
        None => None,
    }
}

pub open spec fn rank(stage: Stage) -> int {
    match stage {
        Stage::AwaitOrder => 0,
        Stage::AwaitConnection => 1,
        Stage::AwaitRateText => 2,
        Stage::AwaitPricing => 3,
        Stage::Done => 4,
    }
}

/// A run moves forward only: it takes at most as many events as stages are
/// left, posts to the lookup service only when it starts from the order, and
/// a run that is done ends with a response.
proof fn lemma_run_forward(stage: Stage, events: Seq<Event>)
    requires
        run(stage, events) is Some,
    ensures
        events.len() <= 4 - rank(stage),
        rank(stage) <= rank(run(stage, events).unwrap().0),
        forall|i: int|
            0 <= i < run(stage, events).unwrap().1.len() && (run(stage, events).unwrap().1[i] is PostZip)
                ==> i == 0 && stage == Stage::AwaitOrder,
        run(stage, events).unwrap().1.len() == events.len(),
        run(stage, events).unwrap().0 == Stage::Done && events.len() > 0
            ==> run(stage, events).unwrap().1.last() is Respond,
    decreases events.len(),
{
    if events.len() > 0 {
        let (next, action) = step_spec(stage, events[0]);
        lemma_run_forward(next, events.drop_first());
        let rest = run(next, events.drop_first()).unwrap();
        let all = run(stage, events).unwrap();
        assert(all.1 == seq![action] + rest.1);
        if rest.1.len() == 0 {
            assert(all.1.last() == action);
        } else {
            assert(all.1.last() == rest.1.last());
        }
    }
}

proof fn lemma_run_tail(stage: Stage, events: Seq<Event>)
    requires
        run(stage, events) is Some,
        events.len() > 0,
    ensures
        stage != Stage::Done,
        accepts(stage, events[0]),
        run(step_spec(stage, events[0]).0, events.drop_first()) is Some,
{
}

/// GET / is answered with status 200 and the instructions, whatever else the
/// request holds, and nothing more happens.
pub proof fn lemma_root_serves_instructions(path: Seq<char>)
    requires
        path == root_path(),
    ensures
        start_spec(Method::Get, path) == (Stage::Done, respond(200, instructions())),
{
}

/// OPTIONS /compute is answered with status 200, the cross-origin headers and
/// an empty body.
pub proof fn lemma_preflight_answered(path: Seq<char>)
    requires
        path == compute_path(),
    ensures
        start_spec(Method::Options, path) == (Stage::Done, respond(200, Seq::empty())),
        reply(200, Seq::empty()).headers == cors_headers(),
{
    reveal_strlit("");
    assert(""@ =~= Seq::<char>::empty());
}

/// Every method and path outside the routing table is answered with status
/// 404 and an empty body.
pub proof fn lemma_unmatched_not_found(method: Method, path: Seq<char>)
    requires
        !(method == Method::Options && path == compute_path()),
        !(method == Method::Get && path == root_path()),
        !(method == Method::Post && path == compute_path()),
    ensures
        start_spec(method, path) == (Stage::Done, respond(404, Seq::empty())),
{
    reveal_strlit("");
    assert(""@ =~= Seq::<char>::empty());
}

/// A compute request whose body is not a valid order is answered with status
/// 400 and an error envelope, without calling the lookup service.
pub proof fn lemma_invalid_order_rejected(method: Method, path: Seq<char>, events: Seq<Event>)
    requires
        route_of(method, path) == Route::Compute,
        events.len() > 0,
        events[0] is OrderRejected,
        handle_spec(method, path, events) is Some,
    ensures
        handle_spec(method, path, events) == Some(
            (Stage::Done, seq![ActionView::ParseOrder, fail(400, invalid_order_message())]),
        ),
        error_envelope(invalid_order_message()).take(18) == "{\"status\":\"error\","@,
{
    lemma_run_forward(Stage::AwaitOrder, events);
    assert(events.drop_first().len() == 0);
    assert(run(Stage::Done, events.drop_first()) == Some((Stage::Done, Seq::<ActionView>::empty())));
    assert(seq![ActionView::ParseOrder] + (seq![fail(400, invalid_order_message())] + Seq::empty())
        =~= seq![ActionView::ParseOrder, fail(400, invalid_order_message())]);
    reveal_strlit("{\"status\":\"error\",\"message\":\"");
    reveal_strlit("{\"status\":\"error\",");
    assert(error_envelope(invalid_order_message()).take(18) =~= "{\"status\":\"error\","@);
}

/// A compute request whose lookup service cannot be reached is answered with
/// status 500 and the connection error, after exactly one lookup call.
pub proof fn lemma_unreachable_lookup(method: Method, path: Seq<char>, events: Seq<Event>)
    requires
        route_of(method, path) == Route::Compute,
        events.len() > 1,
        events[1] is ConnectFailed,
        handle_spec(method, path, events) is Some,
    ensures
        events[0] is OrderParsed,
        handle_spec(method, path, events) == Some(
            (
                Stage::Done,
                seq![
                    ActionView::ParseOrder,
                    ActionView::PostZip { zip: events[0]->zip@ },
                    fail(500, connect_failed_message()),
                ],
            ),
        ),
{
    lemma_run_forward(Stage::AwaitOrder, events);
    let e1 = events.drop_first();
    let e2 = e1.drop_first();
    assert(e1[0] == events[1]);
    lemma_run_tail(Stage::AwaitOrder, events);
    lemma_run_tail(step_spec(Stage::AwaitOrder, events[0]).0, e1);
    lemma_run_forward(Stage::AwaitConnection, e1);
    assert(e2.len() == 0);
    assert(run(Stage::Done, e2) == Some((Stage::Done, Seq::<ActionView>::empty())));
    assert(run(Stage::AwaitConnection, e1) == Some(
        (Stage::Done, seq![fail(500, connect_failed_message())] + Seq::<ActionView>::empty()),
    ));
    assert(seq![fail(500, connect_failed_message())] + Seq::<ActionView>::empty()
        =~= seq![fail(500, connect_failed_message())]);
    assert(seq![ActionView::ParseOrder] + (seq![ActionView::PostZip { zip: events[0]->zip@ }]
        + seq![fail(500, connect_failed_message())]) =~= seq![
        ActionView::ParseOrder,
        ActionView::PostZip { zip: events[0]->zip@ },
        fail(500, connect_failed_message()),
    ]);
}

/// A compute request whose lookup service answers with text that is not a
/// rate is answered with status 400 and the missing-rate message.
pub proof fn lemma_unknown_rate(method: Method, path: Seq<char>, events: Seq<Event>)
    requires
        route_of(method, path) == Route::Compute,
        events.len() > 3,
        events[3] is RateRejected,
        handle_spec(method, path, events) is Some,
    ensures
        events[0] is OrderParsed,
        handle_spec(method, path, events) == Some(
            (
                Stage::Done,
                seq![
                    ActionView::ParseOrder,
                    ActionView::PostZip { zip: events[0]->zip@ },
                    ActionView::ReadRate,
                    ActionView::Price,
                    fail(400, unknown_rate_message()),
                ],
            ),
        ),
{
    lemma_run_forward(Stage::AwaitOrder, events);
    let e1 = events.drop_first();
    let e2 = e1.drop_first();
    let e3 = e2.drop_first();
    let e4 = e3.drop_first();
    assert(e3[0] == events[3]);
    lemma_run_tail(Stage::AwaitOrder, events);
    lemma_run_tail(step_spec(Stage::AwaitOrder, events[0]).0, e1);
    lemma_run_tail(step_spec(Stage::AwaitConnection, e1[0]).0, e2);
    lemma_run_tail(step_spec(Stage::AwaitRateText, e2[0]).0, e3);
    lemma_run_forward(Stage::AwaitConnection, e1);
    lemma_run_forward(Stage::AwaitRateText, e2);
    lemma_run_forward(Stage::AwaitPricing, e3);
    assert(events[0] is OrderParsed);
    assert(e1[0] is Connected);
    assert(e2[0] is RateRead);
    assert(e4.len() == 0);
    let last = fail(400, unknown_rate_message());
    assert(run(Stage::Done, e4) == Some((Stage::Done, Seq::<ActionView>::empty())));
    assert(run(Stage::AwaitPricing, e3).unwrap().1 =~= seq![last]);
    assert(run(Stage::AwaitRateText, e2).unwrap().1 =~= seq![ActionView::Price, last]);
    assert(run(Stage::AwaitConnection, e1).unwrap().1 =~= seq![
        ActionView::ReadRate,
        ActionView::Price,
        last,
    ]);
    assert(run(Stage::AwaitOrder, events).unwrap().1 =~= seq![
        ActionView::PostZip { zip: events[0]->zip@ },
        ActionView::ReadRate,
        ActionView::Price,
        last,
    ]);
    assert(handle_spec(method, path, events).unwrap().1 =~= seq![
        ActionView::ParseOrder,
        ActionView::PostZip { zip: events[0]->zip@ },
        ActionView::ReadRate,
        ActionView::Price,
        last,
    ]);
}

/// Every request posts to the lookup service at most once, takes at most four
/// events, and once it is done its last action is the response.
pub proof fn lemma_single_lookup(method: Method, path: Seq<char>, events: Seq<Event>)
    requires
        handle_spec(method, path, events) is Some,
    ensures
        events.len() <= 4,
        forall|i: int, j: int|
            0 <= i < handle_spec(method, path, events).unwrap().1.len()
                && 0 <= j < handle_spec(method, path, events).unwrap().1.len()
                && (handle_spec(method, path, events).unwrap().1[i] is PostZip)
                && (handle_spec(method, path, events).unwrap().1[j] is PostZip) ==> i == j,
        handle_spec(method, path, events).unwrap().0 == Stage::Done
            ==> handle_spec(method, path, events).unwrap().1.last() is Respond,
{
    let (stage, action) = start_spec(method, path);
    lemma_run_forward(stage, events);
    let rest = run(stage, events).unwrap().1;
    let all = handle_spec(method, path, events).unwrap().1;
    assert(all == seq![action] + rest);
    assert(forall|i: int| 0 < i < all.len() ==> all[i] == rest[i - 1]);
    if events.len() > 0 {
        assert(all.last() == rest.last());
    }
}

/// Two requests with the same method and path, whose outside calls turn out
/// the same, get the same answer: nothing carries over from one request to
/// the next.
pub proof fn lemma_same_outcomes_same_reply(
    method: Method,
    path: Seq<char>,
    first: Seq<Event>,
    second: Seq<Event>,
)
    requires
        first == second,
    ensures
        handle_spec(method, path, first) == handle_spec(method, path, second),
{
}

} // verus!
