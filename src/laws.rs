use vstd::prelude::*;

use crate::errors::{HandlerError, PoolError};
use crate::handlers::{
    advance, begin_get, begin_list, capped, expects, failure, ActionView, BodyView, EventView,
    HandlerView, ResponseView, LIST_LIMIT,
};
use crate::models::Cat;
use crate::validate::{in_id_range, integer_of, validation_of};

verus! {

/// How many more outside answers a handler waits for before it responds.
pub open spec fn pending(h: HandlerView) -> nat {
    match h {
        HandlerView::AwaitingConnection(_) => 2,
        HandlerView::AwaitingRows(_) => 1,
        HandlerView::Done => 0,
    }
}

/// A parameter that writes an identifier in range, whose record the store
/// holds, is answered with status 200 and exactly that record, after one
/// connection and one query for that identifier.
pub proof fn law_found_record_is_returned(raw: Seq<char>, c: Cat)
    requires
        integer_of(raw) is Some,
        in_id_range(integer_of(raw)->0),
    ensures
        begin_get(raw).1 == ActionView::AcquireConnection,
        expects(begin_get(raw).0, EventView::ConnectionAcquired),
        advance(begin_get(raw).0, EventView::ConnectionAcquired).1 == ActionView::LoadRecord(
            integer_of(raw)->0,
        ),
        expects(
            advance(begin_get(raw).0, EventView::ConnectionAcquired).0,
            EventView::RecordLoaded(Some(c)),
        ),
        advance(
            advance(begin_get(raw).0, EventView::ConnectionAcquired).0,
            EventView::RecordLoaded(Some(c)),
        ) == (HandlerView::Done, ActionView::Respond(
            ResponseView { status: 200, body: BodyView::Record(c) },
        )),
{
}

/// A parameter that is not an integer, or is one outside the identifier
/// range, is answered with status 400 at once: no connection is asked for and
/// the handler takes no further event, so the store is never contacted.
pub proof fn law_rejected_input_never_reaches_store(raw: Seq<char>)
    requires
        integer_of(raw) is None || !in_id_range(integer_of(raw)->0),
    ensures
        begin_get(raw).0 == HandlerView::Done,
        begin_get(raw).1 is Respond,
        begin_get(raw).1->Respond_0.status == 400,
        begin_get(raw).1->Respond_0.body is Failure,
        begin_get(raw).1->Respond_0.body->Failure_0 is InvalidInput,
        forall|e: EventView| !expects(begin_get(raw).0, e),
{
}

/// A valid identifier with no record is answered with status 404.
pub proof fn law_missing_record_is_not_found(raw: Seq<char>)
    requires
        integer_of(raw) is Some,
        in_id_range(integer_of(raw)->0),
    ensures
        expects(
            advance(begin_get(raw).0, EventView::ConnectionAcquired).0,
            EventView::RecordLoaded(None),
        ),
        advance(
            advance(begin_get(raw).0, EventView::ConnectionAcquired).0,
            EventView::RecordLoaded(None),
        ).1 == ActionView::Respond(failure(HandlerError::NotFound)),
        failure(HandlerError::NotFound).status == 404,
{
}

/// A listing asks the store for at most `LIST_LIMIT` rows and returns, with
/// status 200, at most `LIST_LIMIT` of the rows it got, in the order given;
/// on an empty table it returns the empty list.
pub proof fn law_listing_is_capped(rows: Seq<Cat>)
    ensures
        begin_list().1 == ActionView::AcquireConnection,
        advance(begin_list().0, EventView::ConnectionAcquired).1 == ActionView::LoadRecords(
            LIST_LIMIT as int,
        ),
        expects(
            advance(begin_list().0, EventView::ConnectionAcquired).0,
            EventView::RecordsLoaded(rows),
        ),
        ({
            let answer = advance(
                advance(begin_list().0, EventView::ConnectionAcquired).0,
                EventView::RecordsLoaded(rows),
            ).1;
            &&& answer is Respond
            &&& answer->Respond_0.status == 200
            &&& answer->Respond_0.body is Records
            &&& answer->Respond_0.body->Records_0.len() <= LIST_LIMIT
            &&& answer->Respond_0.body->Records_0 == rows.take(
                answer->Respond_0.body->Records_0.len() as int,
            )
            &&& rows.len() <= LIST_LIMIT ==> answer->Respond_0.body->Records_0 == rows
            &&& rows.len() == 0 ==> answer->Respond_0.body->Records_0 == Seq::<Cat>::empty()
        }),
{
    let kept = capped(rows);
    assert(kept == rows.take(kept.len() as int)) by {
        if rows.len() <= LIST_LIMIT {
            assert(rows =~= rows.take(rows.len() as int));
        }
    }
    if rows.len() == 0 {
        assert(rows =~= Seq::<Cat>::empty());
    }
}

/// Two single-record requests for different valid identifiers each query for
/// their own identifier and each receive their own store answer: what one is
/// answered depends on nothing of the other.
pub proof fn law_requests_are_independent(raw1: Seq<char>, raw2: Seq<char>, c1: Cat, c2: Cat)
    requires
        validation_of(raw1) is Ok,
        validation_of(raw2) is Ok,
        validation_of(raw1)->Ok_0 != validation_of(raw2)->Ok_0,
    ensures
        advance(begin_get(raw1).0, EventView::ConnectionAcquired).1 != advance(
            begin_get(raw2).0,
            EventView::ConnectionAcquired,
        ).1,
        advance(
            advance(begin_get(raw1).0, EventView::ConnectionAcquired).0,
            EventView::RecordLoaded(Some(c1)),
        ).1 == ActionView::Respond(ResponseView { status: 200, body: BodyView::Record(c1) }),
        advance(
            advance(begin_get(raw2).0, EventView::ConnectionAcquired).0,
            EventView::RecordLoaded(Some(c2)),
        ).1 == ActionView::Respond(ResponseView { status: 200, body: BodyView::Record(c2) }),
{
}

/// When the pool gives up on a connection, for either reason, the request is
/// answered with status 500 and ends.
pub proof fn law_pool_failure_is_server_error(h: HandlerView, e: PoolError)
    requires
        h is AwaitingConnection,
    ensures
        expects(h, EventView::ConnectionRefused(e)),
        advance(h, EventView::ConnectionRefused(e)) == (HandlerView::Done, ActionView::Respond(
            failure(HandlerError::PoolUnavailable),
        )),
        failure(HandlerError::PoolUnavailable).status == 500,
{
}

/// Every step that a handler takes brings it closer to its response: a request
/// waits for at most two outside answers, and ends responding.
pub proof fn law_request_finishes(h: HandlerView, e: EventView)
    requires
        expects(h, e),
    ensures
        pending(advance(h, e).0) < pending(h),
        advance(h, e).0 is Done <==> advance(h, e).1 is Respond,
{
}

} // verus!
