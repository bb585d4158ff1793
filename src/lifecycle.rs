//! What holds of a connection over its whole life, stated over the step functions.

use vstd::prelude::*;
use crate::connection::{
    already_connected_json, auth_next, backend_reply_json, disconnected_json, frame_next,
    session_created_json, store_next, teardown, unknown_request_json, ConnV, EffectV, FirstFrame,
    InboundFrame, Phase,
};
use crate::envelope::{error_json, fatal_error_json, response_json};
use crate::request::{CommunicationRequest, ConnectionRequest};

verus! {

/// Whether the store holds the record `session_id` after `es`, given whether it did before.
pub open spec fn record_after(held: bool, session_id: Seq<char>, es: Seq<EffectV>) -> bool
    decreases es.len(),
{
    if es.len() == 0 {
        held
    } else {
        let h = record_after(held, session_id, es.drop_last());
        match es.last() {
            EffectV::StorePut(s, _, _) => if s == session_id {
                true
            } else {
                h
            },
            EffectV::StoreDelete(s) => if s == session_id {
                false
            } else {
                h
            },
            _ => h,
        }
    }
}

/// Whether the registry holds the connection after `es`, given whether it did before.
pub open spec fn entry_after(held: bool, es: Seq<EffectV>) -> bool
    decreases es.len(),
{
    if es.len() == 0 {
        held
    } else {
        let h = entry_after(held, es.drop_last());
        match es.last() {
            EffectV::Register => true,
            EffectV::Deregister => false,
            _ => h,
        }
    }
}

/// Whether no effect of `es` writes a session record or registers the connection.
pub open spec fn creates_nothing(es: Seq<EffectV>) -> bool {
    forall|i: int|
        0 <= i < es.len() ==> !(#[trigger] es[i] is StorePut) && !(es[i] is Register)
}

/// A connection whose authentication fails sends exactly one frame, an error, with the
/// status `authentication_failed` and the authenticator's code and message when the
/// authenticator refused it. It writes no session record, registers nothing, and is
/// closed, so that no later event does either.
pub proof fn failed_authentication_creates_nothing(
    c: ConnV,
    f: FirstFrame,
    session_id: Seq<char>,
    stored: Result<(), String>,
    later: InboundFrame,
)
    requires
        c.phase == Phase::AwaitingAuth,
        !(f is Accepted),
    ensures
        ({
            let (c1, es) = auth_next(c, f, session_id);
            &&& es.len() == 1
            &&& es[0] is Send
            &&& creates_nothing(es)
            &&& c1.phase == Phase::Closed
            &&& store_next(c1, stored) == (c1, Seq::<EffectV>::empty())
            &&& frame_next(c1, later) == (c1, Seq::<EffectV>::empty())
        }),
        match f {
            FirstFrame::Rejected { code, message } => auth_next(c, f, session_id).1 == seq![
                EffectV::Send(fatal_error_json("authentication_failed"@, message@, code as u64)),
            ],
            _ => true,
        },
{
}

/// A successful authentication followed by a successful store write leaves the session
/// record stored and the connection registered, and the last frame sent announces the
/// session.
pub proof fn successful_authentication_stores_session(
    c: ConnV,
    user_id: u64,
    claims: String,
    session_id: Seq<char>,
)
    requires
        c.phase == Phase::AwaitingAuth,
    ensures
        ({
            let (c1, e1) = auth_next(c, FirstFrame::Accepted { user_id, claims }, session_id);
            let (c2, e2) = store_next(c1, Ok(()));
            &&& c2.phase == Phase::Open
            &&& c2.session_id == session_id
            &&& record_after(false, session_id, e1 + e2)
            &&& entry_after(false, e1 + e2)
            &&& e2.last() == EffectV::Send(session_created_json(session_id, user_id))
        }),
{
    let (c1, e1) = auth_next(c, FirstFrame::Accepted { user_id, claims }, session_id);
    let (c2, e2) = store_next(c1, Ok(()));
    let es = e1 + e2;
    assert(es.drop_last() =~= seq![es[0], es[1]]);
    assert(es.drop_last().drop_last() =~= seq![es[0]]);
    assert(es.drop_last().drop_last().drop_last() =~= Seq::<EffectV>::empty());
    reveal_with_fuel(record_after, 4);
    reveal_with_fuel(entry_after, 4);
}

/// While a connection is open, every frame either leaves it open, with its record and
/// its registry entry still held, or closes it, and then its last two effects remove
/// the registry entry and then the session record, so that neither is held.
pub proof fn open_connection_releases_on_close(c: ConnV, f: InboundFrame)
    requires
        c.phase == Phase::Open,
    ensures
        ({
            let (c1, es) = frame_next(c, f);
            &&& c1.phase != Phase::Closed ==> {
                &&& c1 == c
                &&& record_after(true, c.session_id, es)
                &&& entry_after(true, es)
            }
            &&& c1.phase == Phase::Closed ==> {
                &&& es.len() >= 2
                &&& es.subrange(es.len() - 2, es.len() as int) == teardown(c.session_id)
                &&& !record_after(true, c.session_id, es)
                &&& !entry_after(true, es)
            }
        }),
{
    let (c1, es) = frame_next(c, f);
    reveal_with_fuel(record_after, 5);
    reveal_with_fuel(entry_after, 5);
    if es.len() == 1 {
        assert(es.drop_last() =~= Seq::<EffectV>::empty());
    } else if es.len() == 2 {
        assert(es.drop_last() =~= seq![es[0]]);
        assert(es.drop_last().drop_last() =~= Seq::<EffectV>::empty());
        assert(es.subrange(0, 2) =~= es);
    } else if es.len() == 4 {
        assert(es.drop_last() =~= seq![es[0], es[1], es[2]]);
        assert(es.drop_last().drop_last() =~= seq![es[0], es[1]]);
        assert(es.drop_last().drop_last().drop_last() =~= seq![es[0]]);
        assert(es.drop_last().drop_last().drop_last().drop_last() =~= Seq::<EffectV>::empty());
        assert(es.subrange(2, 4) =~= seq![es[2], es[3]]);
    }
}

/// A disconnect request that names the connection's own session gets the `disconnected`
/// frame and closes the connection, so that no later frame has any effect; one that
/// names another session changes nothing and sends nothing.
pub proof fn disconnect_request_ends_connection(
    c: ConnV,
    session_id: String,
    user_id: u64,
    application: Option<CommunicationRequest>,
    later: InboundFrame,
)
    requires
        c.phase == Phase::Open,
    ensures
        ({
            let f = InboundFrame::Text {
                control: Some(ConnectionRequest::Disconnect { session_id, user_id }),
                application,
            };
            let (c1, es) = frame_next(c, f);
            &&& session_id@ == c.session_id ==> {
                &&& c1.phase == Phase::Closed
                &&& es.contains(EffectV::Enqueue(disconnected_json()))
                &&& frame_next(c1, later) == (c1, Seq::<EffectV>::empty())
            }
            &&& session_id@ != c.session_id ==> c1 == c && es.len() == 0
        }),
{
    let f = InboundFrame::Text {
        control: Some(ConnectionRequest::Disconnect { session_id, user_id }),
        application,
    };
    let (c1, es) = frame_next(c, f);
    if session_id@ == c.session_id {
        assert(es[1] == EffectV::Enqueue(disconnected_json()));
    }
}

/// A success frame and an error frame are never the same text: they differ in their
/// `type` tag.
pub proof fn success_and_error_frames_differ(
    status: Seq<char>,
    response: Seq<char>,
    error_status: Seq<char>,
    error: Seq<char>,
)
    ensures
        response_json(status, response) != error_json(error_status, error),
{
    reveal_strlit("{\"type\":\"ai_response\",\"status\":");
    reveal_strlit("{\"type\":\"error\",\"status\":");
    let a = response_json(status, response);
    let b = error_json(error_status, error);
    assert(a[9] == 'a');
    assert(b[9] == 'e');
}

/// An application request is handed to the backend exactly once and leaves the
/// connection as it was; what the backend returns comes back as exactly one frame, a
/// success carrying its output or an `ai_error` carrying its failure.
pub proof fn application_request_is_answered(
    c: ConnV,
    prompt: String,
    result: Result<String, String>,
)
    requires
        c.phase == Phase::Open,
    ensures
        frame_next(
            c,
            InboundFrame::Text {
                control: None,
                application: Some(CommunicationRequest::AIRequest { prompt }),
            },
        ) == (c, seq![EffectV::Dispatch(prompt@)]),
        match result {
            Ok(output) => backend_reply_json(result) == response_json("success"@, output@),
            Err(e) => backend_reply_json(result) == error_json(
                "ai_error"@,
                "AI processing failed: "@ + e@,
            ),
        },
        result is Ok ==> forall|s: Seq<char>, e: Seq<char>|
            backend_reply_json(result) != #[trigger] error_json(s, e),
        result is Err ==> forall|s: Seq<char>, r: Seq<char>|
            backend_reply_json(result) != #[trigger] response_json(s, r),
{
    match result {
        Ok(output) => {
            assert forall|s: Seq<char>, e: Seq<char>|
                backend_reply_json(result) != #[trigger] error_json(s, e) by {
                success_and_error_frames_differ("success"@, output@, s, e);
            }
        },
        Err(err) => {
            assert forall|s: Seq<char>, r: Seq<char>|
                backend_reply_json(result) != #[trigger] response_json(s, r) by {
                success_and_error_frames_differ(s, r, "ai_error"@, "AI processing failed: "@ + err@);
            }
        },
    }
}

/// A text frame that neither vocabulary decodes is answered with the
/// `invalid_request` "Unknown request type" frame, and the connection stays open.
pub proof fn unknown_request_keeps_connection(c: ConnV)
    requires
        c.phase == Phase::Open,
    ensures
        frame_next(c, InboundFrame::Text { control: None, application: None }) == (
            c,
            seq![EffectV::Enqueue(unknown_request_json())],
        ),
{
}

/// A connection request on an open connection is answered with the `invalid_request`
/// "Already connected" frame, and the connection stays open.
pub proof fn repeated_start_keeps_connection(c: ConnV, application: Option<CommunicationRequest>)
    requires
        c.phase == Phase::Open,
    ensures
        frame_next(
            c,
            InboundFrame::Text { control: Some(ConnectionRequest::StartConnection), application },
        ) == (c, seq![EffectV::Enqueue(already_connected_json())]),
{
}

} // verus!
