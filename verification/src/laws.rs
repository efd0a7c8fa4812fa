//! What holds of every run of a connection.

use crate::connection::{abandoned, parsed_stream_url, ConnectionView, PhaseView};
use crate::error::{ConnectionErrorView, RegistrationErrorView, ReportView};
use crate::event::{Event, StateChangeView};
use crate::frame::FrameView;
use crate::fields::FieldsView;
use crate::protocol::{CommandView, OutcomeView, REGISTRATION_BODY, REGISTRATION_CONTENT_TYPE};
use crate::session::{registration, SessionView};
use vstd::prelude::*;

verus! {

/// The connection after it was told a run of outcomes, one after the other.
pub open spec fn run(connection: ConnectionView, outcomes: Seq<OutcomeView>) -> ConnectionView
    decreases outcomes.len(),
{
    if outcomes.len() == 0 {
        connection
    } else {
        run(connection.after(outcomes[0]), outcomes.drop_first())
    }
}

/// The notifications of a run of outcomes, in the order they were given.
pub open spec fn notified(connection: ConnectionView, outcomes: Seq<OutcomeView>) -> Seq<
    StateChangeView,
>
    decreases outcomes.len(),
{
    if outcomes.len() == 0 {
        Seq::empty()
    } else {
        let rest = notified(connection.after(outcomes[0]), outcomes.drop_first());
        match connection.reaction(outcomes[0]).notification {
            Some(notification) => seq![notification] + rest,
            None => rest,
        }
    }
}

/// A run of two parts is the run of the second part from where the first
/// part led.
pub proof fn lemma_run_continues(
    connection: ConnectionView,
    first: Seq<OutcomeView>,
    second: Seq<OutcomeView>,
)
    ensures
        run(connection, first + second) == run(run(connection, first), second),
    decreases first.len(),
{
    if first.len() == 0 {
        assert(first + second =~= second);
    } else {
        assert((first + second)[0] == first[0]);
        assert((first + second).drop_first() =~= first.drop_first() + second);
        lemma_run_continues(connection.after(first[0]), first.drop_first(), second);
    }
}

/// A connection keeps what it was made with.
pub proof fn lemma_config_is_kept(connection: ConnectionView, outcomes: Seq<OutcomeView>)
    ensures
        run(connection, outcomes).config == connection.config,
    decreases outcomes.len(),
{
    if outcomes.len() > 0 {
        lemma_config_is_kept(connection.after(outcomes[0]), outcomes.drop_first());
    }
}

/// Whether an outcome is a failure: a registration that gave no session, a
/// handshake, a send or a read that failed.
pub open spec fn is_failure(outcome: OutcomeView) -> bool {
    match outcome {
        OutcomeView::Registered(reply) => registration(reply) is Err,
        OutcomeView::Opened(result) => result is Err,
        OutcomeView::Sent(result) => result is Err,
        OutcomeView::Received(result) => result is Err,
        _ => false,
    }
}

/// A failure, at whatever point of an attempt it comes, notifies nothing and
/// has the connection wait the configured delay; when that wait is over the
/// connection notifies `Connecting` and registers again.
pub proof fn law_failure_restarts_after_delay(connection: ConnectionView, failure: OutcomeView)
    requires
        connection.phase !is Stopped,
        is_failure(failure),
    ensures
        connection.reaction(failure).notification is None,
        connection.reaction(failure).command == (CommandView::Wait {
            seconds: connection.config.retry_delay_secs,
        }),
        connection.after(failure).phase is Failed,
        connection.after(failure).reaction(OutcomeView::Elapsed).notification == Some(
            StateChangeView::Connecting,
        ),
        connection.after(failure).reaction(OutcomeView::Elapsed).command == (CommandView::Register {
            endpoint: connection.config.register_endpoint,
            content_type: REGISTRATION_CONTENT_TYPE@,
            body: REGISTRATION_BODY@,
        }),
        connection.after(failure).after(OutcomeView::Elapsed).phase is Registering,
{
}

/// A session whose stream URL is no URL fails the attempt as any other
/// failure does; one whose stream URL is a URL has its stream opened.
pub proof fn law_unparsed_url_fails_attempt(
    connection: ConnectionView,
    reply: Result<FieldsView, Seq<char>>,
)
    requires
        connection.phase is Registering,
        registration(reply) is Ok,
    ensures
        parsed_stream_url(registration(reply)) is None ==> connection.reaction(
            OutcomeView::Registered(reply),
        ) == abandoned(
            connection.config,
            ReportView::Connection(ConnectionErrorView::InvalidUrl),
        ).1,
        parsed_stream_url(registration(reply)) is None <==> connection.after(
            OutcomeView::Registered(reply),
        ).phase is Failed,
        parsed_stream_url(registration(reply)) is Some <==> connection.after(
            OutcomeView::Registered(reply),
        ).phase is StreamOpening,
{
}

/// The connection waits exactly when an attempt has failed, and then for
/// the configured delay, with nothing notified and the failure reported.
/// After the wait comes `Connecting`, and nothing but the wait being over
/// or a cancellation ends the wait.
pub proof fn law_waits_only_after_failure(connection: ConnectionView, outcome: OutcomeView)
    ensures
        connection.reaction(outcome).command is Wait <==> connection.after(outcome).phase
            is Failed,
        connection.after(outcome).phase is Failed ==> ({
            &&& connection.reaction(outcome).notification is None
            &&& connection.reaction(outcome).report is Some
            &&& connection.reaction(outcome).command == (CommandView::Wait {
                seconds: connection.config.retry_delay_secs,
            })
            &&& connection.after(outcome).after(OutcomeView::Elapsed).phase is Registering
            &&& connection.after(outcome).reaction(OutcomeView::Elapsed).notification == Some(
                StateChangeView::Connecting,
            )
        }),
        connection.phase is Failed && !(outcome is Elapsed) && !(outcome is Cancelled)
            ==> connection.after(outcome).phase is Failed,
{
}

/// Whether none of the outcomes is a cancellation.
pub open spec fn uncancelled(outcomes: Seq<OutcomeView>) -> bool {
    forall|i: int| 0 <= i < outcomes.len() ==> !(#[trigger] outcomes[i] is Cancelled)
}

/// The connection halts exactly when it is stopped, and without a
/// cancellation it never is: whatever the outcomes, failures or not, it keeps
/// running.
pub proof fn law_never_stops(connection: ConnectionView, outcomes: Seq<OutcomeView>)
    requires
        connection.phase !is Stopped,
        uncancelled(outcomes),
    ensures
        run(connection, outcomes).phase !is Stopped,
        forall|outcome: OutcomeView|
            !(outcome is Cancelled) ==> !(#[trigger] run(connection, outcomes).reaction(
                outcome,
            ).command is Halt),
    decreases outcomes.len(),
{
    if outcomes.len() > 0 {
        assert(!(outcomes[0] is Cancelled));
        assert(uncancelled(outcomes.drop_first())) by {
            assert forall|i: int| 0 <= i < outcomes.drop_first().len() implies !(
            #[trigger] outcomes.drop_first()[i] is Cancelled) by {
                assert(outcomes.drop_first()[i] == outcomes[i + 1]);
            }
        }
        law_never_stops(connection.after(outcomes[0]), outcomes.drop_first());
    }
}

/// However an uncancelled connection got to where it is, a failure has it
/// wait the delay it was made with, and the end of that wait has it notify
/// `Connecting` and register again.
pub proof fn law_every_failure_is_recovered(
    connection: ConnectionView,
    outcomes: Seq<OutcomeView>,
    failure: OutcomeView,
)
    requires
        connection.phase !is Stopped,
        uncancelled(outcomes),
        is_failure(failure),
    ensures
        run(connection, outcomes).reaction(failure).notification is None,
        run(connection, outcomes).reaction(failure).command == (CommandView::Wait {
            seconds: connection.config.retry_delay_secs,
        }),
        run(connection, outcomes + seq![failure, OutcomeView::Elapsed]).phase is Registering,
        notified(run(connection, outcomes), seq![failure, OutcomeView::Elapsed]) == seq![
            StateChangeView::Connecting,
        ],
{
    let reached = run(connection, outcomes);
    law_never_stops(connection, outcomes);
    lemma_config_is_kept(connection, outcomes);
    law_failure_restarts_after_delay(reached, failure);
    let tail = seq![failure, OutcomeView::Elapsed];
    lemma_run_continues(connection, outcomes, tail);
    assert(tail.drop_first() =~= seq![OutcomeView::Elapsed]);
    assert(tail.drop_first().drop_first() =~= Seq::<OutcomeView>::empty());
    assert(run(reached, tail) == reached.after(failure).after(OutcomeView::Elapsed)) by {
        reveal_with_fuel(run, 3);
    }
    assert(notified(reached, tail) =~= seq![StateChangeView::Connecting]) by {
        reveal_with_fuel(notified, 3);
    }
}

/// Whether a name is that of one of the three required fields.
pub open spec fn is_required(name: Seq<char>) -> bool {
    name == "publish_url"@ || name == "websocket_url"@ || name == "secret"@
}

/// A reply that holds the three required fields gives the session with
/// exactly their values, whatever else it holds.
pub proof fn law_complete_reply_gives_session(fields: FieldsView)
    requires
        forall|name: Seq<char>| is_required(name) ==> #[trigger] fields.contains_key(name),
    ensures
        registration(Ok(fields)) == Ok::<SessionView, RegistrationErrorView>(
            SessionView {
                publish_url: fields["publish_url"@],
                websocket_url: fields["websocket_url"@],
                secret: fields["secret"@],
            },
        ),
{
    assert(is_required("publish_url"@));
    assert(is_required("websocket_url"@));
    assert(is_required("secret"@));
}

/// A reply that lacks one of the three required fields, and only that one,
/// gives the error that names it.
pub proof fn law_missing_field_is_named(fields: FieldsView, missing: Seq<char>)
    requires
        is_required(missing),
        forall|name: Seq<char>|
            is_required(name) ==> (#[trigger] fields.contains_key(name) <==> name != missing),
    ensures
        registration(Ok(fields)) == Err::<SessionView, RegistrationErrorView>(
            RegistrationErrorView::MissingField(missing),
        ),
{
    assert(is_required("publish_url"@));
    assert(is_required("websocket_url"@));
    assert(is_required("secret"@));
}

/// A reply that lacks any of the three required fields gives no session.
pub proof fn law_incomplete_reply_gives_no_session(fields: FieldsView, missing: Seq<char>)
    requires
        is_required(missing),
        !fields.contains_key(missing),
    ensures
        registration(Ok(fields)) matches Err(RegistrationErrorView::MissingField(name))
            && is_required(name) && !fields.contains_key(name),
{
}

/// On a live stream the text frame `Next` is notified as the event `Next`,
/// the text frame `Previous` as the event `Previous`, and a frame with any
/// other text is not notified. Either way the connection goes on reading.
pub proof fn law_text_frames(connection: ConnectionView, text: Seq<char>)
    requires
        connection.phase is Connected,
    ensures
        connection.reaction(OutcomeView::Received(Ok(FrameView::Text(text)))).notification == (
        if text == "Next"@ {
            Some(StateChangeView::EventReceived(Event::Next))
        } else if text == "Previous"@ {
            Some(StateChangeView::EventReceived(Event::Previous))
        } else {
            None
        }),
        connection.reaction(OutcomeView::Received(Ok(FrameView::Text(text)))).command
            is Receive,
        connection.after(OutcomeView::Received(Ok(FrameView::Text(text)))).phase is Connected,
{
}

/// A ping is never notified, whatever the connection is doing. On a live
/// stream it is not reported either, and the connection goes on reading.
pub proof fn law_ping_is_silent(connection: ConnectionView)
    ensures
        connection.reaction(OutcomeView::Received(Ok(FrameView::Ping))).notification is None,
        connection.phase is Connected ==> ({
            &&& connection.reaction(OutcomeView::Received(Ok(FrameView::Ping))).report is None
            &&& connection.reaction(OutcomeView::Received(Ok(FrameView::Ping))).command
                is Receive
            &&& connection.after(OutcomeView::Received(Ok(FrameView::Ping))).phase is Connected
        }),
{
}

/// The secret is sent exactly when `Connected` is notified: it is the first
/// frame on every stream, and it is the secret of the session whose URLs
/// the notification carries.
pub proof fn law_secret_is_sent_first(connection: ConnectionView, outcome: OutcomeView)
    ensures
        connection.reaction(outcome).command is Send <==> (connection.reaction(
            outcome,
        ).notification matches Some(notification) && notification is Connected),
        connection.reaction(outcome).command is Send ==> ({
            &&& connection.phase matches PhaseView::StreamOpening { session }
            &&& connection.reaction(outcome).command == (CommandView::Send {
                text: session.secret,
            })
            &&& connection.reaction(outcome).notification == Some(
                (StateChangeView::Connected {
                    websocket_url: session.websocket_url,
                    publish_url: session.publish_url,
                }),
            )
            &&& connection.after(outcome).phase is Authenticating
        }),
        connection.after(outcome).phase is Connected ==> connection.phase is Authenticating
            || connection.phase is Connected,
{
}

/// The outcomes of receiving these frames, one after the other.
pub open spec fn receipts(frames: Seq<FrameView>) -> Seq<OutcomeView> {
    Seq::new(frames.len(), |i: int| OutcomeView::Received(Ok(frames[i])))
}

/// A connection that waits, or has not begun, notifies `Connecting` before
/// anything else, whatever it is told.
pub proof fn lemma_waiting_notifies_connecting_first(
    connection: ConnectionView,
    outcomes: Seq<OutcomeView>,
)
    requires
        connection.phase is Failed || connection.phase is Idle || connection.phase is Stopped,
    ensures
        notified(connection, outcomes).len() > 0 ==> notified(connection, outcomes)[0]
            is Connecting,
    decreases outcomes.len(),
{
    if outcomes.len() > 0 {
        let next = connection.after(outcomes[0]);
        if next.phase is Registering {
            assert(connection.reaction(outcomes[0]).notification == Some(
                StateChangeView::Connecting,
            ));
        } else {
            lemma_waiting_notifies_connecting_first(next, outcomes.drop_first());
        }
    }
}

/// Reading frames keeps a live stream live.
pub proof fn lemma_frames_keep_connected(connection: ConnectionView, frames: Seq<FrameView>)
    requires
        connection.phase is Connected,
    ensures
        run(connection, receipts(frames)).phase is Connected,
        run(connection, receipts(frames)).config == connection.config,
    decreases frames.len(),
{
    if frames.len() > 0 {
        assert(receipts(frames)[0] == OutcomeView::Received(Ok(frames[0])));
        assert(receipts(frames).drop_first() =~= receipts(frames.drop_first()));
        lemma_frames_keep_connected(connection.after(receipts(frames)[0]), frames.drop_first());
    }
}

/// When a live stream fails, after however many frames, the failure itself
/// notifies nothing, and the next notification, whatever the connection is
/// told from then on, is `Connecting`: never an event of the stream that is
/// gone.
pub proof fn law_closure_is_followed_by_connecting(
    connection: ConnectionView,
    frames: Seq<FrameView>,
    error: ConnectionErrorView,
    later: Seq<OutcomeView>,
)
    requires
        connection.phase is Connected,
    ensures
        ({
            let live = run(connection, receipts(frames));
            let closure = OutcomeView::Received(Err(error));
            &&& live.reaction(closure).notification is None
            &&& notified(live.after(closure), later).len() > 0 ==> notified(
                live.after(closure),
                later,
            )[0] is Connecting
        }),
{
    lemma_frames_keep_connected(connection, frames);
    let live = run(connection, receipts(frames));
    lemma_waiting_notifies_connecting_first(live.after(OutcomeView::Received(Err(error))), later);
}

/// Whether a notification may come right after another, or first where there
/// is none before it: `Connecting` anywhere, `Connected` only right after
/// `Connecting`, an event only right after `Connected` or another event.
pub open spec fn may_follow(before: Option<StateChangeView>, notification: StateChangeView) -> bool {
    match notification {
        StateChangeView::Connecting => true,
        StateChangeView::Connected { .. } => before matches Some(previous) && previous
            is Connecting,
        StateChangeView::EventReceived(_) => before matches Some(previous) && (previous
            is Connected || previous is EventReceived),
    }
}

/// Whether each notification of a trace may follow the one before it, the
/// first of them `before`.
pub open spec fn in_order(before: Option<StateChangeView>, trace: Seq<StateChangeView>) -> bool {
    forall|i: int|
        0 <= i < trace.len() ==> may_follow(
            if i == 0 {
                before
            } else {
                Some(trace[i - 1])
            },
            #[trigger] trace[i],
        )
}

/// Whether a phase can be the one that a connection is in when `last` is the
/// notification it gave last.
pub open spec fn agrees(phase: PhaseView, last: Option<StateChangeView>) -> bool {
    match phase {
        PhaseView::Idle => last is None,
        PhaseView::Registering | PhaseView::StreamOpening { .. } => last matches Some(previous)
            && previous is Connecting,
        PhaseView::Authenticating | PhaseView::Connected => last matches Some(previous) && (
        previous is Connected || previous is EventReceived),
        PhaseView::Failed | PhaseView::Stopped => true,
    }
}

/// From a phase that agrees with the last notification, every run notifies in
/// order.
pub proof fn lemma_runs_notify_in_order(
    connection: ConnectionView,
    last: Option<StateChangeView>,
    outcomes: Seq<OutcomeView>,
)
    requires
        agrees(connection.phase, last),
    ensures
        in_order(last, notified(connection, outcomes)),
    decreases outcomes.len(),
{
    if outcomes.len() > 0 {
        let next = connection.after(outcomes[0]);
        let rest = notified(next, outcomes.drop_first());
        match connection.reaction(outcomes[0]).notification {
            Some(notification) => {
                lemma_runs_notify_in_order(next, Some(notification), outcomes.drop_first());
                let trace = seq![notification] + rest;
                assert forall|i: int| 0 <= i < trace.len() implies may_follow(
                    if i == 0 {
                        last
                    } else {
                        Some(trace[i - 1])
                    },
                    #[trigger] trace[i],
                ) by {
                    if i > 0 {
                        assert(trace[i] == rest[i - 1]);
                        if i > 1 {
                            assert(trace[i - 1] == rest[i - 2]);
                        }
                    }
                }
            },
            None => {
                lemma_runs_notify_in_order(next, last, outcomes.drop_first());
            },
        }
    }
}

/// The notifications of a connection, from its making on and whatever it is
/// told, come in order: the first is `Connecting`; `Connected` comes only
/// right after `Connecting`, so never twice in a row; and an event comes only
/// right after `Connected` or another event.
pub proof fn law_notifications_in_order(connection: ConnectionView, outcomes: Seq<OutcomeView>)
    requires
        connection.phase is Idle,
    ensures
        in_order(None, notified(connection, outcomes)),
{
    lemma_runs_notify_in_order(connection, None, outcomes);
}

} // verus!
