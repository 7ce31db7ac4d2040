//! What a client knows about its session, and what it does on each change.
//!
//! The flags here are the ones a client holds between calls: whether it is
//! connected, whether the session is over rather than merely down, and whether
//! the caller has been told it closed. Each function takes what the engine has
//! written down and what the caller's call needs, and answers the next state
//! and what to say.
use vstd::prelude::*;

verus! {

/// No session: before `connect`, after `disconnect`, and after a loss.
pub const DISCONNECTED: i32 = 0;
/// The length of `connect`: claimed before the logon, handed over after it.
pub const CONNECTING: i32 = 1;
/// A session, with its engine running.
pub const CONNECTED: i32 = 2;

/// The protocol level this client implements, the reference client's
/// `MIN_SERVER_VER_ADDITIONAL_ORDER_PARAMS_2`.
pub const PROTOCOL_LEVEL: i32 = 217;

/// What the reference client reports a request made with no session under.
pub const NOT_CONNECTED_CODE: i64 = 504;

/// The code a lost connection is announced under.
pub const CONNECTIVITY_LOST_CODE: i64 = 1100;

/// The code a restored connection is announced under: the subscriptions came
/// back with it, so there is nothing to ask for again.
pub const CONNECTIVITY_RESTORED_CODE: i64 = 1102;

/// Which of the three states a client is in.
pub open spec fn spec_conn_state(
    connected: bool,
    engine_gave_up: bool,
    session_ended: bool,
    holds_session_state: bool,
) -> i32 {
    if !connected || engine_gave_up {
        DISCONNECTED
    } else if session_ended || !holds_session_state {
        CONNECTING
    } else {
        CONNECTED
    }
}

/// Which of `DISCONNECTED`, `CONNECTING` and `CONNECTED` a client is in.
///
/// `connected` is the flag claimed at the top of `connect`;
/// `engine_gave_up` is whether the engine has recorded the session as over;
/// `session_ended` is whether this client has recorded it so; and
/// `holds_session_state` is whether the session's state has been handed over,
/// which happens at the bottom of `connect`.
pub fn conn_state(
    connected: bool,
    engine_gave_up: bool,
    session_ended: bool,
    holds_session_state: bool,
) -> (r: i32)
    ensures
        r == spec_conn_state(connected, engine_gave_up, session_ended, holds_session_state),
        !connected ==> r == DISCONNECTED,
        engine_gave_up ==> r == DISCONNECTED,
        (connected && !engine_gave_up && (session_ended || !holds_session_state)) ==> r == CONNECTING,
        (connected && !engine_gave_up && !session_ended && holds_session_state) ==> r == CONNECTED,
{
    if !connected || engine_gave_up {
        DISCONNECTED
    } else if session_ended || !holds_session_state {
        CONNECTING
    } else {
        CONNECTED
    }
}

/// Whether there is a session to make requests on: the flag is up and the
/// engine has not given the session up, whatever the flag still says.
pub fn is_connected(connected: bool, engine_gave_up: bool) -> (r: bool)
    ensures
        r == (connected && !engine_gave_up),
{
    connected && !engine_gave_up
}

/// The protocol level, stated only while there is a session.
pub fn server_version(connected: bool) -> (r: Option<i32>)
    ensures
        r == (if connected { Some(PROTOCOL_LEVEL) } else { None::<i32> }),
{
    if connected { Some(PROTOCOL_LEVEL) } else { None }
}

/// The refusal of a `connect` given the client id under both spellings.
pub fn both_spellings_refusal() -> (r: String)
    ensures
        r@ == "connect() was given the client id under both spellings, client_id and clientId"@,
{
    String::from_str("connect() was given the client id under both spellings, client_id and clientId")
}

/// The client id, given under this client's spelling (`client_id`, zero when
/// not given) or the reference client's (`reference_spelling`). Given under
/// both, the caller has said two things, and is told so rather than having
/// one of them picked.
pub fn client_id_under_either_spelling(client_id: i32, reference_spelling: Option<i32>) -> (r: Result<i32, String>)
    ensures
        match reference_spelling {
            Some(id) => if client_id != 0 {
                r matches Err(why) && why@ == "connect() was given the client id under both spellings, client_id and clientId"@
            } else {
                r == Ok::<i32, String>(id)
            },
            None => r == Ok::<i32, String>(client_id),
        },
{
    match reference_spelling {
        Some(_) if client_id != 0 => Err(both_spellings_refusal()),
        Some(id) => Ok(id),
        None => Ok(client_id),
    }
}

/// Whether a request goes out on the engine's channel, or is answered on the
/// error callback under `NOT_CONNECTED_CODE` instead.
///
/// A channel outlives the session it was made for, so a channel that is there
/// carries nothing once the engine has given up what it serves.
pub fn request_goes_out(holds_channel: bool, given_up: bool) -> (r: bool)
    ensures
        r == (holds_channel && !given_up),
{
    holds_channel && !given_up
}

/// The text a request is refused with when there is no session to carry it,
/// reported on the error callback under `NOT_CONNECTED_CODE`.
pub fn not_connected_text() -> (r: &'static str)
    ensures
        r@ == "Not connected"@,
{
    "Not connected"
}

/// What a request made now is answered with on the error callback, where it
/// does not go out: `NOT_CONNECTED_CODE` and "Not connected". `None` where it
/// goes out on the engine's channel.
pub fn request_refusal(holds_channel: bool, given_up: bool) -> (r: Option<(i64, &'static str)>)
    ensures
        !(holds_channel && !given_up) ==> (r matches Some((code, text))
            && code == NOT_CONNECTED_CODE && text@ == "Not connected"@),
        (holds_channel && !given_up) ==> r is None,
{
    if request_goes_out(holds_channel, given_up) {
        None
    } else {
        Some((NOT_CONNECTED_CODE, not_connected_text()))
    }
}

/// Whether the caller has been told its session closed.
#[derive(Debug)]
pub struct ClosingNotice {
    pub told: bool,
}

impl ClosingNotice {
    /// A session that has not been announced closed.
    pub fn new() -> (r: Self)
        ensures
            !r.told,
    {
        ClosingNotice { told: false }
    }

    /// Whether to tell the caller now that its session closed: once, the
    /// first time it is asked after the session ended, however the caller
    /// drives its dispatch.
    pub fn tell_now(&mut self, session_ended: bool) -> (tell: bool)
        ensures
            tell == (session_ended && !old(self).told),
            final(self).told == (old(self).told || session_ended),
    {
        let tell = session_ended && !self.told;
        if session_ended {
            self.told = true;
        }
        tell
    }
}

/// The caller is told its session closed at most once: after a call that
/// told it, no later call tells it again, whatever it is asked with.
pub proof fn law_close_is_told_once(told: bool, first_ended: bool, second_ended: bool)
    ensures
        ({
            let tell1 = first_ended && !told;
            let told1 = told || first_ended;
            let tell2 = second_ended && !told1;
            !(tell1 && tell2)
        }),
{
}

/// The two flags a client holds about its connection.
#[derive(Clone, Copy, Debug, PartialEq, Eq)]
pub struct Link {
    /// Whether a request made now would reach the venue.
    pub connected: bool,
    /// Whether the session is finished rather than merely down.
    pub session_ended: bool,
}

/// What a dispatch pass observed, taken before any callback of it runs.
#[derive(Clone, Copy, Debug, PartialEq, Eq)]
pub struct PassObservations {
    /// The engine recorded the connection as lost since the last pass.
    pub went: bool,
    /// The engine recorded the connection as restored since the last pass.
    pub came_back: bool,
    /// A loss was announced on the event channel.
    pub disconnected_event: bool,
    /// The engine announced it stopped, as it does when the caller ended the
    /// session.
    pub stopped_event: bool,
    /// A restore was announced on the event channel.
    pub reconnected_event: bool,
    /// The engine has recorded why the session is over.
    pub session_over: bool,
}

/// What a dispatch pass does about the connection.
#[derive(Clone, Copy, Debug, PartialEq, Eq)]
pub struct PassOutcome {
    /// The flags after the pass.
    pub link: Link,
    /// Announce the loss under `CONNECTIVITY_LOST_CODE`.
    pub announce_lost: bool,
    /// Announce the restore under `CONNECTIVITY_RESTORED_CODE`.
    pub announce_restored: bool,
    /// Drop the option questions kept for this session: it is finished.
    pub forget_kept_questions: bool,
}

/// The flags after the recorded transitions: a restore recorded since the
/// last pass brings the connection up, and a loss with no restore behind it
/// takes it down.
pub open spec fn after_transitions(connected: bool, went: bool, came_back: bool) -> bool {
    came_back || (connected && !went)
}

/// The flags and announcements a pass makes, for a
/// pass whose callbacks do not themselves connect or disconnect.
pub open spec fn spec_pass(link: Link, seen: PassObservations) -> PassOutcome {
    let connected0 = after_transitions(link.connected, seen.went, seen.came_back);
    let down_now = seen.went && !seen.came_back;
    let ended1 = link.session_ended || (seen.disconnected_event && seen.session_over);
    let connected1 = connected0 && !seen.disconnected_event;
    let ended2 = ended1 || seen.stopped_event;
    let connected2 = connected1 && !seen.stopped_event;
    let finish_now = !ended2 && seen.session_over;
    let ended3 = ended2 || finish_now;
    let connected3 = connected2 && !finish_now;
    let connected4 = connected3 || (seen.reconnected_event && !down_now);
    PassOutcome {
        link: Link { connected: connected4, session_ended: ended3 },
        announce_lost: seen.disconnected_event,
        announce_restored: seen.reconnected_event,
        forget_kept_questions: (seen.disconnected_event && seen.session_over) || finish_now,
    }
}

/// A client whose connection flag is down, or whose engine has given the
/// session up, reads `DISCONNECTED`; one that is up reads `CONNECTED` only once
/// the session's state is held and the session has not ended, and
/// `CONNECTING` otherwise.
pub proof fn law_conn_state_follows_the_flags(connected: bool, engine_gave_up: bool, session_ended: bool, holds_session_state: bool)
    ensures
        !connected ==> spec_conn_state(connected, engine_gave_up, session_ended, holds_session_state) == DISCONNECTED,
        engine_gave_up ==> spec_conn_state(connected, engine_gave_up, session_ended, holds_session_state) == DISCONNECTED,
        (spec_conn_state(connected, engine_gave_up, session_ended, holds_session_state) == CONNECTED)
            <==> (connected && !engine_gave_up && !session_ended && holds_session_state),
        (spec_conn_state(connected, engine_gave_up, session_ended, holds_session_state) == CONNECTING)
            <==> (connected && !engine_gave_up && (session_ended || !holds_session_state)),
{
}

/// A pass announces on the error callback exactly what its event channel
/// carried: a loss announced there is announced as lost (1100), and a restore
/// as restored (1102), whatever the recorded flags say.
pub proof fn law_a_pass_announces_what_the_channel_carried(link: Link, seen: PassObservations)
    ensures
        spec_pass(link, seen).announce_lost == seen.disconnected_event,
        spec_pass(link, seen).announce_restored == seen.reconnected_event,
        seen.disconnected_event ==> !spec_pass(link, seen).link.connected || seen.reconnected_event,
{
}

/// The first step of a pass: the transitions the engine wrote down, and the
/// loss announced on the channel.
///
/// The flags are changed before the loss is announced, so a handler that
/// answers it by connecting again is not overwritten afterwards.
pub fn on_loss(link: Link, went: bool, came_back: bool, disconnected_event: bool, session_over: bool) -> (r: (Link, bool))
    ensures
        r.0.connected == (after_transitions(link.connected, went, came_back) && !disconnected_event),
        r.0.session_ended == (link.session_ended || (disconnected_event && session_over)),
        r.1 == (disconnected_event && session_over),
{
    let mut connected = link.connected;
    if went {
        connected = false;
    }
    if came_back {
        connected = true;
    }
    let mut ended = link.session_ended;
    let mut forget = false;
    if disconnected_event {
        connected = false;
        if session_over {
            ended = true;
            forget = true;
        }
    }
    (Link { connected, session_ended: ended }, forget)
}

/// The second step: a session the caller ended, and a session the engine
/// recorded as over while its notice was lost, end here. `still_current` is
/// whether the session this pass began with is the one the client holds now.
pub fn on_end(link: Link, stopped_event: bool, still_current: bool, session_over: bool) -> (r: (Link, bool))
    ensures
        ({
            let ended = link.session_ended || stopped_event;
            let finish = still_current && !ended && session_over;
            &&& r.0.session_ended == (ended || finish)
            &&& r.0.connected == (link.connected && !stopped_event && !finish)
            &&& r.1 == finish
        }),
{
    let mut connected = link.connected;
    let mut ended = link.session_ended;
    if stopped_event {
        connected = false;
        ended = true;
    }
    let mut forget = false;
    if still_current && !ended && session_over {
        connected = false;
        ended = true;
        forget = true;
    }
    (Link { connected, session_ended: ended }, forget)
}

/// The third step: a restore announced on the channel brings the connection
/// up unless the recorded transitions say it went down again behind it.
pub fn on_restore(link: Link, reconnected_event: bool, went: bool, came_back: bool) -> (r: Link)
    ensures
        r.session_ended == link.session_ended,
        r.connected == (link.connected || (reconnected_event && !(went && !came_back))),
{
    let down_now = went && !came_back;
    let mut connected = link.connected;
    if reconnected_event && !down_now {
        connected = true;
    }
    Link { connected, session_ended: link.session_ended }
}

/// A whole pass whose callbacks leave the session alone: the three steps in
/// the order a pass makes them.
pub fn connection_pass(link: Link, seen: &PassObservations) -> (r: PassOutcome)
    ensures
        r == spec_pass(link, *seen),
        r.announce_lost == seen.disconnected_event,
        r.announce_restored == seen.reconnected_event,
{
    let (l1, forget1) = on_loss(link, seen.went, seen.came_back, seen.disconnected_event, seen.session_over);
    let (l2, forget2) = on_end(l1, seen.stopped_event, true, seen.session_over);
    let l3 = on_restore(l2, seen.reconnected_event, seen.went, seen.came_back);
    PassOutcome {
        link: l3,
        announce_lost: seen.disconnected_event,
        announce_restored: seen.reconnected_event,
        forget_kept_questions: forget1 || forget2,
    }
}

/// A restore still queued behind a loss the engine recorded after it is not
/// read as the state: a pass that sees the connection went and did not come
/// back leaves the client disconnected, whatever its channel still holds.
pub proof fn law_a_restore_in_the_backlog_is_not_the_state(link: Link, seen: PassObservations)
    requires
        seen.went,
        !seen.came_back,
    ensures
        !spec_pass(link, seen).link.connected,
{
}

/// The recorded transitions are read without their notices: with nothing on
/// the channel, a recorded loss leaves the client disconnected and a recorded
/// restore leaves it connected, unless the session is over.
pub proof fn law_transitions_are_read_without_the_notice(link: Link, seen: PassObservations)
    requires
        !seen.disconnected_event,
        !seen.stopped_event,
        !seen.reconnected_event,
        !seen.session_over,
    ensures
        spec_pass(link, seen).link.connected == after_transitions(link.connected, seen.went, seen.came_back),
        spec_pass(link, seen).link.session_ended == link.session_ended,
{
}

/// A pass never reopens a finished session: once over, it stays over, and a
/// session the engine records as over is finished by the pass that sees it.
pub proof fn law_an_ended_session_stays_ended(link: Link, seen: PassObservations)
    ensures
        link.session_ended ==> spec_pass(link, seen).link.session_ended,
        seen.session_over ==> spec_pass(link, seen).link.session_ended,
{
}

/// Texts joined with a separator between each two.
pub open spec fn joined(list: Seq<Seq<char>>, sep: Seq<char>) -> Seq<char>
    decreases list.len(),
{
    if list.len() == 0 {
        Seq::empty()
    } else if list.len() == 1 {
        list[0]
    } else {
        joined(list.drop_last(), sep) + sep + list.last()
    }
}

/// Texts joined with a comma between each two.
pub fn comma_joined(list: &Vec<String>) -> (r: String)
    ensures
        r@ == joined(list@.map_values(|a: String| a@), ","@),
{
    let ghost names = list@.map_values(|a: String| a@);
    let mut r = String::new();
    let mut i: usize = 0;
    while i < list.len()
        invariant
            i <= list.len(),
            names == list@.map_values(|a: String| a@),
            r@ == joined(names.take(i as int), ","@),
        decreases list.len() - i,
    {
        assert(names.take(i + 1).drop_last() =~= names.take(i as int));
        assert(names.take(i + 1).last() == list@[i as int]@);
        if i != 0 {
            r.append(",");
        } else {
            assert(names.take(1) =~= seq![list@[0]@]);
            assert(r@ =~= Seq::<char>::empty());
        }
        r.append(list[i].as_str());
        proof {
            if i == 0 {
                assert(r@ =~= joined(names.take(1), ","@));
            }
        }
        i = i + 1;
    }
    assert(names.take(list.len() as int) =~= names);
    r
}

/// Every account this login holds, comma separated, which is the shape the
/// reference client answers `managed_accounts` in; the default account where
/// the login named none.
pub fn accounts_csv(accounts: &Vec<String>, default_account: &str) -> (r: String)
    ensures
        accounts.len() == 0 ==> r@ == default_account@,
        accounts.len() > 0 ==> r@ == joined(accounts@.map_values(|a: String| a@), ","@),
{
    if accounts.len() == 0 {
        return String::from_str(default_account);
    }
    comma_joined(accounts)
}

/// The factor a second-factor challenge asks for, as the label the caller's
/// code provider is handed: a code shown on a key, or an authenticator's.
pub fn factor_label(asks_for_key_response: bool) -> (r: &'static str)
    ensures
        asks_for_key_response ==> r@ == "ibkey"@,
        !asks_for_key_response ==> r@ == "authenticator"@,
{
    if asks_for_key_response { "ibkey" } else { "authenticator" }
}

} // verus!
