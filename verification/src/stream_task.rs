//! The background task of a stream: when to connect, when to try again and when to give up.

use crate::connection_state::{ConnectionState, ConnectionStatus};
use crate::error::ClientError;
use crate::streaming_client::{resubscription_texts, StreamState, StreamingClient};
use crate::text::texts;
use vstd::arithmetic::power2::{lemma2_to64, lemma_pow2_unfold, pow2};
use vstd::prelude::*;

verus! {

/// How often a connection that was lost is tried again before it is given up.
pub const MAX_RECONNECT_ATTEMPTS: u32 = 5;

/// Where a background task stands.
#[derive(Debug)]
pub struct StreamTask {
    pub api_key: String,
    pub session_token: String,
    /// Whether the first connection is not up yet.
    pub first_start: bool,
    /// How often the connection has been tried again since it was last up.
    pub reconnect_attempt: u32,
    /// Whether a connection that was lost is made again.
    pub enable_reconnection: bool,
}

/// What happens to a background task.
#[derive(Debug)]
pub enum StreamEvent {
    /// It begins.
    Begun,
    /// A wait is over.
    Waited,
    /// The connection is up.
    Connected,
    /// The connection could not be made, for a reason.
    ConnectFailed(String),
    /// Messages can be sent. The time is in milliseconds; the text is the JSON form of the order
    /// filter, where it has one.
    SenderReady(u128, Option<String>),
    /// Messages cannot be sent.
    SenderMissing,
    /// The stream has ended.
    ListenEnded,
    /// It is to stop, whatever it is doing.
    Stopped,
}

/// What a background task is to do next.
#[derive(Debug)]
pub enum StreamAction {
    /// Make the connection.
    Connect,
    /// Wait for so many seconds.
    Wait(u64),
    /// Find out whether messages can be sent.
    FindSender,
    /// Send the messages in order, say that the stream has started where that is asked for, and
    /// listen until the stream ends.
    Listen(Vec<String>, bool),
    /// Say that the stream could not be started, and end.
    Abort(ClientError),
    /// End.
    Exit,
}

/// What `StreamTask` stands for.
#[verifier::ext_equal]
pub struct TaskState {
    pub api_key: Seq<char>,
    pub session_token: Seq<char>,
    pub first_start: bool,
    pub attempt: nat,
    pub reconnects: bool,
}

/// What `StreamAction` stands for. An error is given by its wording.
#[verifier::ext_equal]
pub enum Action {
    Connect,
    Wait(nat),
    FindSender,
    Listen(Seq<Seq<char>>, bool),
    Abort(Seq<char>),
    Exit,
}

/// A background task with the client that it serves and with what it is to do next.
#[verifier::ext_equal]
pub struct Situation {
    pub task: TaskState,
    pub client: StreamState,
    pub action: Action,
}

impl View for StreamTask {
    type V = TaskState;

    open spec fn view(&self) -> TaskState {
        TaskState {
            api_key: self.api_key@,
            session_token: self.session_token@,
            first_start: self.first_start,
            attempt: self.reconnect_attempt as nat,
            reconnects: self.enable_reconnection,
        }
    }
}

impl View for StreamAction {
    type V = Action;

    open spec fn view(&self) -> Action {
        match self {
            StreamAction::Connect => Action::Connect,
            StreamAction::Wait(seconds) => Action::Wait(*seconds as nat),
            StreamAction::FindSender => Action::FindSender,
            StreamAction::Listen(messages, ready) => Action::Listen(texts(messages@), *ready),
            StreamAction::Abort(error) => Action::Abort(error.wording()),
            StreamAction::Exit => Action::Exit,
        }
    }
}

/// The seconds to wait before an attempt: two to the power of its number, which counts as five
/// at most.
pub open spec fn backoff(attempt: nat) -> nat {
    if attempt < 5 {
        pow2(attempt)
    } else {
        pow2(5)
    }
}

/// The wording of a connection that was given up.
pub open spec fn gave_up() -> Seq<char> {
    "Max reconnection attempts exceeded"@
}

/// How a round begins. The first connection is made at once. One that was lost is made again
/// after a wait, at most five times in a row, if that is wanted at all.
pub open spec fn round(task: TaskState, client: StreamState) -> Situation {
    if task.first_start {
        Situation {
            task,
            client: StreamState { connection_state: ConnectionStatus::Connecting, ..client },
            action: Action::Connect,
        }
    } else if !task.reconnects {
        Situation { task, client, action: Action::Exit }
    } else if task.attempt >= MAX_RECONNECT_ATTEMPTS {
        Situation {
            task,
            client: StreamState { connection_state: ConnectionStatus::Failed(gave_up()), ..client },
            action: Action::Exit,
        }
    } else {
        Situation {
            task: TaskState { attempt: task.attempt + 1, ..task },
            client: StreamState {
                connection_state: ConnectionStatus::Reconnecting,
                reconnect_attempts: (task.attempt + 1) as u32,
                ..client
            },
            action: Action::Wait(backoff(task.attempt + 1)),
        }
    }
}

/// A client whose connection is down.
pub open spec fn disconnected(client: StreamState) -> StreamState {
    StreamState {
        is_connected: false,
        connection_state: ConnectionStatus::Disconnected,
        ..client
    }
}

/// What follows from a connection that cannot be used, and so counts as down: the end where it is
/// the first one, and the next round otherwise.
pub open spec fn unusable(task: TaskState, client: StreamState, wording: Seq<char>) -> Situation {
    if task.first_start {
        Situation { task, client: disconnected(client), action: Action::Abort(wording) }
    } else {
        round(task, disconnected(client))
    }
}

/// What follows from an event.
pub open spec fn after_event(
    task: TaskState,
    client: StreamState,
    event: StreamEvent,
) -> Situation {
    match event {
        StreamEvent::Begun => round(task, client),
        StreamEvent::Waited => Situation {
            task,
            client: StreamState { connection_state: ConnectionStatus::Connecting, ..client },
            action: Action::Connect,
        },
        StreamEvent::Connected => Situation {
            task: TaskState {
                attempt: if task.first_start {
                    task.attempt
                } else {
                    0
                },
                ..task
            },
            client: StreamState {
                is_connected: true,
                connection_state: ConnectionStatus::Connected,
                reconnect_attempts: if task.first_start {
                    client.reconnect_attempts
                } else {
                    0
                },
                ..client
            },
            action: Action::FindSender,
        },
        StreamEvent::ConnectFailed(error) => unusable(
            task,
            client,
            "Connection failed: "@ + error@,
        ),
        StreamEvent::SenderMissing => unusable(task, client, "Message sender not available"@),
        StreamEvent::SenderReady(now_millis, filter_json) => Situation {
            task: TaskState { first_start: false, ..task },
            client,
            action: Action::Listen(
                if task.first_start {
                    Seq::empty()
                } else {
                    resubscription_texts(client, now_millis, filter_json)
                },
                task.first_start,
            ),
        },
        StreamEvent::ListenEnded => {
            if task.reconnects {
                round(task, disconnected(client))
            } else {
                Situation { task, client: disconnected(client), action: Action::Exit }
            }
        },
        StreamEvent::Stopped => Situation {
            task,
            client: disconnected(client),
            action: Action::Exit,
        },
    }
}

fn backoff_seconds(attempt: u32) -> (seconds: u64)
    ensures
        seconds == backoff(attempt as nat),
{
    let bounded: u32 = if attempt < 5 {
        attempt
    } else {
        5
    };
    proof {
        lemma2_to64();
    }
    let mut seconds: u64 = 1;
    let mut i: u32 = 0;
    while i < bounded
        invariant
            i <= bounded <= 5,
            seconds == pow2(i as nat),
            pow2(0) == 1,
            pow2(1) == 2,
            pow2(2) == 4,
            pow2(3) == 8,
            pow2(4) == 16,
        decreases bounded - i,
    {
        proof {
            lemma_pow2_unfold((i + 1) as nat);
            assert(i == 0 || i == 1 || i == 2 || i == 3 || i == 4);
        }
        seconds = seconds * 2;
        i = i + 1;
    }
    seconds
}

/// Notes that the connection is down.
fn note_disconnected(client: &mut StreamingClient)
    ensures
        final(client)@ == disconnected(old(client)@),
{
    client.is_connected = false;
    client.connection_state = ConnectionState::Disconnected;
}

impl StreamTask {
    /// Begins a round.
    fn next_round(&mut self, client: &mut StreamingClient) -> (action: StreamAction)
        ensures
            (Situation { task: final(self)@, client: final(client)@, action: action@ }) == round(
                old(self)@,
                old(client)@,
            ),
    {
        if self.first_start {
            client.connection_state = ConnectionState::Connecting;
            return StreamAction::Connect;
        }
        if !self.enable_reconnection {
            return StreamAction::Exit;
        }
        if self.reconnect_attempt >= MAX_RECONNECT_ATTEMPTS {
            let reason = "Max reconnection attempts exceeded".to_string();
            client.connection_state = ConnectionState::Failed(reason);
            return StreamAction::Exit;
        }
        self.reconnect_attempt = self.reconnect_attempt + 1;
        client.connection_state = ConnectionState::Reconnecting;
        client.reconnect_attempts = self.reconnect_attempt;
        StreamAction::Wait(backoff_seconds(self.reconnect_attempt))
    }

    /// Gives up a connection that cannot be used.
    fn give_up_connection(&mut self, client: &mut StreamingClient, error: ClientError) -> (action:
        StreamAction)
        ensures
            (Situation { task: final(self)@, client: final(client)@, action: action@ })
                == unusable(old(self)@, old(client)@, error.wording()),
    {
        note_disconnected(client);
        if self.first_start {
            StreamAction::Abort(error)
        } else {
            self.next_round(client)
        }
    }

    /// Takes an event in, and says what to do next.
    pub fn step(
        &mut self,
        client: &mut StreamingClient,
        event: StreamEvent,
    ) -> (action: StreamAction)
        ensures
            (Situation { task: final(self)@, client: final(client)@, action: action@ })
                == after_event(old(self)@, old(client)@, event),
    {
        match event {
            StreamEvent::Begun => self.next_round(client),
            StreamEvent::Waited => {
                client.connection_state = ConnectionState::Connecting;
                StreamAction::Connect
            },
            StreamEvent::Connected => {
                client.is_connected = true;
                client.connection_state = ConnectionState::Connected;
                if !self.first_start {
                    self.reconnect_attempt = 0;
                    client.reconnect_attempts = 0;
                }
                StreamAction::FindSender
            },
            StreamEvent::ConnectFailed(error) => {
                self.give_up_connection(client, ClientError::ConnectionFailed { error })
            },
            StreamEvent::SenderMissing => {
                self.give_up_connection(client, ClientError::NoMessageSender)
            },
            StreamEvent::SenderReady(now_millis, filter_json) => {
                if self.first_start {
                    self.first_start = false;
                    let messages: Vec<String> = Vec::new();
                    proof {
                        assert(texts(messages@) =~= Seq::empty());
                    }
                    StreamAction::Listen(messages, true)
                } else {
                    StreamAction::Listen(
                        client.resubscription_messages(now_millis, filter_json),
                        false,
                    )
                }
            },
            StreamEvent::ListenEnded => {
                note_disconnected(client);
                if self.enable_reconnection {
                    self.next_round(client)
                } else {
                    StreamAction::Exit
                }
            },
            StreamEvent::Stopped => {
                note_disconnected(client);
                StreamAction::Exit
            },
        }
    }
}

/// The situation after the stream of a task has ended and `errors.len()` attempts to connect have
/// failed after it, each after its wait.
pub open spec fn after_failures(
    task: TaskState,
    client: StreamState,
    errors: Seq<String>,
) -> Situation
    decreases errors.len(),
{
    if errors.len() == 0 {
        after_event(task, client, StreamEvent::ListenEnded)
    } else {
        let before = after_failures(task, client, errors.drop_last());
        let tried = after_event(before.task, before.client, StreamEvent::Waited);
        after_event(tried.task, tried.client, StreamEvent::ConnectFailed(errors.last()))
    }
}

/// A stream that ends after it was up is connected to again after two seconds. Every attempt that
/// fails doubles the wait, and the fifth that fails is the last: the stream is then given up.
pub proof fn law_five_attempts(task: TaskState, client: StreamState, errors: Seq<String>)
    requires
        task.reconnects,
        !task.first_start,
        task.attempt == 0,
        errors.len() <= 5,
    ensures
        errors.len() < 5 ==> after_failures(task, client, errors).action == Action::Wait(
            pow2((errors.len() + 1) as nat),
        ) && after_failures(task, client, errors).client.connection_state
            == ConnectionStatus::Reconnecting && after_failures(
            task,
            client,
            errors,
        ).client.reconnect_attempts == errors.len() + 1,
        errors.len() == 5 ==> after_failures(task, client, errors).action == Action::Exit
            && after_failures(task, client, errors).client.connection_state
            == ConnectionStatus::Failed(gave_up()),
        !after_failures(task, client, errors).client.is_connected,
        after_failures(task, client, errors).task == (TaskState {
            attempt: if errors.len() < 5 {
                (errors.len() + 1) as nat
            } else {
                5
            },
            ..task
        }),
    decreases errors.len(),
{
    if errors.len() > 0 {
        law_five_attempts(task, client, errors.drop_last());
    }
}

/// No event takes the count of attempts above five.
pub proof fn law_attempts_bounded(task: TaskState, client: StreamState, event: StreamEvent)
    requires
        task.attempt <= MAX_RECONNECT_ATTEMPTS,
    ensures
        after_event(task, client, event).task.attempt <= MAX_RECONNECT_ATTEMPTS,
{
}

/// A wait lasts for two seconds at least and for thirty-two at most.
pub proof fn law_wait_bounds(task: TaskState, client: StreamState, event: StreamEvent)
    ensures
        after_event(task, client, event).action matches Action::Wait(seconds) ==> 2 <= seconds
            <= 32,
{
    lemma2_to64();
}

/// A first connection that cannot be used is not tried again, and counts as down.
pub proof fn law_first_failure_aborts(task: TaskState, client: StreamState, error: String)
    requires
        task.first_start,
    ensures
        after_event(task, client, StreamEvent::ConnectFailed(error)).action is Abort,
        after_event(task, client, StreamEvent::ConnectFailed(error)).client == disconnected(client),
        after_event(task, client, StreamEvent::SenderMissing).action is Abort,
        after_event(task, client, StreamEvent::SenderMissing).client == disconnected(client),
{
}

/// A client counts as connected only while a connection is in use. No task waits, connects or ends
/// with a client that counts as connected, where it was not so when the task began or its wait was
/// over. A connection that comes up makes the client count as connected.
pub proof fn law_connected_only_in_use(task: TaskState, client: StreamState, event: StreamEvent)
    requires
        event is Begun || event is Waited ==> !client.is_connected,
    ensures
        ({
            let after = after_event(task, client, event);
            &&& after.client.connection_state == ConnectionStatus::Connected
                && client.connection_state != ConnectionStatus::Connected
                ==> after.client.is_connected
            &&& after.action is Wait || after.action is Connect || after.action is Abort
                || after.action is Exit ==> !after.client.is_connected
        }),
{
    match event {
        StreamEvent::Begun => {},
        StreamEvent::Waited => {},
        StreamEvent::Connected => {},
        StreamEvent::ConnectFailed(_) => {},
        StreamEvent::SenderReady(_, _) => {},
        StreamEvent::SenderMissing => {},
        StreamEvent::ListenEnded => {},
        StreamEvent::Stopped => {},
    }
}

/// A task that is not to reconnect never waits and never connects a second time.
pub proof fn law_no_reconnection(task: TaskState, client: StreamState, event: StreamEvent)
    requires
        !task.reconnects,
        !task.first_start,
        event is Begun || event is ConnectFailed || event is SenderMissing || event is ListenEnded,
    ensures
        after_event(task, client, event).action is Exit,
{
}

/// A task that is stopped ends, whatever it was doing and whether or not it is to reconnect, and
/// the client it serves is then not connected.
pub proof fn law_stop_ends(task: TaskState, client: StreamState)
    ensures
        after_event(task, client, StreamEvent::Stopped).action is Exit,
        !after_event(task, client, StreamEvent::Stopped).client.is_connected,
        after_event(task, client, StreamEvent::Stopped).client.connection_state
            == ConnectionStatus::Disconnected,
{
}

/// A stream that is listened to right after its connection came up counts as connected, with no
/// attempts against it where it was lost before.
pub proof fn law_listening_is_connected(
    task: TaskState,
    client: StreamState,
    now_millis: u128,
    filter_json: Option<String>,
)
    ensures
        ({
            let up = after_event(task, client, StreamEvent::Connected);
            let listening = after_event(
                up.task,
                up.client,
                StreamEvent::SenderReady(now_millis, filter_json),
            );
            &&& listening.action is Listen
            &&& listening.client.is_connected
            &&& listening.client.connection_state == ConnectionStatus::Connected
            &&& !listening.task.first_start
            &&& !task.first_start ==> listening.task.attempt == 0
            &&& !task.first_start ==> listening.client.reconnect_attempts == 0
        }),
{
}

/// No event of the background task touches subscriptions, prices, orders or the session.
pub proof fn law_events_keep_subscriptions(
    task: TaskState,
    client: StreamState,
    event: StreamEvent,
)
    ensures
        ({
            let after = after_event(task, client, event).client;
            after == (StreamState {
                is_connected: after.is_connected,
                connection_state: after.connection_state,
                reconnect_attempts: after.reconnect_attempts,
                ..client
            })
        }),
{
}

/// The waits double from two seconds on, and stay at thirty-two from the fifth attempt on.
pub proof fn law_waits_double(attempt: nat)
    ensures
        backoff(1) == 2,
        1 <= attempt < 5 ==> backoff(attempt + 1) == 2 * backoff(attempt),
        attempt >= 5 ==> backoff(attempt) == 32,
        MAX_RECONNECT_ATTEMPTS == 5,
{
    lemma2_to64();
    lemma_pow2_unfold(attempt + 1);
}

/// A task that begins connects at once, and says so.
pub proof fn law_first_connection(task: TaskState, client: StreamState)
    requires
        task.first_start,
    ensures
        after_event(task, client, StreamEvent::Begun).action is Connect,
        after_event(task, client, StreamEvent::Begun).task == task,
        after_event(task, client, StreamEvent::Begun).client == (StreamState {
            connection_state: ConnectionStatus::Connecting,
            ..client
        }),
{
}

/// A wait that is over is followed by an attempt to connect, and by nothing else.
pub proof fn law_attempt_after_wait(task: TaskState, client: StreamState)
    ensures
        after_event(task, client, StreamEvent::Waited).action is Connect,
        after_event(task, client, StreamEvent::Waited).task == task,
        after_event(task, client, StreamEvent::Waited).client == (StreamState {
            connection_state: ConnectionStatus::Connecting,
            ..client
        }),
{
}

/// A connection that is up counts as connected. One that was lost before has no attempts against
/// it any more, and the first one leaves the count alone.
pub proof fn law_connection_is_up(task: TaskState, client: StreamState)
    ensures
        ({
            let up = after_event(task, client, StreamEvent::Connected);
            &&& up.action is FindSender
            &&& up.client.is_connected
            &&& up.client.connection_state == ConnectionStatus::Connected
            &&& !task.first_start ==> up.task.attempt == 0 && up.client.reconnect_attempts == 0
            &&& task.first_start ==> up.task.attempt == task.attempt
                && up.client.reconnect_attempts == client.reconnect_attempts
            &&& up.task == (TaskState { attempt: up.task.attempt, ..task })
            &&& up.client == (StreamState {
                is_connected: up.client.is_connected,
                connection_state: up.client.connection_state,
                reconnect_attempts: up.client.reconnect_attempts,
                ..client
            })
        }),
{
}

/// A first connection that messages can be sent on is listened to without a message, with word
/// that streaming has started.
pub proof fn law_first_start_is_announced(
    task: TaskState,
    client: StreamState,
    now_millis: u128,
    filter_json: Option<String>,
)
    requires
        task.first_start,
    ensures
        ({
            let listening = after_event(
                task,
                client,
                StreamEvent::SenderReady(now_millis, filter_json),
            );
            &&& listening.action is Listen
            &&& listening.action->Listen_0.len() == 0
            &&& listening.action->Listen_1
            &&& listening.task == (TaskState { first_start: false, ..task })
            &&& listening.client == client
        }),
{
}

/// A first connection that cannot be used ends the task with the reason in words, and leaves the
/// client disconnected.
pub proof fn law_first_failure_is_worded(task: TaskState, client: StreamState, error: String)
    requires
        task.first_start,
    ensures
        ({
            let failed = after_event(task, client, StreamEvent::ConnectFailed(error));
            let missing = after_event(task, client, StreamEvent::SenderMissing);
            &&& failed.action == Action::Abort("Connection failed: "@ + error@)
            &&& missing.action == Action::Abort("Message sender not available"@)
            &&& failed.task == task
            &&& missing.task == task
            &&& !failed.client.is_connected
            &&& failed.client.connection_state == ConnectionStatus::Disconnected
            &&& missing.client == failed.client
            &&& failed.client == (StreamState {
                is_connected: false,
                connection_state: ConnectionStatus::Disconnected,
                ..client
            })
        }),
{
}

/// A stream that was up and is lost is tried again while fewer than five attempts have failed, each
/// after its wait and counted as one more. After five it is given up, and where it is not to be
/// made again the task just ends. Either way the client is not connected.
pub proof fn law_lost_stream(task: TaskState, client: StreamState)
    requires
        !task.first_start,
    ensures
        ({
            let lost = after_event(task, client, StreamEvent::ListenEnded);
            &&& !lost.client.is_connected
            &&& task.reconnects && task.attempt < 5 ==> {
                &&& lost.action == Action::Wait(pow2(task.attempt + 1))
                &&& lost.task == (TaskState { attempt: task.attempt + 1, ..task })
                &&& lost.client.connection_state == ConnectionStatus::Reconnecting
                &&& lost.client.reconnect_attempts == task.attempt + 1
            }
            &&& task.reconnects && task.attempt >= 5 ==> {
                &&& lost.action is Exit
                &&& lost.task == task
                &&& lost.client.connection_state == ConnectionStatus::Failed(
                    "Max reconnection attempts exceeded"@,
                )
                &&& lost.client.reconnect_attempts == client.reconnect_attempts
            }
            &&& !task.reconnects ==> {
                &&& lost.action is Exit
                &&& lost.task == task
                &&& lost.client.connection_state == ConnectionStatus::Disconnected
                &&& lost.client.reconnect_attempts == client.reconnect_attempts
            }
        }),
{
}

/// An attempt that fails, and one that brings no way to send messages, count as a stream that is
/// lost once more.
pub proof fn law_failed_attempt_is_a_loss(task: TaskState, client: StreamState, error: String)
    requires
        !task.first_start,
    ensures
        after_event(task, client, StreamEvent::ConnectFailed(error)) == after_event(
            task,
            client,
            StreamEvent::ListenEnded,
        ),
        after_event(task, client, StreamEvent::SenderMissing) == after_event(
            task,
            client,
            StreamEvent::ListenEnded,
        ),
{
}

/// A stop changes nothing but the connection.
pub proof fn law_stop_keeps_the_rest(task: TaskState, client: StreamState)
    ensures
        after_event(task, client, StreamEvent::Stopped).task == task,
        after_event(task, client, StreamEvent::Stopped).client == (StreamState {
            is_connected: false,
            connection_state: ConnectionStatus::Disconnected,
            ..client
        }),
{
}

/// No event changes the key and the session of a task, nor whether it is to reconnect.
pub proof fn law_task_keeps_its_session(
    task: TaskState,
    client: StreamState,
    event: StreamEvent,
)
    ensures
        after_event(task, client, event).task.api_key == task.api_key,
        after_event(task, client, event).task.session_token == task.session_token,
        after_event(task, client, event).task.reconnects == task.reconnects,
{
}

} // verus!
