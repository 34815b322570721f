//! The command side of the broker connection: who connects, which topic
//! means what, and how long to keep trying to subscribe.

use crate::time::span::span_nanos;
use crate::time::span::NANOS_PER_SEC;
use std::time::Duration;
use vstd::prelude::*;

verus! {

/// The topic that starts a cycle.
pub const START_TOPIC: &'static str = "/start";

/// The topic that stops the running cycle.
pub const STOP_TOPIC: &'static str = "/stop";

/// Failed attempts to subscribe that are followed by another attempt.
pub const SUBSCRIBE_RETRIES: u32 = 50;

/// A request from outside: run a cycle for a time, or end the one that runs.
#[derive(Debug)]
pub enum Command {
    Start(Duration),
    Stop,
}

/// Why a message is no command.
#[derive(Clone, Copy, Debug, PartialEq, Eq, Structural)]
pub enum CommandDecodeError {
    /// The message came on a topic that carries no command.
    UnknownTopic,
    /// A start message without a readable duration.
    MissingDuration,
}

/// What is needed to open a session with the broker.
pub struct Credentials {
    client_id: String,
    username: String,
    password: String,
    url: String,
}

/// Credentials as plain values.
pub struct CredentialsView {
    pub client_id: Seq<char>,
    pub username: Seq<char>,
    pub password: Seq<char>,
    pub url: Seq<char>,
}

impl View for Credentials {
    type V = CredentialsView;

    closed spec fn view(&self) -> CredentialsView {
        CredentialsView {
            client_id: self.client_id@,
            username: self.username@,
            password: self.password@,
            url: self.url@,
        }
    }
}

impl Credentials {
    pub fn new(client_id: String, username: String, password: String, url: String) -> (credentials:
        Self)
        ensures
            credentials@ == (CredentialsView {
                client_id: client_id@,
                username: username@,
                password: password@,
                url: url@,
            }),
    {
        Self { client_id, username, password, url }
    }

    pub fn client_id(&self) -> (client_id: &str)
        ensures
            client_id@ == self@.client_id,
    {
        self.client_id.as_str()
    }

    pub fn username(&self) -> (username: &str)
        ensures
            username@ == self@.username,
    {
        self.username.as_str()
    }

    pub fn password(&self) -> (password: &str)
        ensures
            password@ == self@.password,
    {
        self.password.as_str()
    }

    pub fn url(&self) -> (url: &str)
        ensures
            url@ == self@.url,
    {
        self.url.as_str()
    }
}

/// The broker connection as far as it is settled before any traffic.
pub struct Mqtt {
    credentials: Credentials,
}

impl Mqtt {
    /// The credentials the connection will be opened with.
    pub closed spec fn credentials_spec(&self) -> CredentialsView {
        self.credentials@
    }

    pub fn new(credentials: Credentials) -> (mqtt: Self)
        ensures
            mqtt.credentials_spec() == credentials@,
    {
        Mqtt { credentials }
    }

    pub fn credentials(&self) -> (credentials: &Credentials)
        ensures
            credentials@ == self.credentials_spec(),
    {
        &self.credentials
    }
}

/// Whether two strings hold the same text.
fn same_text(left: &str, right: &str) -> (same: bool)
    ensures
        same == (left@ == right@),
{
    let left_owned = left.to_owned();
    let right_owned = right.to_owned();
    left_owned == right_owned
}

impl Command {
    /// Reads a command off a message: the topic says which, and a start
    /// carries its duration in whole seconds. `duration` is what the payload
    /// gave, `None` where it gave nothing readable.
    pub fn decode(topic: &str, duration: Option<u64>) -> (decoded: Result<Command, CommandDecodeError>)
        ensures
            topic@ == START_TOPIC@ ==> match duration {
                Some(secs) => decoded matches Ok(Command::Start(d)) && span_nanos(d) == secs
                    * NANOS_PER_SEC,
                None => decoded matches Err(e) && e == CommandDecodeError::MissingDuration,
            },
            topic@ == STOP_TOPIC@ ==> decoded matches Ok(Command::Stop),
            topic@ != START_TOPIC@ && topic@ != STOP_TOPIC@ ==> (decoded matches Err(e) && e
                == CommandDecodeError::UnknownTopic),
    {
        proof {
            reveal_strlit("/start");
            reveal_strlit("/stop");
            assert(START_TOPIC@ != STOP_TOPIC@) by {
                assert(START_TOPIC@.len() == 6);
                assert(STOP_TOPIC@.len() == 5);
            }
        }
        if same_text(topic, START_TOPIC) {
            match duration {
                Some(secs) => Ok(Command::Start(Duration::from_secs(secs))),
                None => Err(CommandDecodeError::MissingDuration),
            }
        } else if same_text(topic, STOP_TOPIC) {
            Ok(Command::Stop)
        } else {
            Err(CommandDecodeError::UnknownTopic)
        }
    }

    /// Whether messages on the topic carry a duration to read.
    pub fn carries_duration(topic: &str) -> (carries: bool)
        ensures
            carries == (topic@ == START_TOPIC@),
    {
        same_text(topic, START_TOPIC)
    }
}

/// What to do after an attempt to subscribe.
#[derive(Clone, Copy, Debug, PartialEq, Eq, Structural)]
pub enum SubscribeStep {
    /// The subscription stands.
    Subscribed,
    /// Wait a moment and try again.
    Retry,
    /// Too many attempts failed.
    GiveUp,
}

/// Counts the failed attempts to subscribe.
pub struct SubscribeAttempts {
    failed: u32,
}

/// The step after an attempt, given the attempts that failed before it.
pub open spec fn step_after(failed_before: nat, subscribed: bool) -> SubscribeStep {
    if subscribed {
        SubscribeStep::Subscribed
    } else if failed_before < SUBSCRIBE_RETRIES {
        SubscribeStep::Retry
    } else {
        SubscribeStep::GiveUp
    }
}

impl SubscribeAttempts {
    /// The attempts that failed and were followed by another.
    pub closed spec fn failed(&self) -> nat {
        self.failed as nat
    }

    #[verifier::type_invariant]
    spec fn within_retries(&self) -> bool {
        self.failed <= SUBSCRIBE_RETRIES
    }

    pub fn new() -> (attempts: Self)
        ensures
            attempts.failed() == 0,
    {
        SubscribeAttempts { failed: 0 }
    }

    /// Takes note of an attempt and says what follows.
    pub fn record(&mut self, subscribed: bool) -> (step: SubscribeStep)
        ensures
            step == step_after(old(self).failed(), subscribed),
            final(self).failed() == if step == SubscribeStep::Retry {
                old(self).failed() + 1
            } else {
                old(self).failed()
            },
            final(self).failed() <= SUBSCRIBE_RETRIES,
    {
        proof {
            use_type_invariant(&*self);
        }
        if subscribed {
            SubscribeStep::Subscribed
        } else if self.failed < SUBSCRIBE_RETRIES {
            self.failed = self.failed + 1;
            SubscribeStep::Retry
        } else {
            SubscribeStep::GiveUp
        }
    }
}

} // verus!
