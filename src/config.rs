use crate::errors::Error;
use crate::machine::TimingConfig;
use crate::message::Message;
use vstd::prelude::*;

verus! {

/// Where the program runs: on the display's hardware, or without it.
#[derive(Debug, Clone, Copy, PartialEq, Eq, Structural)]
pub enum Environment {
    Production,
    Development,
}

impl Environment {
    /// Reads an environment from its name, "production" or "development".
    pub fn from_name(value: &str) -> (r: Result<Environment, Error>)
        ensures
            if value@ == "production"@ {
                r == Ok::<Environment, Error>(Environment::Production)
            } else if value@ == "development"@ {
                r == Ok::<Environment, Error>(Environment::Development)
            } else {
                r == Err::<Environment, Error>(Error::InvalidEnvironment)
            },
    {
        let value = value.to_owned();
        if value == "production".to_owned() {
            Ok(Environment::Production)
        } else if value == "development".to_owned() {
            Ok(Environment::Development)
        } else {
            Err(Error::InvalidEnvironment)
        }
    }
}

/// The settings the program runs with.
#[derive(Debug)]
pub struct Config {
    address: String,
    queue_size: usize,
    environment: Environment,
    messages_to_inject: Vec<Message>,
    timing: TimingConfig,
}

impl Config {
    /// Checks and gathers the settings: the address must not be empty, and
    /// the buffer must hold at least one message.
    pub fn new(
        address: String,
        queue_size: usize,
        environment: Environment,
        messages_to_inject: Vec<Message>,
        timing: TimingConfig,
    ) -> (r: Result<Config, Error>)
        ensures
            match r {
                Ok(c) => {
                    &&& address@.len() > 0
                    &&& queue_size > 0
                    &&& c.address_view() == address@
                    &&& c.queue_size_view() == queue_size
                    &&& c.environment_view() == environment
                    &&& c.messages_to_inject_view() == messages_to_inject@.map_values(
                        |m: Message| m@,
                    )
                    &&& c.timing_view() == timing
                },
                Err(e) => if address@.len() == 0 {
                    e == Error::EmptyAddress
                } else {
                    queue_size == 0 && e == Error::ZeroQueueSize
                },
            },
    {
        if address.as_str().is_empty() {
            return Err(Error::EmptyAddress);
        }
        if queue_size == 0 {
            return Err(Error::ZeroQueueSize);
        }
        Ok(Config { address, queue_size, environment, messages_to_inject, timing })
    }

    pub closed spec fn address_view(self) -> Seq<char> {
        self.address@
    }

    pub closed spec fn queue_size_view(self) -> usize {
        self.queue_size
    }

    pub closed spec fn environment_view(self) -> Environment {
        self.environment
    }

    pub closed spec fn messages_to_inject_view(self) -> Seq<Seq<char>> {
        self.messages_to_inject@.map_values(|m: Message| m@)
    }

    pub closed spec fn timing_view(self) -> TimingConfig {
        self.timing
    }

    pub fn address(&self) -> (r: &str)
        ensures
            r@ == self.address_view(),
    {
        self.address.as_str()
    }

    pub fn queue_size(&self) -> (r: usize)
        ensures
            r == self.queue_size_view(),
    {
        self.queue_size
    }

    pub fn environment(&self) -> (r: &Environment)
        ensures
            *r == self.environment_view(),
    {
        &self.environment
    }

    pub fn messages_to_inject(&self) -> (r: &[Message])
        ensures
            r@.map_values(|m: Message| m@) == self.messages_to_inject_view(),
    {
        self.messages_to_inject.as_slice()
    }

    pub fn timing(&self) -> (r: &TimingConfig)
        ensures
            *r == self.timing_view(),
    {
        &self.timing
    }
}

/// Where the settings are read from.
#[derive(Debug)]
pub struct ConfigLoader {
    path: String,
}

impl ConfigLoader {
    pub fn new(path: String) -> (r: ConfigLoader)
        ensures
            r.path_view() == path@,
    {
        ConfigLoader { path }
    }

    pub closed spec fn path_view(self) -> Seq<char> {
        self.path@
    }

    pub fn path(&self) -> (r: &str)
        ensures
            r@ == self.path_view(),
    {
        self.path.as_str()
    }
}

} // verus!
