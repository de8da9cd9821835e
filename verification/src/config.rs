//! The settings of a channel.

use vstd::prelude::*;

verus! {

/// The settings of a channel. Both sides of a channel must use the same ones.
#[derive(Debug)]
pub struct IpcConfig {
    /// Max serialized message size; also the fixed shm slice capacity.
    pub max_message_size: usize,
    /// Per-subscriber queue depth (oldest overwritten when full).
    pub buffer_size: usize,
    /// How many publishers the service admits.
    pub max_publishers: usize,
    /// How many subscribers the service admits.
    pub max_subscribers: usize,
}

impl Clone for IpcConfig {
    fn clone(&self) -> (r: Self)
        ensures
            r == *self,
    {
        IpcConfig {
            max_message_size: self.max_message_size,
            buffer_size: self.buffer_size,
            max_publishers: self.max_publishers,
            max_subscribers: self.max_subscribers,
        }
    }
}

impl Default for IpcConfig {
    fn default() -> (r: Self)
        ensures
            r.max_message_size == 2048,
            r.buffer_size == 1024,
            r.max_publishers == 2,
            r.max_subscribers == 2,
    {
        IpcConfig {
            max_message_size: 2048,
            buffer_size: 1024,
            max_publishers: 2,
            max_subscribers: 2,
        }
    }
}

/// The quality of service that a publish/subscribe service is opened or
/// created with. A service that exists already is opened only by a peer that
/// asks for the same.
#[derive(Debug, Clone, Copy, PartialEq, Eq, Structural)]
pub struct ServiceQos {
    /// Queue depth of each subscriber.
    pub subscriber_max_buffer_size: usize,
    /// Whether a full queue gives up its oldest message to a new one.
    pub safe_overflow: bool,
    /// How many messages sent earlier a late subscriber is handed.
    pub history_size: usize,
    /// How many publishers the service admits.
    pub max_publishers: usize,
    /// How many subscribers the service admits.
    pub max_subscribers: usize,
}

impl IpcConfig {
    /// The quality of service that these settings stand for.
    pub open spec fn qos_spec(self) -> ServiceQos {
        ServiceQos {
            subscriber_max_buffer_size: self.buffer_size,
            safe_overflow: true,
            history_size: 0,
            max_publishers: self.max_publishers,
            max_subscribers: self.max_subscribers,
        }
    }

    /// The quality of service that sender and receiver ask for.
    pub fn qos(&self) -> (r: ServiceQos)
        ensures
            r == self.qos_spec(),
            r.max_publishers == self.max_publishers,
            r.max_subscribers == self.max_subscribers,
            r.subscriber_max_buffer_size == self.buffer_size,
            r.safe_overflow,
            r.history_size == 0,
    {
        ServiceQos {
            subscriber_max_buffer_size: self.buffer_size,
            safe_overflow: true,
            history_size: 0,
            max_publishers: self.max_publishers,
            max_subscribers: self.max_subscribers,
        }
    }
}

/// The service is asked for exactly as configured: with the publishers,
/// subscribers and queue depth of the settings, a full queue giving up its
/// oldest message, and nothing kept for late subscribers.
pub proof fn law_service_is_asked_for_as_configured(cfg: IpcConfig, qos: ServiceQos)
    ensures
        qos == cfg.qos_spec() <==> {
            &&& qos.max_publishers == cfg.max_publishers
            &&& qos.max_subscribers == cfg.max_subscribers
            &&& qos.subscriber_max_buffer_size == cfg.buffer_size
            &&& qos.safe_overflow
            &&& qos.history_size == 0
        },
{
}

} // verus!
