//! How to reach the broker.

use vstd::prelude::*;

verus! {

/// Broker endpoints, consumer group and security settings.
#[derive(Debug, Default)]
pub struct MessagingConfig {
    pub credentials: KafkaCredentials,
    pub bootstrap_servers: String,
    pub group_id: String,
    pub sasl_mechanism: String,
    pub security_protocol: String,
}

/// The SASL user of the consumer.
#[derive(Debug, Default)]
pub struct KafkaCredentials {
    pub username: String,
    pub password: String,
}

impl Clone for KafkaCredentials {
    fn clone(&self) -> (copy: KafkaCredentials)
        ensures
            copy == *self,
    {
        KafkaCredentials { username: self.username.clone(), password: self.password.clone() }
    }
}

impl Clone for MessagingConfig {
    fn clone(&self) -> (copy: MessagingConfig)
        ensures
            copy == *self,
    {
        MessagingConfig {
            credentials: self.credentials.clone(),
            bootstrap_servers: self.bootstrap_servers.clone(),
            group_id: self.group_id.clone(),
            sasl_mechanism: self.sasl_mechanism.clone(),
            security_protocol: self.security_protocol.clone(),
        }
    }
}

} // verus!
