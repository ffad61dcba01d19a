//! The configuration of the client, for each of the two commands.

use crate::args::{CommonArgs, ConsumerArgs};
use crate::bindings::{config_entries, new_config, set_parameter};
use rdkafka::config::ClientConfig;
use vstd::prelude::*;

verus! {

/// The parameter that names the brokers to contact first.
pub const BOOTSTRAP_SERVERS: &'static str = "bootstrap.servers";

/// The parameter that names the consumer group.
pub const GROUP_ID: &'static str = "group.id";

/// The parameters of a producer's client.
pub open spec fn producer_parameters(servers: Seq<char>) -> Map<Seq<char>, Seq<char>> {
    Map::<Seq<char>, Seq<char>>::empty().insert(BOOTSTRAP_SERVERS@, servers)
}

/// The parameters of a consumer's client.
pub open spec fn consumer_parameters(servers: Seq<char>, group: Seq<char>) -> Map<
    Seq<char>,
    Seq<char>,
> {
    producer_parameters(servers).insert(GROUP_ID@, group)
}

/// The configuration from which the producer's client is built.
pub fn producer_config(common: &CommonArgs) -> (config: ClientConfig)
    ensures
        config_entries(config) == producer_parameters(common@.bootstrap_servers),
{
    let mut config = new_config();
    set_parameter(&mut config, BOOTSTRAP_SERVERS, common.kafka_bootstrap_servers.as_str());
    config
}

/// The configuration from which the consumer's client is built.
pub fn consumer_config(common: &CommonArgs, args: &ConsumerArgs) -> (config: ClientConfig)
    ensures
        config_entries(config) == consumer_parameters(
            common@.bootstrap_servers,
            args@.group_id,
        ),
{
    let mut config = new_config();
    set_parameter(&mut config, BOOTSTRAP_SERVERS, common.kafka_bootstrap_servers.as_str());
    set_parameter(&mut config, GROUP_ID, args.kafka_group_id.as_str());
    config
}

/// A consumer's configuration holds exactly its two parameters, each with
/// the value given for it.
pub proof fn lemma_consumer_parameters(servers: Seq<char>, group: Seq<char>)
    ensures
        consumer_parameters(servers, group).dom() =~= set![BOOTSTRAP_SERVERS@, GROUP_ID@],
        consumer_parameters(servers, group)[BOOTSTRAP_SERVERS@] == servers,
        consumer_parameters(servers, group)[GROUP_ID@] == group,
{
    reveal_strlit("bootstrap.servers");
    reveal_strlit("group.id");
    assert(BOOTSTRAP_SERVERS@.len() != GROUP_ID@.len());
}

} // verus!
