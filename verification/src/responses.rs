//! Bounded reading of the HTTP responses that the agent fetches from local services, and what
//! it accepts of their contents: the core's runtime configuration and the bridge's health.
use vstd::prelude::*;

use crate::model::AgentRoutingMode;
use crate::snapshot::CoreRuntimeObservation;
use crate::text::str_equal;

verus! {

/// The most bytes read of the core's configuration response.
pub const MAX_CORE_CONFIG_RESPONSE_BYTES: usize = 64 * 1024;

/// The most bytes read of a bridge health response.
pub const MAX_HEALTH_RESPONSE_BYTES: usize = 256;

/// Whether a response may be read at all: it succeeded, and the length it declares, if any,
/// is within the limit.
pub fn response_admissible(success: bool, content_length: Option<u64>, limit: usize) -> (admissible: bool)
    ensures
        admissible == (success && match content_length {
            Some(length) => length <= limit,
            None => true,
        }),
{
    if !success {
        return false;
    }
    match content_length {
        Some(length) => length <= limit as u64,
        None => true,
    }
}

/// A response body read chunk by chunk, never beyond its limit.
pub struct BoundedBody {
    pub limit: usize,
    pub bytes: Vec<u8>,
}

impl BoundedBody {
    pub fn new(limit: usize) -> (body: BoundedBody)
        ensures
            body.limit == limit,
            body.bytes@.len() == 0,
    {
        BoundedBody { limit, bytes: Vec::new() }
    }

    /// Appends a chunk unless the body would grow past its limit; says whether it did.
    pub fn push(&mut self, chunk: &[u8]) -> (appended: bool)
        requires
            old(self).bytes@.len() <= old(self).limit,
        ensures
            final(self).limit == old(self).limit,
            final(self).bytes@.len() <= final(self).limit,
            appended == (old(self).bytes@.len() + chunk@.len() <= old(self).limit),
            appended ==> final(self).bytes@ == old(self).bytes@ + chunk@,
            !appended ==> final(self).bytes@ == old(self).bytes@,
    {
        if chunk.len() > self.limit - self.bytes.len() {
            return false;
        }
        let ghost before = self.bytes@;
        let ghost limit = self.limit;
        let mut i: usize = 0;
        while i < chunk.len()
            invariant
                i <= chunk@.len(),
                self.limit == limit,
                limit == old(self).limit,
                before == old(self).bytes@,
                before.len() + chunk@.len() <= limit,
                self.bytes@ == before + chunk@.subrange(0, i as int),
            decreases chunk@.len() - i,
        {
            self.bytes.push(chunk[i]);
            assert(before + chunk@.subrange(0, i + 1) =~= (before + chunk@.subrange(0, i as int)).push(chunk@[i as int]));
            i = i + 1;
        }
        assert(chunk@.subrange(0, chunk@.len() as int) =~= chunk@);
        true
    }
}

/// What the agent observes of the core's configuration response: the routing mode, which must
/// be one it knows, and the TUN switch if the response has one.
pub open spec fn spec_core_observation(mode: Option<Seq<char>>, tun_enable: Option<Option<bool>>) -> Result<
    CoreRuntimeObservation,
    (),
> {
    match mode {
        Some(m) => match AgentRoutingMode::spec_parse(m) {
            Some(routing_mode) => Ok(
                CoreRuntimeObservation {
                    routing_mode,
                    tun_enabled: match tun_enable {
                        Some(enable) => enable,
                        None => None,
                    },
                },
            ),
            None => Err(()),
        },
        None => Err(()),
    }
}

/// The observation that a parsed configuration response gives: `mode` is its mode, if any, and
/// `tun_enable` its TUN section's switch, `None` without a TUN section.
pub fn core_observation(mode: Option<&str>, tun_enable: Option<Option<bool>>) -> (observation: Result<
    CoreRuntimeObservation,
    (),
>)
    ensures
        observation == spec_core_observation(
            match mode {
                Some(m) => Some(m@),
                None => None,
            },
            tun_enable,
        ),
{
    let mode = match mode {
        Some(m) => m,
        None => {
            return Err(());
        },
    };
    let routing_mode = match AgentRoutingMode::parse(mode) {
        Some(routing_mode) => routing_mode,
        None => {
            return Err(());
        },
    };
    let tun_enabled = match tun_enable {
        Some(enable) => enable,
        None => None,
    };
    Ok(CoreRuntimeObservation { routing_mode, tun_enabled })
}

/// Whether a parsed health response shows a healthy bridge of the expected schema.
pub fn health_payload_matches(status: &str, schema_version: u16, expected_schema_version: u16) -> (healthy: bool)
    ensures
        healthy == (status@ == "ok"@ && schema_version == expected_schema_version),
{
    str_equal(status, "ok") && schema_version == expected_schema_version
}

} // verus!
