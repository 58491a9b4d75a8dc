//! The rollover policy: when the current output file has to be replaced.

use vstd::prelude::*;

verus! {

/// Bytes in one binary megabyte, the unit of the size threshold.
pub const BYTES_PER_MB: u64 = 1_048_576;

/// The three optional thresholds of a session. A threshold that is not configured
/// never triggers.
#[derive(Debug, Clone, Copy, PartialEq, Eq, Structural)]
pub struct RolloverPolicy {
    /// Age of a file, in whole seconds, from which it is rolled over.
    pub max_age_seconds: Option<u64>,
    /// Number of packets in a file from which it is rolled over.
    pub max_packets: Option<usize>,
    /// Payload size of a file, in binary megabytes, from which it is rolled over.
    pub max_size_mb: Option<u64>,
}

impl RolloverPolicy {
    /// No threshold is configured.
    pub open spec fn is_unset(self) -> bool {
        self.max_age_seconds is None && self.max_packets is None && self.max_size_mb is None
    }

    /// The age threshold is configured, the age is known, and it has reached the threshold.
    pub open spec fn age_reached(self, elapsed: Option<u64>) -> bool {
        self.max_age_seconds matches Some(limit) && elapsed matches Some(age) && age >= limit
    }

    /// The packet threshold is configured and met by `packets`.
    pub open spec fn count_reached(self, packets: nat) -> bool {
        self.max_packets matches Some(limit) && packets >= limit
    }

    /// The size threshold is configured and met by `bytes`.
    pub open spec fn size_reached(self, bytes: nat) -> bool {
        self.max_size_mb matches Some(limit) && bytes >= limit * BYTES_PER_MB
    }

    /// A file with these counters and this age is due for rollover: any configured
    /// threshold is met.
    pub open spec fn due(self, packets: nat, bytes: nat, elapsed: Option<u64>) -> bool {
        self.age_reached(elapsed) || self.count_reached(packets) || self.size_reached(bytes)
    }

    /// The policy with no threshold configured.
    pub fn unset() -> (policy: RolloverPolicy)
        ensures
            policy.is_unset(),
    {
        RolloverPolicy { max_age_seconds: None, max_packets: None, max_size_mb: None }
    }

    /// Decides whether a file holding `packets` packets and `bytes` payload bytes, whose
    /// age is `elapsed` whole seconds (`None` when the clock cannot tell), is due for
    /// rollover.
    pub fn needs_rollover(&self, packets: usize, bytes: u64, elapsed: Option<u64>) -> (due: bool)
        ensures
            due == self.due(packets as nat, bytes as nat, elapsed),
    {
        if let Some(limit) = self.max_age_seconds {
            if let Some(age) = elapsed {
                if age >= limit {
                    return true;
                }
            }
        }
        if let Some(limit) = self.max_packets {
            if packets >= limit {
                return true;
            }
        }
        if let Some(limit) = self.max_size_mb {
            let threshold: u128 = limit as u128 * BYTES_PER_MB as u128;
            if bytes as u128 >= threshold {
                return true;
            }
        }
        false
    }
}

/// An unset policy never calls for rollover, whatever the file holds and however old it is.
pub proof fn lemma_unset_policy_never_due(
    policy: RolloverPolicy,
    packets: nat,
    bytes: nat,
    elapsed: Option<u64>,
)
    requires
        policy.is_unset(),
    ensures
        !policy.due(packets, bytes, elapsed),
{
}

} // verus!
