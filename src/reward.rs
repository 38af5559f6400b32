use vstd::prelude::*;

verus! {

/// The reward, in vibes, for a post created at time `now`: between 1 and 100.
pub open spec fn vibes_reward(now: u64) -> u64 {
    (((now % 1000) % 100) + 1) as u64
}

/// Computes the reward for a post created at time `now`. It depends on the
/// timestamp alone, so anyone who knows the time can predict it.
pub fn calculate_vibes_reward(now: u64) -> (r: u64)
    ensures
        r == vibes_reward(now),
        1 <= r <= 100,
{
    let seed = now % 1000;
    (seed % 100) + 1
}

} // verus!
