//! Llama caravans: a leashed leader followed by a bounded chain of llamas.
use vstd::prelude::*;

verus! {

/// Maximum number of llamas allowed in a single caravan chain.
pub const DEFAULT_MAX_CHAIN: u8 = 10;

/// A llama caravan: one leader followed by a chain of followers.
#[derive(Debug, Clone, PartialEq)]
pub struct LlamaCaravan {
    /// Entity id of the caravan leader (the leashed llama).
    pub leader: u64,
    /// Ordered list of follower entity ids, from front to back.
    pub followers: Vec<u64>,
    /// Maximum number of followers allowed in this caravan.
    pub max_chain: u8,
}

impl LlamaCaravan {
    /// A well-formed caravan: no more followers than the chain allows, the
    /// leader is not among them, and no llama follows twice.
    pub open spec fn wf(&self) -> bool {
        &&& self.followers@.len() <= self.max_chain
        &&& !self.followers@.contains(self.leader)
        &&& self.followers@.no_duplicates()
    }

    /// A caravan of the leader alone, with the default chain length.
    pub fn new(leader: u64) -> (c: Self)
        ensures
            c.leader == leader,
            c.followers@ == Seq::<u64>::empty(),
            c.max_chain == DEFAULT_MAX_CHAIN,
            c.wf(),
    {
        Self { leader, followers: Vec::new(), max_chain: DEFAULT_MAX_CHAIN }
    }

    /// A caravan of the leader alone, with a custom chain length.
    pub fn with_max_chain(leader: u64, max_chain: u8) -> (c: Self)
        ensures
            c.leader == leader,
            c.followers@ == Seq::<u64>::empty(),
            c.max_chain == max_chain,
            c.wf(),
    {
        Self { leader, followers: Vec::new(), max_chain }
    }

    /// Total number of llamas in the caravan: the leader and its followers.
    pub fn len(&self) -> (n: usize)
        requires
            self.followers@.len() < usize::MAX,
        ensures
            n == 1 + self.followers@.len(),
    {
        1 + self.followers.len()
    }

    /// Whether the caravan has no followers (leader only).
    pub fn is_empty(&self) -> (b: bool)
        ensures
            b == (self.followers@.len() == 0),
    {
        self.followers.len() == 0
    }
}

/// Try to add a llama at the back of the caravan. It is refused (`false`,
/// nothing changes) when it is the leader, when the chain is full, or when
/// it already follows; otherwise it is appended and `true` is returned.
/// A well-formed caravan stays well-formed.
pub fn attempt_join_caravan(caravan: &mut LlamaCaravan, llama_id: u64) -> (ok: bool)
    ensures
        ok == (llama_id != old(caravan).leader
            && old(caravan).followers@.len() < old(caravan).max_chain
            && !old(caravan).followers@.contains(llama_id)),
        final(caravan).followers@ == (if ok {
            old(caravan).followers@.push(llama_id)
        } else {
            old(caravan).followers@
        }),
        final(caravan).leader == old(caravan).leader,
        final(caravan).max_chain == old(caravan).max_chain,
        old(caravan).wf() ==> final(caravan).wf(),
{
    if llama_id == caravan.leader {
        return false;
    }
    if caravan.followers.len() >= caravan.max_chain as usize {
        return false;
    }
    let mut i: usize = 0;
    while i < caravan.followers.len()
        invariant
            i <= caravan.followers@.len(),
            forall|k: int| 0 <= k < i ==> caravan.followers@[k] != llama_id,
        decreases caravan.followers@.len() - i,
    {
        if caravan.followers[i] == llama_id {
            return false;
        }
        i = i + 1;
    }
    proof {
        assert(!caravan.followers@.contains(llama_id));
    }
    caravan.followers.push(llama_id);
    proof {
        let s = final(caravan).followers@;
        assert(s == old(caravan).followers@.push(llama_id));
        assert forall|a: int, b: int| 0 <= a < s.len() && 0 <= b < s.len() && a != b
            && old(caravan).wf() implies s[a] != s[b] by {
            if a < old(caravan).followers@.len() && b < old(caravan).followers@.len() {
                assert(old(caravan).followers@[a] == s[a]);
            } else if a < old(caravan).followers@.len() {
                assert(old(caravan).followers@.contains(s[a]));
            } else {
                assert(old(caravan).followers@.contains(s[b]));
            }
        }
        assert(!s.contains(caravan.leader) || !old(caravan).wf()) by {
            if s.contains(caravan.leader) && old(caravan).wf() {
                let j = choose|j: int| 0 <= j < s.len() && s[j] == caravan.leader;
                if j < old(caravan).followers@.len() {
                    assert(old(caravan).followers@[j] == caravan.leader);
                }
            }
        }
    }
    true
}

/// Speed multiplier, in hundredths, of the llama at `chain_position`
/// (0 for the leader): 100 less 5 per link, never below 50.
pub fn caravan_speed_percent(chain_position: u8) -> (p: u8)
    ensures
        p == (if 100 - 5 * chain_position > 50 { 100 - 5 * chain_position } else { 50 }),
{
    if chain_position >= 10 {
        50
    } else {
        100 - 5 * chain_position
    }
}

} // verus!
