//! What the server tells about itself on request.

use vstd::prelude::*;
use crate::server::state::{lists_keys, queues_keys, AppState};
use crate::text::copy_of;

verus! {

/// One registered agent, as listed for a caller.
#[derive(Debug, PartialEq, Eq)]
pub struct AgentListItem {
    /// The agent's identifier.
    pub agent_id: String,
}

/// The identifiers of a list of items, in order.
pub open spec fn listed_ids(items: Seq<AgentListItem>) -> Seq<String> {
    items.map_values(|a: AgentListItem| a.agent_id)
}

/// Every registered agent, once each. The order is that in which the
/// registry yields them.
pub fn list_agents(state: &AppState) -> (r: Vec<AgentListItem>)
    ensures
        lists_keys(listed_ids(r@), state@.agents.dom()),
{
    let keys = queues_keys(&state.agents);
    let mut items: Vec<AgentListItem> = Vec::new();
    let mut i: usize = 0;
    while i < keys.len()
        invariant
            i <= keys.len(),
            items@.len() == i,
            forall|j: int| 0 <= j < i ==> (#[trigger] items@[j]).agent_id@ == keys@[j]@,
        decreases keys.len() - i,
    {
        items.push(AgentListItem { agent_id: copy_of(&keys[i]) });
        i = i + 1;
    }
    proof {
        let ids = listed_ids(items@);
        let dom = state@.agents.dom();
        assert(ids.len() == keys@.len());
        assert forall|j: int| 0 <= j < ids.len() implies #[trigger] ids[j]@ == keys@[j]@ by {
            assert(ids[j] == items@[j].agent_id);
        }
        assert forall|k: Seq<char>| #[trigger] dom.contains(k) implies exists|j: int|
            0 <= j < ids.len() && #[trigger] ids[j]@ == k by {
            let j = choose|j: int| 0 <= j < keys@.len() && #[trigger] keys@[j]@ == k;
            assert(ids[j]@ == k);
        }
    }
    items
}

} // verus!
