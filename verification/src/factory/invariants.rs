use crate::factory::contract::{outcome, rejection};
use crate::factory::execute::{registered, registration_rejection};
use crate::factory::state::{counted, StorageView};
use crate::host::CoinView;
use crate::packages::factory::ExecuteMsg;
use vstd::prelude::*;

verus! {

/// A registry whose counts are the lengths of its lists is still such a registry after any
/// call.
pub proof fn law_counts_follow_lists(
    pre: StorageView,
    now: u64,
    registry: Seq<char>,
    sender: Seq<char>,
    funds: Seq<CoinView>,
    msg: ExecuteMsg,
)
    requires
        counted(pre),
        rejection(pre, now, sender, funds, msg) is None,
    ensures
        counted(outcome(pre, now, registry, sender, msg)),
{
}

/// A registry whose counts are the lengths of its lists is still such a registry after a
/// market is registered.
pub proof fn law_counts_follow_registration(pre: StorageView, address: Seq<char>)
    requires
        counted(pre),
        registration_rejection(pre) is None,
    ensures
        counted(registered(pre, address)),
{
}

/// A resolution takes one market from the active ones and adds one to the completed ones:
/// together they stay as many.
pub proof fn law_resolution_moves_one_market(
    pre: StorageView,
    now: u64,
    registry: Seq<char>,
    sender: Seq<char>,
    funds: Seq<CoinView>,
    msg: ExecuteMsg,
)
    requires
        rejection(pre, now, sender, funds, msg) is None,
        msg matches ExecuteMsg::RecordStats { stat_type, .. } && stat_type@ == "resolve"@,
    ensures
        ({
            let after = outcome(pre, now, registry, sender, msg);
            &&& after.active_markets.len() + 1 == pre.active_markets.len()
            &&& after.completed_markets.len() == pre.completed_markets.len() + 1
            &&& after.completed_markets.last() == sender
            &&& after.markets == pre.markets
        }),
{
    reveal_strlit("resolve");
    reveal_strlit("volume");
    assert("resolve"@ != "volume"@) by {
        assert("resolve"@.len() == 7);
        assert("volume"@.len() == 6);
    }
}

} // verus!
