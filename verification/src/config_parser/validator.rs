//! Which configurations make it into the registry.

use super::registry::{all_valid, distinct_ids, entries, put, TaskRegistry};
use super::types::{same_text, Config};
use vstd::prelude::*;

verus! {

/// The registry that a list of configurations leads to: the valid ones,
/// each under its identifier; of two valid ones with the same identifier
/// the later.
pub open spec fn registered(configs: Seq<Config>) -> Map<Seq<char>, Config>
    decreases configs.len(),
{
    if configs.len() == 0 {
        Map::empty()
    } else if configs.last().is_valid() {
        registered(configs.drop_last()).insert(configs.last().id(), configs.last())
    } else {
        registered(configs.drop_last())
    }
}

/// Whether a file with this extension is read as a task configuration:
/// only `toml` files are.
pub fn is_config_file(extension: Option<&str>) -> (r: bool)
    ensures
        r == (extension matches Some(e) && e@ == "toml"@),
{
    match extension {
        Some(e) => same_text(e, "toml"),
        None => false,
    }
}

/// Builds the registry from the configurations that were read. A
/// configuration that is not valid is left out; the caller can ask
/// `Config::validate` for the reason.
pub fn load_all_configs(configs: &Vec<Config>) -> (registry: TaskRegistry)
    ensures
        registry@ == registered(configs@),
{
    let mut tasks: Vec<Config> = Vec::new();
    let n = configs.len();
    let mut i: usize = 0;
    assert(configs@.take(0) =~= Seq::<Config>::empty());
    while i < n
        invariant
            n == configs.len(),
            i <= n,
            distinct_ids(tasks@),
            all_valid(tasks@),
            entries(tasks@) == registered(configs@.take(i as int)),
        decreases n - i,
    {
        proof {
            let next = configs@.take(i + 1);
            assert(next.drop_last() =~= configs@.take(i as int));
            assert(next.last() == configs@[i as int]);
        }
        if configs[i].validate().is_ok() {
            put(&mut tasks, configs[i].clone());
        }
        i += 1;
    }
    assert(configs@.take(n as int) =~= configs@);
    TaskRegistry::from_tasks(tasks)
}

/// Every registered task is valid and stands under its own identifier,
/// and it is one of the configurations that were read.
pub proof fn lemma_registered_are_valid(configs: Seq<Config>, id: Seq<char>)
    requires
        registered(configs).dom().contains(id),
    ensures
        registered(configs)[id].is_valid(),
        registered(configs)[id].id() == id,
        configs.contains(registered(configs)[id]),
    decreases configs.len(),
{
    let front = configs.drop_last();
    let last = configs.last();
    if last.is_valid() && last.id() == id {
        assert(configs[configs.len() - 1] == last);
    } else {
        lemma_registered_are_valid(front, id);
        let j = choose|j: int| 0 <= j < front.len() && front[j] == registered(front)[id];
        assert(configs[j] == registered(front)[id]);
    }
}

/// A configuration that names no way to authenticate at its destination
/// is not in the registry, under any identifier.
pub proof fn lemma_missing_destination_auth_excluded(configs: Seq<Config>, id: Seq<char>)
    requires
        registered(configs).dom().contains(id),
    ensures
        registered(configs)[id].destination.has_auth_method(),
{
    lemma_registered_are_valid(configs, id);
}

/// A valid configuration is registered: its identifier is taken, by
/// itself or by a valid configuration that came later.
pub proof fn lemma_valid_is_registered(configs: Seq<Config>, i: int)
    requires
        0 <= i < configs.len(),
        configs[i].is_valid(),
    ensures
        registered(configs).dom().contains(configs[i].id()),
    decreases configs.len(),
{
    if i < configs.len() - 1 {
        assert(configs.drop_last()[i] == configs[i]);
        lemma_valid_is_registered(configs.drop_last(), i);
    }
}

/// Where no configuration is valid, nothing is registered.
pub proof fn lemma_nothing_valid_nothing_registered(configs: Seq<Config>)
    requires
        forall|i: int| 0 <= i < configs.len() ==> !(#[trigger] configs[i]).is_valid(),
    ensures
        registered(configs) == Map::<Seq<char>, Config>::empty(),
    decreases configs.len(),
{
    if configs.len() > 0 {
        assert(!configs[configs.len() - 1].is_valid());
        assert forall|i: int| 0 <= i < configs.drop_last().len() implies !(
        #[trigger] configs.drop_last()[i]).is_valid() by {
            assert(configs.drop_last()[i] == configs[i]);
        }
        lemma_nothing_valid_nothing_registered(configs.drop_last());
    }
}

} // verus!
