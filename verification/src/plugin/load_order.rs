//! The order in which plugins are instantiated: a topological order of their
//! dependencies (`depend` and `softdepend`), ties broken by registration order.
//! Plugins caught in a dependency cycle, or waiting on one, come last, in
//! registration order.
use vstd::prelude::*;

use crate::config::spigot::{optional_list_contains, SpigotPluginYml};
use crate::plugin::manager::{Plugin, PluginType};

verus! {

/// Whether a description names `name` in its `depend` or `softdepend` list.
pub open spec fn config_depends_on(c: SpigotPluginYml, name: Seq<char>) -> bool {
    optional_list_contains(c.depend, name) || optional_list_contains(c.softdepend, name)
}

/// Whether a plugin must be loaded after the plugin called `name`: its
/// `plugin.yml` description (a Paper plugin's, when it has one) lists that
/// name as a hard or soft dependency.
pub open spec fn plugin_depends_on<I>(p: Plugin<I>, name: Seq<char>) -> bool {
    match p.plugin_type {
        PluginType::Spigot(d) => config_depends_on(d.spigot_config, name),
        PluginType::Paper(d) => match d.spigot_config {
            Some(c) => config_depends_on(c, name),
            None => false,
        },
    }
}

/// Every registered plugin that the `i`-th plugin depends on is in `placed`.
/// Names that no registered plugin has are ignored.
pub open spec fn dependencies_placed<I>(s: Seq<Plugin<I>>, placed: Seq<usize>, i: int) -> bool {
    forall|j: int|
        0 <= j < s.len() && plugin_depends_on(s[i], (#[trigger] s[j]).name@) ==> placed.contains(
            j as usize,
        )
}

/// The `i`-th plugin is not placed yet and all its dependencies are.
pub open spec fn ready<I>(s: Seq<Plugin<I>>, placed: Seq<usize>, i: int) -> bool {
    &&& 0 <= i < s.len()
    &&& !placed.contains(i as usize)
    &&& dependencies_placed(s, placed, i)
}

/// The `i`-th plugin is the first, in registration order, that is ready.
pub open spec fn first_ready_spec<I>(s: Seq<Plugin<I>>, placed: Seq<usize>, i: int) -> bool {
    &&& ready(s, placed, i)
    &&& forall|k: int| 0 <= k < i ==> !ready(s, placed, k)
}

/// Each entry of `o` is the first plugin that is ready once the entries
/// before it are placed.
pub open spec fn greedy_order<I>(s: Seq<Plugin<I>>, o: Seq<usize>) -> bool {
    forall|p: int| 0 <= p < o.len() ==> first_ready_spec(s, o.take(p), #[trigger] o[p] as int)
}

/// No plugin is ready once `placed` is placed.
pub open spec fn stuck<I>(s: Seq<Plugin<I>>, placed: Seq<usize>) -> bool {
    forall|i: int| 0 <= i < s.len() ==> !ready(s, placed, i)
}

/// `o` lists plugins, each after every registered plugin it depends on.
pub open spec fn respects_dependencies<I>(s: Seq<Plugin<I>>, o: Seq<usize>) -> bool {
    forall|p: int|
        0 <= p < o.len() ==> (#[trigger] o[p]) < s.len() && dependencies_placed(
            s,
            o.take(p),
            o[p] as int,
        )
}

/// `o` lists every plugin of a registry of `n` plugins.
pub open spec fn covers(o: Seq<usize>, n: nat) -> bool {
    forall|i: usize| i < n ==> #[trigger] o.contains(i)
}

/// The load order of `s` with its first `sorted` entries topologically sorted:
/// those are chosen greedily, after them no plugin is ready, and the rest are
/// the plugins left over, in registration order.
pub open spec fn load_order_spec<I>(s: Seq<Plugin<I>>, order: Seq<usize>, sorted: int) -> bool {
    &&& order.len() == s.len()
    &&& 0 <= sorted <= order.len()
    &&& greedy_order(s, order.take(sorted))
    &&& stuck(s, order.take(sorted))
    &&& forall|p: int| sorted <= p < order.len() ==> !order.take(sorted).contains(#[trigger] order[p])
    &&& forall|p: int, q: int| sorted <= p < q < order.len() ==> order[p] < order[q]
    &&& covers(order, s.len())
    &&& order.no_duplicates()
    &&& forall|p: int| 0 <= p < order.len() ==> #[trigger] order[p] < s.len()
}

proof fn lemma_greedy_respects<I>(s: Seq<Plugin<I>>, o: Seq<usize>)
    requires
        greedy_order(s, o),
    ensures
        respects_dependencies(s, o),
        o.no_duplicates(),
{
    assert forall|p: int| 0 <= p < o.len() implies (#[trigger] o[p]) < s.len() && dependencies_placed(
        s,
        o.take(p),
        o[p] as int,
    ) by {
        assert(first_ready_spec(s, o.take(p), o[p] as int));
    }
    assert forall|a: int, b: int| 0 <= a < o.len() && 0 <= b < o.len() && a != b implies o[a]
        != o[b] by {
        let (x, y) = if a < b {
            (a, b)
        } else {
            (b, a)
        };
        assert(first_ready_spec(s, o.take(y), o[y] as int));
        assert(o.take(y)[x] == o[x]);
    }
}

/// No entry of `o` before position `q` is a plugin left over by `placed`, when
/// `o` puts every plugin after its dependencies and nothing is ready after `placed`.
proof fn lemma_no_leftover_before<I>(s: Seq<Plugin<I>>, placed: Seq<usize>, o: Seq<usize>, q: int)
    requires
        stuck(s, placed),
        respects_dependencies(s, o),
        0 <= q <= o.len(),
    ensures
        forall|p: int| 0 <= p < q ==> placed.contains(#[trigger] o[p]),
    decreases q,
{
    if q > 0 {
        lemma_no_leftover_before(s, placed, o, q - 1);
        let x = o[q - 1];
        if !placed.contains(x) {
            assert(x < s.len());
            assert(!ready(s, placed, x as int));
            let j = choose|j: int|
                0 <= j < s.len() && plugin_depends_on(s[x as int], (#[trigger] s[j]).name@)
                    && !placed.contains(j as usize);
            assert(dependencies_placed(s, o.take(q - 1), x as int));
            assert(o.take(q - 1).contains(j as usize));
            let p = choose|p: int| 0 <= p < o.take(q - 1).len() && #[trigger] o.take(q - 1)[p] == j as usize;
            assert(o[p] == j as usize);
            assert(placed.contains(o[p]));
        }
    }
}

/// A greedy dependency order either lists every plugin, each after the
/// plugins it depends on, or leaves some over; and it leaves some over only
/// when no order of all the plugins puts each after its dependencies (the
/// plugins left over depend on one another in a cycle, or on such plugins).
pub proof fn law_load_order_is_topological<I>(s: Seq<Plugin<I>>, placed: Seq<usize>)
    requires
        greedy_order(s, placed),
        stuck(s, placed),
    ensures
        respects_dependencies(s, placed),
        placed.no_duplicates(),
        (exists|i: usize| i < s.len() && !#[trigger] placed.contains(i)) ==> forall|o: Seq<usize>|
            covers(o, s.len()) ==> !respects_dependencies(s, o),
{
    lemma_greedy_respects(s, placed);
    if exists|i: usize| i < s.len() && !#[trigger] placed.contains(i) {
        let i = choose|i: usize| i < s.len() && !#[trigger] placed.contains(i);
        assert forall|o: Seq<usize>| covers(o, s.len()) implies !respects_dependencies(s, o) by {
            if respects_dependencies(s, o) {
                lemma_no_leftover_before(s, placed, o, o.len() as int);
                assert(o.contains(i));
                let p = choose|p: int| 0 <= p < o.len() && o[p] == i;
                assert(placed.contains(o[p]));
            }
        }
    }
}

/// Whether the plugin `p` must be loaded after the plugin called `name`.
pub fn depends_on_plugin<I>(p: &Plugin<I>, name: &str) -> (r: bool)
    ensures
        r == plugin_depends_on(*p, name@),
{
    match &p.plugin_type {
        PluginType::Spigot(d) => d.spigot_config.depends_on(name) || d.spigot_config.soft_depends_on(
            name,
        ),
        PluginType::Paper(d) => match &d.spigot_config {
            Some(c) => c.depends_on(name) || c.soft_depends_on(name),
            None => false,
        },
    }
}

/// `flags` marks exactly the plugins listed in `placed`.
spec fn marks(flags: Seq<bool>, placed: Seq<usize>) -> bool {
    forall|j: int| 0 <= j < flags.len() ==> (#[trigger] flags[j] <==> placed.contains(j as usize))
}

fn dependencies_ready<I>(plugins: &Vec<Plugin<I>>, i: usize, placed: &Vec<bool>, Ghost(order): Ghost<Seq<usize>>) -> (r: bool)
    requires
        i < plugins@.len(),
        placed@.len() == plugins@.len(),
        marks(placed@, order),
    ensures
        r == dependencies_placed(plugins@, order, i as int),
{
    let n = plugins.len();
    let mut j: usize = 0;
    while j < n
        invariant
            n == plugins@.len(),
            i < n,
            placed@.len() == n,
            marks(placed@, order),
            j <= n,
            forall|k: int|
                0 <= k < j && plugin_depends_on(plugins@[i as int], (#[trigger] plugins@[k]).name@)
                    ==> order.contains(k as usize),
        decreases n - j,
    {
        if !placed[j] && depends_on_plugin(&plugins[i], plugins[j].name.as_str()) {
            assert(!order.contains(j as usize));
            return false;
        }
        proof {
            if plugin_depends_on(plugins@[i as int], plugins@[j as int].name@) {
                assert(placed@[j as int]);
            }
        }
        j += 1;
    }
    true
}

fn first_ready<I>(plugins: &Vec<Plugin<I>>, placed: &Vec<bool>, Ghost(order): Ghost<Seq<usize>>) -> (r: Option<usize>)
    requires
        placed@.len() == plugins@.len(),
        marks(placed@, order),
    ensures
        match r {
            Some(i) => first_ready_spec(plugins@, order, i as int),
            None => stuck(plugins@, order),
        },
{
    let n = plugins.len();
    let mut i: usize = 0;
    while i < n
        invariant
            n == plugins@.len(),
            placed@.len() == n,
            marks(placed@, order),
            i <= n,
            forall|k: int| 0 <= k < i ==> !ready(plugins@, order, k),
        decreases n - i,
    {
        let free = !placed[i];
        if free && dependencies_ready(plugins, i, placed, Ghost(order)) {
            return Some(i);
        }
        proof {
            if !free {
                assert(placed@[i as int]);
            }
        }
        i += 1;
    }
    None
}

/// The order in which the plugins are instantiated, as indices in
/// registration order, and how many of its first entries are topologically
/// sorted (all of them when no dependency cycle holds plugins back).
pub fn plugin_load_order<I>(plugins: &Vec<Plugin<I>>) -> (r: (Vec<usize>, usize))
    ensures
        load_order_spec(plugins@, r.0@, r.1 as int),
        r.0@.no_duplicates(),
{
    let n = plugins.len();
    let mut placed: Vec<bool> = Vec::new();
    let mut k: usize = 0;
    while k < n
        invariant
            k <= n,
            placed@.len() == k,
            forall|j: int| 0 <= j < k ==> !(#[trigger] placed@[j]),
        decreases n - k,
    {
        placed.push(false);
        k += 1;
    }
    let mut order: Vec<usize> = Vec::new();
    let ghost mut unplaced: Set<int> = vstd::set_lib::set_int_range(0, n as int);
    proof {
        vstd::set_lib::lemma_int_range(0, n as int);
    }
    loop
        invariant
            n == plugins@.len(),
            placed@.len() == n,
            marks(placed@, order@),
            greedy_order(plugins@, order@),
            unplaced.finite(),
            unplaced == Set::new(|j: int| 0 <= j < n && !placed@[j]),
            order@.len() + unplaced.len() == n,
        ensures
            n == plugins@.len(),
            placed@.len() == n,
            marks(placed@, order@),
            greedy_order(plugins@, order@),
            stuck(plugins@, order@),
            unplaced.finite(),
            unplaced == Set::new(|j: int| 0 <= j < n && !placed@[j]),
            order@.len() + unplaced.len() == n,
        decreases unplaced.len(),
    {
        match first_ready(plugins, &placed, Ghost(order@)) {
            Some(i) => {
                let ghost before = order@;
                order.push(i);
                placed.set(i, true);
                proof {
                    assert(order@.take(before.len() as int) =~= before);
                    assert forall|p: int| 0 <= p < order@.len() implies first_ready_spec(
                        plugins@,
                        order@.take(p),
                        #[trigger] order@[p] as int,
                    ) by {
                        if p < before.len() {
                            assert(order@.take(p) =~= before.take(p));
                            assert(first_ready_spec(plugins@, before.take(p), before[p] as int));
                        }
                    }
                    assert forall|j: int| 0 <= j < placed@.len() implies (#[trigger] placed@[j]
                        <==> order@.contains(j as usize)) by {
                        if j == i as int {
                            assert(order@[before.len() as int] == i);
                        } else {
                            if order@.contains(j as usize) {
                                let p = choose|p: int| 0 <= p < order@.len() && order@[p] == j as usize;
                                assert(p < before.len());
                                assert(before[p] == j as usize);
                            }
                            if before.contains(j as usize) {
                                let p = choose|p: int| 0 <= p < before.len() && before[p] == j as usize;
                                assert(order@[p] == j as usize);
                            }
                        }
                    }
                    vstd::set::axiom_set_remove_len(unplaced, i as int);
                    vstd::set::axiom_set_remove_finite(unplaced, i as int);
                    unplaced = unplaced.remove(i as int);
                    assert(unplaced =~= Set::new(|j: int| 0 <= j < n && !placed@[j]));
                }
            },
            None => {
                break;
            },
        }
    }
    let sorted = order.len();
    let ghost prefix = order@;
    assert(order@.take(sorted as int) =~= prefix);
    assert(Set::new(|j: int| 0 <= j < 0 && !placed@[j]) =~= Set::<int>::empty());
    let mut i: usize = 0;
    while i < n
        invariant
            n == plugins@.len(),
            placed@.len() == n,
            marks(placed@, prefix),
            i <= n,
            order@.take(sorted as int) == prefix,
            sorted <= order@.len(),
            forall|p: int| sorted <= p < order@.len() ==> !prefix.contains(#[trigger] order@[p]),
            forall|p: int| sorted <= p < order@.len() ==> #[trigger] order@[p] < i,
            forall|p: int, q: int| sorted <= p < q < order@.len() ==> order@[p] < order@[q],
            forall|j: usize| j < i ==> #[trigger] order@.contains(j),
            forall|j: usize| j < n && !prefix.contains(j) && #[trigger] order@.contains(j) ==> j < i,
            order@.len() == sorted + Set::new(|j: int| 0 <= j < i && !placed@[j]).len(),
            Set::new(|j: int| 0 <= j < i && !placed@[j]).finite(),
        decreases n - i,
    {
        let ghost before = order@;
        let ghost left = Set::new(|j: int| 0 <= j < i && !placed@[j]);
        if !placed[i] {
            order.push(i);
            proof {
                assert(order@.take(sorted as int) =~= before.take(sorted as int));
                assert(!prefix.contains(i));
                assert forall|j: usize| j < i + 1 implies #[trigger] order@.contains(j) by {
                    if j < i {
                        assert(before.contains(j));
                        let p = choose|p: int| 0 <= p < before.len() && before[p] == j;
                        assert(order@[p] == j);
                    } else {
                        assert(order@[before.len() as int] == i);
                    }
                }
                assert forall|j: usize| j < n && !prefix.contains(j) && #[trigger] order@.contains(j)
                    implies j < i + 1 by {
                    let p = choose|p: int| 0 <= p < order@.len() && order@[p] == j;
                    if p < before.len() {
                        assert(before.contains(j));
                    }
                }
                assert(Set::new(|j: int| 0 <= j < i + 1 && !placed@[j]) =~= left.insert(i as int));
                assert(!left.contains(i as int));
            }
        } else {
            proof {
                assert(Set::new(|j: int| 0 <= j < i + 1 && !placed@[j]) =~= left);
                assert forall|j: usize| j < i + 1 implies #[trigger] order@.contains(j) by {
                    if j == i {
                        assert(placed@[i as int]);
                        assert(prefix.contains(i));
                        let p = choose|p: int| 0 <= p < prefix.len() && prefix[p] == i;
                        assert(order@.take(sorted as int)[p] == i);
                    }
                }
            }
        }
        i += 1;
    }
    proof {
        assert(Set::new(|j: int| 0 <= j < i && !placed@[j]) =~= unplaced);
        assert forall|p: int| 0 <= p < order@.len() implies #[trigger] order@[p] < n by {
            if p < sorted {
                assert(order@.take(sorted as int)[p] == order@[p]);
                assert(first_ready_spec(plugins@, prefix.take(p), prefix[p] as int));
            }
        }
        assert forall|a: int, b: int| 0 <= a < order@.len() && 0 <= b < order@.len() && a != b implies order@[a]
            != order@[b] by {
            lemma_greedy_respects(plugins@, prefix);
            if a < sorted && b < sorted {
                assert(prefix[a] == order@[a] && prefix[b] == order@[b]);
            } else if a < sorted {
                assert(order@.take(sorted as int)[a] == order@[a]);
                assert(prefix.contains(order@[a]));
            } else if b < sorted {
                assert(order@.take(sorted as int)[b] == order@[b]);
                assert(prefix.contains(order@[b]));
            }
        }
    }
    (order, sorted)
}

} // verus!
