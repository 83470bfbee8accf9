use vstd::prelude::*;
use crate::config::ResolvedConfig;
use crate::status::SyncStatus;

verus! {

/// The views of a list of strings.
pub open spec fn views_of(v: Seq<String>) -> Seq<Seq<char>> {
    v.map_values(|s: String| s@)
}

/// The view of an optional string.
pub open spec fn opt_view(o: Option<String>) -> Option<Seq<char>> {
    match o {
        Some(s) => Some(s@),
        None => None,
    }
}

/// Whether an entry is picked by a command: explicit names win, then the
/// category filter; with neither, every entry is picked.
pub open spec fn is_selected(
    name: Seq<char>,
    category: Seq<char>,
    names: Seq<Seq<char>>,
    filter: Option<Seq<char>>,
) -> bool {
    if names.len() > 0 {
        names.contains(name)
    } else {
        match filter {
            Some(c) => category == c,
            None => true,
        }
    }
}

/// Whether `r` lists, in increasing order, exactly the indices of `configs`
/// that the filter picks.
pub open spec fn is_selection(
    r: Seq<usize>,
    configs: Seq<ResolvedConfig>,
    names: Seq<Seq<char>>,
    filter: Option<Seq<char>>,
) -> bool {
    &&& forall|k: int| 0 <= k < r.len() ==> #[trigger] r[k] < configs.len()
    &&& forall|k: int, l: int| 0 <= k < l < r.len() ==> r[k] < r[l]
    &&& forall|k: int|
        0 <= k < r.len() ==> is_selected(
            configs[r[k] as int].name@,
            configs[r[k] as int].category@,
            names,
            filter,
        )
    &&& forall|i: int|
        0 <= i < configs.len() && is_selected(
            (#[trigger] configs[i]).name@,
            configs[i].category@,
            names,
            filter,
        ) ==> r.contains(i as usize)
}

fn contains_name(names: &Vec<String>, name: &String) -> (r: bool)
    ensures
        r == views_of(names@).contains(name@),
{
    let mut j: usize = 0;
    while j < names.len()
        invariant
            j <= names@.len(),
            forall|q: int| 0 <= q < j ==> names@[q]@ != name@,
        decreases names@.len() - j,
    {
        if names[j].eq(name) {
            assert(views_of(names@)[j as int] == name@);
            return true;
        }
        j = j + 1;
    }
    assert(!views_of(names@).contains(name@)) by {
        if views_of(names@).contains(name@) {
            let q = choose|q: int| 0 <= q < views_of(names@).len() && views_of(names@)[q] == name@;
            assert(names@[q]@ == name@);
        }
    }
    false
}

/// The indices of the entries a command works on, in configuration order.
pub fn select_entries(configs: &Vec<ResolvedConfig>, names: &Vec<String>, category: &Option<String>) -> (r:
    Vec<usize>)
    ensures
        is_selection(
            r@,
            configs@,
            views_of(names@),
            opt_view(*category),
        ),
{
    let ghost filter = opt_view(*category);
    let mut out: Vec<usize> = Vec::new();
    let mut i: usize = 0;
    while i < configs.len()
        invariant
            i <= configs@.len(),
            filter == opt_view(*category),
            forall|k: int| 0 <= k < out@.len() ==> #[trigger] out@[k] < i,
            forall|k: int, l: int| 0 <= k < l < out@.len() ==> out@[k] < out@[l],
            forall|k: int|
                0 <= k < out@.len() ==> is_selected(
                    configs@[out@[k] as int].name@,
                    configs@[out@[k] as int].category@,
                    views_of(names@),
                    filter,
                ),
            forall|q: int|
                0 <= q < i && is_selected(
                    (#[trigger] configs@[q]).name@,
                    configs@[q].category@,
                    views_of(names@),
                    filter,
                ) ==> out@.contains(q as usize),
        decreases configs@.len() - i,
    {
        let c = &configs[i];
        assert(views_of(names@).len() == names@.len());
        let picked = if names.len() > 0 {
            contains_name(names, &c.name)
        } else {
            match category {
                Some(cat) => c.category.eq(cat),
                None => true,
            }
        };
        assert(picked == is_selected(c.name@, c.category@, views_of(names@), filter));
        let ghost prev = out@;
        if picked {
            out.push(i);
            assert forall|q: int|
                0 <= q < i && is_selected(
                    (#[trigger] configs@[q]).name@,
                    configs@[q].category@,
                    views_of(names@),
                    filter,
                ) implies out@.contains(q as usize) by {
                let w = choose|w: int| 0 <= w < prev.len() && prev[w] == q as usize;
                assert(out@[w] == q as usize);
            }
            assert(out@[out@.len() - 1] == i);
        } else {
            assert forall|q: int|
                0 <= q < i + 1 && is_selected(
                    (#[trigger] configs@[q]).name@,
                    configs@[q].category@,
                    views_of(names@),
                    filter,
                ) implies out@.contains(q as usize) by {
                if q == i {
                    assert(false);
                }
            }
        }
        i = i + 1;
    }
    out
}

/// The index of the first entry with the given name.
pub fn find_entry(configs: &Vec<ResolvedConfig>, name: &String) -> (r: Option<usize>)
    ensures
        match r {
            Some(i) => i < configs@.len() && configs@[i as int].name@ == name@ && forall|q: int|
                0 <= q < i ==> (#[trigger] configs@[q]).name@ != name@,
            None => forall|q: int| 0 <= q < configs@.len() ==> (#[trigger] configs@[q]).name@ != name@,
        },
{
    let mut i: usize = 0;
    while i < configs.len()
        invariant
            i <= configs@.len(),
            forall|q: int| 0 <= q < i ==> (#[trigger] configs@[q]).name@ != name@,
        decreases configs@.len() - i,
    {
        if configs[i].name.eq(name) {
            return Some(i);
        }
        i = i + 1;
    }
    None
}

/// The number of `Synced` statuses in a prefix of a list.
pub open spec fn synced_count(s: Seq<SyncStatus>) -> nat
    decreases s.len(),
{
    if s.len() == 0 {
        0
    } else {
        synced_count(s.drop_last()) + if s.last() == SyncStatus::Synced {
            1nat
        } else {
            0nat
        }
    }
}

/// How many of the statuses are `Synced`.
pub fn count_synced(statuses: &Vec<SyncStatus>) -> (r: usize)
    ensures
        r == synced_count(statuses@),
{
    let mut n: usize = 0;
    let mut i: usize = 0;
    while i < statuses.len()
        invariant
            i <= statuses@.len(),
            n == synced_count(statuses@.subrange(0, i as int)),
            n <= i,
        decreases statuses@.len() - i,
    {
        assert(statuses@.subrange(0, i + 1).drop_last() =~= statuses@.subrange(0, i as int));
        if statuses[i] == SyncStatus::Synced {
            n = n + 1;
        }
        i = i + 1;
    }
    assert(statuses@.subrange(0, i as int) =~= statuses@);
    n
}

/// Whether the status listing shows an entry: with `outdated`, synced
/// entries are left out.
pub fn shown_in_status(status: SyncStatus, outdated: bool) -> (r: bool)
    ensures
        r == !(outdated && status == SyncStatus::Synced),
{
    !(outdated && status == SyncStatus::Synced)
}

} // verus!
