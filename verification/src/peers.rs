//! The peer-version histogram: how many peers run each user agent, the
//! most frequent first.

use vstd::prelude::*;
use vstd::string::*;
use crate::data::texts_of;

verus! {

/// One line of the histogram.
#[derive(Debug, Clone, PartialEq, Eq)]
pub struct AgentCount {
    /// The user agent.
    pub agent: String,
    /// How many peers run it.
    pub count: u64,
}

/// An `AgentCount` as plain values.
pub struct AgentCountView {
    pub agent: Seq<char>,
    pub count: u64,
}

impl View for AgentCount {
    type V = AgentCountView;

    open spec fn view(&self) -> AgentCountView {
        AgentCountView { agent: self.agent@, count: self.count }
    }
}

/// The lines of a histogram as plain values.
pub open spec fn counts_of(v: Seq<AgentCount>) -> Seq<AgentCountView> {
    Seq::new(v.len(), |i: int| v[i]@)
}

/// How often `agent` occurs in `agents`.
pub open spec fn occurrences(agents: Seq<Seq<char>>, agent: Seq<char>) -> nat
    decreases agents.len(),
{
    if agents.len() == 0 {
        0
    } else {
        occurrences(agents.drop_last(), agent) + if agents.last() == agent {
            1nat
        } else {
            0nat
        }
    }
}

/// Index of the first occurrence of `agent` in `agents` at or after
/// `from`; the length of `agents` where there is none.
pub open spec fn seen_from(agents: Seq<Seq<char>>, agent: Seq<char>, from: int) -> int
    decreases agents.len() - from,
{
    if from >= agents.len() {
        agents.len() as int
    } else if agents[from] == agent {
        from
    } else {
        seen_from(agents, agent, from + 1)
    }
}

/// Index of the first occurrence of `agent` in `agents`.
pub open spec fn first_seen(agents: Seq<Seq<char>>, agent: Seq<char>) -> int {
    seen_from(agents, agent, 0)
}

/// The order of the histogram: the more frequent agent first, and of two
/// equally frequent ones the one that was met first.
pub open spec fn ranks_before(agents: Seq<Seq<char>>, a: Seq<char>, b: Seq<char>) -> bool {
    occurrences(agents, a) > occurrences(agents, b) || (occurrences(agents, a) == occurrences(
        agents,
        b,
    ) && first_seen(agents, a) < first_seen(agents, b))
}

/// Whether `lines` holds `agent`.
pub open spec fn has_line(lines: Seq<AgentCountView>, agent: Seq<char>) -> bool {
    exists|i: int| 0 <= i < lines.len() && #[trigger] lines[i].agent == agent
}

/// `lines` is the histogram of `agents`: one line for each agent that
/// occurs, with the number of its occurrences, in the order of
/// `ranks_before`.
pub open spec fn is_histogram(lines: Seq<AgentCountView>, agents: Seq<Seq<char>>) -> bool {
    &&& forall|i: int|
        0 <= i < lines.len() ==> agents.contains(#[trigger] lines[i].agent) && lines[i].count
            == occurrences(agents, lines[i].agent)
    &&& forall|k: int| 0 <= k < agents.len() ==> has_line(lines, #[trigger] agents[k])
    &&& forall|i: int, j: int|
        0 <= i < j < lines.len() ==> ranks_before(
            agents,
            #[trigger] lines[i].agent,
            #[trigger] lines[j].agent,
        )
}

/// An agent occurs at most as often as there are peers.
proof fn lemma_occurrences_bound(agents: Seq<Seq<char>>, agent: Seq<char>)
    ensures
        occurrences(agents, agent) <= agents.len(),
    decreases agents.len(),
{
    if agents.len() > 0 {
        lemma_occurrences_bound(agents.drop_last(), agent);
    }
}

/// An agent that is nowhere in `agents` occurs zero times.
proof fn lemma_occurrences_absent(agents: Seq<Seq<char>>, agent: Seq<char>)
    requires
        forall|m: int| 0 <= m < agents.len() ==> agents[m] != agent,
    ensures
        occurrences(agents, agent) == 0,
    decreases agents.len(),
{
    if agents.len() > 0 {
        lemma_occurrences_absent(agents.drop_last(), agent);
    }
}

/// Counting over one more peer.
proof fn lemma_occurrences_step(agents: Seq<Seq<char>>, k: int, agent: Seq<char>)
    requires
        0 <= k < agents.len(),
    ensures
        occurrences(agents.take(k + 1), agent) == occurrences(agents.take(k), agent) + if agents[k]
            == agent {
            1nat
        } else {
            0nat
        },
{
    assert(agents.take(k + 1).drop_last() =~= agents.take(k));
}

/// The first occurrence is where the agent stands with no equal before.
proof fn lemma_first_seen(agents: Seq<Seq<char>>, agent: Seq<char>, from: int, at: int)
    requires
        0 <= from <= at < agents.len(),
        agents[at] == agent,
        forall|m: int| from <= m < at ==> agents[m] != agent,
    ensures
        seen_from(agents, agent, from) == at,
    decreases at - from,
{
    if from < at {
        lemma_first_seen(agents, agent, from + 1, at);
    }
}

/// The sum of `counts`.
pub open spec fn total_of(counts: Seq<u64>) -> nat
    decreases counts.len(),
{
    if counts.len() == 0 {
        0
    } else {
        total_of(counts.drop_last()) + counts.last() as nat
    }
}

/// The counts of the lines of a histogram, line by line.
pub open spec fn line_counts(lines: Seq<AgentCountView>) -> Seq<u64> {
    Seq::new(lines.len(), |i: int| lines[i].count)
}

/// The peers that the lines of a histogram count between them.
pub open spec fn counted(lines: Seq<AgentCountView>) -> nat {
    total_of(line_counts(lines))
}

/// Changing one count changes the sum by as much.
proof fn lemma_total_update(counts: Seq<u64>, at: int, count: u64)
    requires
        0 <= at < counts.len(),
    ensures
        total_of(counts.update(at, count)) + counts[at] == total_of(counts) + count,
    decreases counts.len(),
{
    let changed = counts.update(at, count);
    if at == counts.len() - 1 {
        assert(changed.drop_last() =~= counts.drop_last());
    } else {
        lemma_total_update(counts.drop_last(), at, count);
        assert(changed.drop_last() =~= counts.drop_last().update(at, count));
    }
}

/// A count set between the others adds to the sum.
proof fn lemma_total_insert(counts: Seq<u64>, at: int, count: u64)
    requires
        0 <= at <= counts.len(),
    ensures
        total_of(counts.insert(at, count)) == total_of(counts) + count,
    decreases counts.len(),
{
    let grown = counts.insert(at, count);
    if at == counts.len() {
        assert(grown.drop_last() =~= counts);
    } else {
        lemma_total_insert(counts.drop_last(), at, count);
        assert(grown.drop_last() =~= counts.drop_last().insert(at, count));
    }
}

/// Whether one of `names` is `agent`.
pub open spec fn has_name(names: Seq<String>, agent: Seq<char>) -> bool {
    exists|i: int| 0 <= i < names.len() && #[trigger] names[i]@ == agent
}

/// What the tally holds after the first `k` peers: each agent met so far
/// once, in the order of first meeting, with its count.
pub open spec fn is_tally(
    names: Seq<String>,
    counts: Seq<u64>,
    firsts: Seq<int>,
    agents: Seq<Seq<char>>,
    k: int,
) -> bool {
    &&& names.len() == counts.len() == firsts.len()
    &&& forall|i: int|
        0 <= i < names.len() ==> 0 <= #[trigger] firsts[i] < k && agents[firsts[i]] == names[i]@
    &&& forall|i: int, m: int|
        0 <= i < names.len() && 0 <= m < firsts[i] ==> #[trigger] agents[m] != #[trigger] names[i]@
    &&& forall|i: int, j: int| 0 <= i < j < names.len() ==> #[trigger] firsts[i] < #[trigger] firsts[j]
    &&& forall|i: int|
        0 <= i < names.len() ==> #[trigger] counts[i] == occurrences(agents.take(k), names[i]@)
    &&& forall|m: int| 0 <= m < k ==> has_name(names, #[trigger] agents[m])
}

/// Two lines of a tally with the same agent are the same line.
proof fn lemma_tally_distinct(
    names: Seq<String>,
    counts: Seq<u64>,
    firsts: Seq<int>,
    agents: Seq<Seq<char>>,
    k: int,
    i: int,
    j: int,
)
    requires
        is_tally(names, counts, firsts, agents, k),
        0 <= i < names.len(),
        0 <= j < names.len(),
        names[i]@ == names[j]@,
    ensures
        i == j,
{
    if i != j {
        let (lo, hi) = if i < j {
            (i, j)
        } else {
            (j, i)
        };
        assert(firsts[lo] < firsts[hi]);
    }
}

/// Counts the agents of `agents` in the order in which they are met.
fn tally(agents: &Vec<String>) -> (result: (Vec<String>, Vec<u64>, Ghost<Seq<int>>))
    ensures
        is_tally(result.0@, result.1@, result.2@, texts_of(agents@), agents@.len() as int),
        total_of(result.1@) == agents@.len(),
{
    let ghost all = texts_of(agents@);
    let mut names: Vec<String> = Vec::new();
    let mut counts: Vec<u64> = Vec::new();
    let ghost mut firsts: Seq<int> = Seq::empty();
    let mut k: usize = 0;
    while k < agents.len()
        invariant
            k <= agents@.len(),
            all == texts_of(agents@),
            is_tally(names@, counts@, firsts, all, k as int),
            total_of(counts@) == k,
        decreases agents@.len() - k,
    {
        let agent = &agents[k];
        let mut j: usize = 0;
        while j < names.len() && !(names[j] == *agent)
            invariant
                j <= names@.len(),
                forall|i: int| 0 <= i < j ==> names@[i]@ != agent@,
            decreases names@.len() - j,
        {
            j = j + 1;
        }
        let ghost old_names = names@;
        let ghost old_counts = counts@;
        proof {
            assert forall|i: int| 0 <= i < old_names.len() implies occurrences(
                all.take(k + 1),
                old_names[i]@,
            ) == occurrences(all.take(k as int), old_names[i]@) + if all[k as int] == old_names[i]@ {
                1nat
            } else {
                0nat
            } by {
                lemma_occurrences_step(all, k as int, old_names[i]@);
            }
        }
        if j < names.len() {
            proof {
                lemma_occurrences_bound(all.take(k as int), agent@);
            }
            let seen = counts[j];
            proof {
                lemma_total_update(counts@, j as int, (seen + 1) as u64);
            }
            counts.set(j, seen + 1);
        } else {
            proof {
                lemma_occurrences_absent(all.take(k as int), agent@);
            }
            names.push(agent.clone());
            counts.push(1);
            assert(counts@.drop_last() =~= old_counts);
            proof {
                firsts = firsts.push(k as int);
                assert(is_tally(names@, counts@, firsts, all, k + 1)) by {
                    let last = old_names.len() as int;
                    assert(names@[last]@ == agent@);
                    assert forall|i: int| 0 <= i < names@.len() implies #[trigger] counts@[i]
                        == occurrences(all.take(k + 1), names@[i]@) by {
                        if i >= last {
                            lemma_occurrences_step(all, k as int, agent@);
                        }
                    }
                    assert forall|m: int| 0 <= m < k + 1 implies has_name(
                        names@,
                        #[trigger] all[m],
                    ) by {
                        if m != k {
                            let w = choose|w: int|
                                0 <= w < old_names.len() && #[trigger] old_names[w]@ == all[m];
                            assert(names@[w] == old_names[w]);
                        }
                    }
                }
            }
        }
        k = k + 1;
    }
    (names, counts, Ghost(firsts))
}

/// What the ranking holds after `t` lines of the tally were placed:
/// those lines, the larger count first and equal counts in the tally's
/// order. `from` gives for each placed line its index in the tally.
pub open spec fn is_ranking(
    lines: Seq<AgentCount>,
    from: Seq<int>,
    names: Seq<String>,
    counts: Seq<u64>,
    t: int,
) -> bool {
    &&& lines.len() == t == from.len()
    &&& forall|p: int|
        0 <= p < t ==> 0 <= #[trigger] from[p] < t && lines[p].agent@ == names[from[p]]@
            && lines[p].count == counts[from[p]]
    &&& forall|p: int, q: int|
        0 <= p < q < t ==> counts[#[trigger] from[p]] > counts[#[trigger] from[q]] || (counts[from[p]]
            == counts[from[q]] && from[p] < from[q])
    &&& forall|i: int| 0 <= i < t ==> from.contains(i)
}

/// Orders the lines of a tally: the larger count first, equal counts in
/// the order of the tally.
fn rank(names: &Vec<String>, counts: &Vec<u64>) -> (result: (Vec<AgentCount>, Ghost<Seq<int>>))
    requires
        names@.len() == counts@.len(),
    ensures
        is_ranking(result.0@, result.1@, names@, counts@, names@.len() as int),
        counted(counts_of(result.0@)) == total_of(counts@),
{
    let mut lines: Vec<AgentCount> = Vec::new();
    let ghost mut from: Seq<int> = Seq::empty();
    let mut t: usize = 0;
    while t < names.len()
        invariant
            t <= names@.len(),
            names@.len() == counts@.len(),
            is_ranking(lines@, from, names@, counts@, t as int),
            counted(counts_of(lines@)) == total_of(counts@.take(t as int)),
        decreases names@.len() - t,
    {
        let count = counts[t];
        let mut at: usize = 0;
        while at < lines.len() && lines[at].count >= count
            invariant
                at <= lines@.len(),
                forall|p: int| 0 <= p < at ==> lines@[p].count >= count,
            decreases lines@.len() - at,
        {
            at = at + 1;
        }
        let ghost old_lines = lines@;
        let ghost old_from = from;
        proof {
            // every line from `at` on has a smaller count
            assert forall|q: int| at <= q < old_lines.len() implies old_lines[q].count < count by {
                if q > at {
                    assert(counts@[old_from[at as int]] >= counts@[old_from[q]]);
                }
            }
        }
        lines.insert(at, AgentCount { agent: names[t].clone(), count });
        proof {
            let had = line_counts(counts_of(old_lines));
            lemma_total_insert(had, at as int, count);
            assert(line_counts(counts_of(lines@)) =~= had.insert(at as int, count));
            assert(counts@.take(t + 1).drop_last() =~= counts@.take(t as int));
            from = from.insert(at as int, t as int);
            assert(is_ranking(lines@, from, names@, counts@, t + 1)) by {
                assert forall|i: int| 0 <= i < t + 1 implies from.contains(i) by {
                    if i == t {
                        assert(from[at as int] == i);
                    } else {
                        assert(old_from.contains(i));
                        let w = choose|w: int| 0 <= w < old_from.len() && old_from[w] == i;
                        if w < at {
                            assert(from[w] == i);
                        } else {
                            assert(from[w + 1] == i);
                        }
                    }
                }
            }
        }
        t = t + 1;
    }
    assert(counts@.take(names@.len() as int) =~= counts@);
    (lines, Ghost(from))
}

/// The histogram of the user agents of `agents`: one line for each, with
/// the number of peers that run it, the most frequent first and, among
/// equally frequent ones, the one met first. The lines count every peer
/// once.
pub fn histogram(agents: &Vec<String>) -> (lines: Vec<AgentCount>)
    ensures
        is_histogram(counts_of(lines@), texts_of(agents@)),
        counted(counts_of(lines@)) == agents@.len(),
{
    let (names, counts, Ghost(firsts)) = tally(agents);
    let (lines, Ghost(from)) = rank(&names, &counts);
    proof {
        let all = texts_of(agents@);
        let n = agents@.len() as int;
        let view = counts_of(lines@);
        assert(all.take(n) =~= all);
        assert forall|i: int| 0 <= i < names@.len() implies first_seen(all, names@[i]@)
            == #[trigger] firsts[i] by {
            lemma_first_seen(all, names@[i]@, 0, firsts[i]);
        }
        assert forall|i: int| 0 <= i < view.len() implies all.contains(#[trigger] view[i].agent)
            && view[i].count == occurrences(all, view[i].agent) by {
            let w = from[i];
            assert(all[firsts[w]] == names@[w]@);
        }
        assert forall|k: int| 0 <= k < all.len() implies has_line(view, #[trigger] all[k]) by {
            let w = choose|w: int| 0 <= w < names@.len() && #[trigger] names@[w]@ == all[k];
            assert(from.contains(w));
            let p = choose|p: int| 0 <= p < from.len() && from[p] == w;
            assert(view[p].agent == all[k]);
        }
        assert forall|i: int, j: int| 0 <= i < j < view.len() implies ranks_before(
            all,
            #[trigger] view[i].agent,
            #[trigger] view[j].agent,
        ) by {
            let a = from[i];
            let b = from[j];
        }
    }
    lines
}

/// Two histograms of the same peers agree on their first `k` lines.
proof fn lemma_histogram_prefix(
    a: Seq<AgentCountView>,
    b: Seq<AgentCountView>,
    agents: Seq<Seq<char>>,
    k: int,
)
    requires
        is_histogram(a, agents),
        is_histogram(b, agents),
        0 <= k <= a.len(),
        k <= b.len(),
    ensures
        forall|i: int| 0 <= i < k ==> a[i] == b[i],
    decreases k,
{
    if k > 0 {
        lemma_histogram_prefix(a, b, agents, k - 1);
        let x = a[k - 1].agent;
        let y = b[k - 1].agent;
    }
}

/// No line of a histogram stands beyond the lines of another of the same
/// peers.
proof fn lemma_histogram_length(
    a: Seq<AgentCountView>,
    b: Seq<AgentCountView>,
    agents: Seq<Seq<char>>,
)
    requires
        is_histogram(a, agents),
        is_histogram(b, agents),
    ensures
        a.len() <= b.len(),
{
    if a.len() > b.len() {
        let n = b.len() as int;
        lemma_histogram_prefix(a, b, agents, n);
        let x = a[n].agent;
    }
}

/// The peers determine their histogram: two sequences of lines that are
/// both the histogram of the same peers are the same sequence.
pub proof fn law_histogram_unique(
    a: Seq<AgentCountView>,
    b: Seq<AgentCountView>,
    agents: Seq<Seq<char>>,
)
    requires
        is_histogram(a, agents),
        is_histogram(b, agents),
    ensures
        a == b,
{
    lemma_histogram_length(a, b, agents);
    lemma_histogram_length(b, a, agents);
    lemma_histogram_prefix(a, b, agents, a.len() as int);
}

/// The user agents of a histogram, line by line.
pub fn agent_names(lines: &Vec<AgentCount>) -> (names: Vec<String>)
    ensures
        names@.len() == lines@.len(),
        forall|i: int| 0 <= i < lines@.len() ==> (#[trigger] names@[i])@ == lines@[i].agent@,
{
    let mut names: Vec<String> = Vec::new();
    let mut i: usize = 0;
    while i < lines.len()
        invariant
            i <= lines@.len(),
            names@.len() == i,
            forall|k: int| 0 <= k < i ==> (#[trigger] names@[k])@ == lines@[k].agent@,
        decreases lines@.len() - i,
    {
        names.push(lines[i].agent.clone());
        i = i + 1;
    }
    names
}

} // verus!
