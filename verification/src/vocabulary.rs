//! The fixed vocabulary of commit types, filtering it by a query and
//! decorating a type name with its glyph.

use vstd::prelude::*;
use crate::text::{contains, is_substring, lowercase, same_text, to_lowercase};

verus! {

/// One entry of the vocabulary: a short name and the glyph that decorates it.
#[derive(Clone, Copy, Debug, PartialEq)]
pub struct CommitType {
    pub name: &'static str,
    pub emoji: &'static str,
}

/// The vocabulary, in its fixed order.
pub open spec fn vocabulary() -> Seq<CommitType> {
    seq![
        CommitType { name: "feat", emoji: "✨" },
        CommitType { name: "fix", emoji: "🐛" },
        CommitType { name: "docs", emoji: "📚" },
        CommitType { name: "style", emoji: "💎" },
        CommitType { name: "refactor", emoji: "♻️" },
        CommitType { name: "perf", emoji: "⚡" },
        CommitType { name: "test", emoji: "🧪" },
        CommitType { name: "ci", emoji: "👷" },
        CommitType { name: "chore", emoji: "🔧" },
    ]
}

/// The vocabulary as a value.
pub fn commit_types() -> (types: Vec<CommitType>)
    ensures
        types@ == vocabulary(),
{
    let types = vec![
        CommitType { name: "feat", emoji: "✨" },
        CommitType { name: "fix", emoji: "🐛" },
        CommitType { name: "docs", emoji: "📚" },
        CommitType { name: "style", emoji: "💎" },
        CommitType { name: "refactor", emoji: "♻️" },
        CommitType { name: "perf", emoji: "⚡" },
        CommitType { name: "test", emoji: "🧪" },
        CommitType { name: "ci", emoji: "👷" },
        CommitType { name: "chore", emoji: "🔧" },
    ];
    assert(types@ =~= vocabulary());
    types
}

/// An entry is kept by a query when the query, in lower case, occurs in the
/// entry's name, in lower case.
pub open spec fn matches_query(entry: CommitType, query: Seq<char>) -> bool {
    is_substring(lowercase(query), lowercase(entry.name@))
}

/// The positions `0, 1, .., n - 1`.
pub open spec fn positions(n: nat) -> Seq<int> {
    Seq::new(n, |i: int| i)
}

/// The positions in the vocabulary of the entries that `query` keeps, in
/// vocabulary order.
pub open spec fn filtered_indices(query: Seq<char>) -> Seq<int> {
    positions(vocabulary().len()).filter(|i: int| matches_query(vocabulary()[i], query))
}

/// The entries that `input` keeps, each with its position in the vocabulary,
/// in vocabulary order.
pub fn filter_type_by_input(input: &str) -> (filtered: Vec<(usize, CommitType)>)
    ensures
        filtered@.len() == filtered_indices(input@).len(),
        forall|k: int|
            0 <= k < filtered@.len() ==> {
                &&& (#[trigger] filtered@[k]).0 == filtered_indices(input@)[k]
                &&& 0 <= filtered@[k].0 < vocabulary().len()
                &&& filtered@[k].1 == vocabulary()[filtered@[k].0 as int]
            },
{
    let types = commit_types();
    let needle = to_lowercase(input);
    let mut filtered: Vec<(usize, CommitType)> = Vec::new();
    let ghost keeps = |i: int| matches_query(vocabulary()[i], input@);
    proof {
        reveal(Seq::filter);
        assert(positions(0).filter(keeps) =~= Seq::<int>::empty());
    }
    let mut i: usize = 0;
    while i < types.len()
        invariant
            types@ == vocabulary(),
            needle@ == lowercase(input@),
            keeps == (|i: int| matches_query(vocabulary()[i], input@)),
            i <= types.len(),
            filtered@.len() == positions(i as nat).filter(keeps).len(),
            forall|k: int|
                0 <= k < filtered@.len() ==> {
                    &&& (#[trigger] filtered@[k]).0 == positions(i as nat).filter(keeps)[k]
                    &&& 0 <= filtered@[k].0 < vocabulary().len()
                    &&& filtered@[k].1 == vocabulary()[filtered@[k].0 as int]
                },
        decreases types.len() - i,
    {
        let entry = types[i];
        let lowered = to_lowercase(entry.name);
        let keep = contains(lowered.as_str(), needle.as_str());
        proof {
            assert(positions((i + 1) as nat) =~= positions(i as nat).push(i as int));
            positions(i as nat).lemma_filter_push(i as int, keeps);
            assert(keep == keeps(i as int));
        }
        if keep {
            filtered.push((i, entry));
        }
        i += 1;
    }
    filtered
}

/// Filtering the first `n` positions keeps exactly those that satisfy `keeps`,
/// in increasing order.
pub proof fn lemma_filtered_positions(n: nat, keeps: spec_fn(int) -> bool)
    ensures
        forall|k: int|
            0 <= k < positions(n).filter(keeps).len() ==> {
                &&& 0 <= #[trigger] positions(n).filter(keeps)[k] < n
                &&& keeps(positions(n).filter(keeps)[k])
            },
        forall|j: int, k: int|
            0 <= j < k < positions(n).filter(keeps).len() ==> positions(n).filter(keeps)[j]
                < positions(n).filter(keeps)[k],
        forall|i: int|
            0 <= i < n && #[trigger] keeps(i) ==> positions(n).filter(keeps).contains(i),
    decreases n,
{
    reveal(Seq::filter);
    if n > 0 {
        let shorter = positions((n - 1) as nat);
        let kept = shorter.filter(keeps);
        lemma_filtered_positions((n - 1) as nat, keeps);
        assert(positions(n) =~= shorter.push(n - 1));
        shorter.lemma_filter_push(n - 1, keeps);
        let all = positions(n).filter(keeps);
        assert forall|i: int| 0 <= i < n && #[trigger] keeps(i) implies all.contains(i) by {
            if i == n - 1 {
                assert(all[all.len() - 1] == i);
            } else {
                assert(kept.contains(i));
                let k = choose|k: int| 0 <= k < kept.len() && kept[k] == i;
                assert(all[k] == i);
            }
        }
    }
}

/// Two predicates that agree on the first `n` positions keep the same ones.
pub proof fn lemma_filter_agrees(n: nat, p: spec_fn(int) -> bool, q: spec_fn(int) -> bool)
    requires
        forall|i: int| 0 <= i < n ==> #[trigger] p(i) == q(i),
    ensures
        positions(n).filter(p) == positions(n).filter(q),
    decreases n,
{
    reveal(Seq::filter);
    if n > 0 {
        let shorter = positions((n - 1) as nat);
        lemma_filter_agrees((n - 1) as nat, p, q);
        assert(positions(n) =~= shorter.push(n - 1));
        shorter.lemma_filter_push(n - 1, p);
        shorter.lemma_filter_push(n - 1, q);
    }
}

/// A predicate that holds of each of the first `n` positions keeps them all.
pub proof fn lemma_filter_keeps_all(n: nat, keeps: spec_fn(int) -> bool)
    requires
        forall|i: int| 0 <= i < n ==> #[trigger] keeps(i),
    ensures
        positions(n).filter(keeps) == positions(n),
    decreases n,
{
    reveal(Seq::filter);
    if n > 0 {
        let shorter = positions((n - 1) as nat);
        lemma_filter_keeps_all((n - 1) as nat, keeps);
        assert(positions(n) =~= shorter.push(n - 1));
        shorter.lemma_filter_push(n - 1, keeps);
    }
}

/// What filtering yields: positions of the vocabulary, in increasing order,
/// each of an entry that the query keeps, and none that it keeps is missing.
pub proof fn law_filter_is_exact(query: Seq<char>)
    ensures
        forall|k: int|
            0 <= k < filtered_indices(query).len() ==> {
                &&& 0 <= #[trigger] filtered_indices(query)[k] < vocabulary().len()
                &&& matches_query(vocabulary()[filtered_indices(query)[k]], query)
            },
        forall|j: int, k: int|
            0 <= j < k < filtered_indices(query).len() ==> filtered_indices(query)[j]
                < filtered_indices(query)[k],
        forall|i: int|
            0 <= i < vocabulary().len() && matches_query(vocabulary()[i], query)
                ==> filtered_indices(query).contains(i),
{
    let keeps = |i: int| matches_query(vocabulary()[i], query);
    lemma_filtered_positions(vocabulary().len(), keeps);
    assert forall|i: int|
        0 <= i < vocabulary().len() && matches_query(
            vocabulary()[i],
            query,
        ) implies filtered_indices(query).contains(i) by {
        assert(keeps(i));
    }
}

/// Filtering ignores case: two queries with the same lower-case form keep
/// the same entries.
pub proof fn law_filter_ignores_case(first: Seq<char>, second: Seq<char>)
    requires
        lowercase(first) == lowercase(second),
    ensures
        filtered_indices(first) == filtered_indices(second),
{
    lemma_filter_agrees(
        vocabulary().len(),
        |i: int| matches_query(vocabulary()[i], first),
        |i: int| matches_query(vocabulary()[i], second),
    );
}

/// A query whose lower-case form is empty keeps the whole vocabulary, in
/// its own order.
pub proof fn law_empty_query_keeps_all(query: Seq<char>)
    requires
        lowercase(query).len() == 0,
    ensures
        filtered_indices(query) == positions(vocabulary().len()),
{
    let keeps = |i: int| matches_query(vocabulary()[i], query);
    assert forall|i: int| 0 <= i < vocabulary().len() implies #[trigger] keeps(i) by {
        assert(lowercase(query) =~= Seq::<char>::empty());
        crate::text::lemma_substring_basics(lowercase(vocabulary()[i].name@));
    }
    lemma_filter_keeps_all(vocabulary().len(), keeps);
}

/// The position of the first entry of the first `n` whose name is `name`.
pub open spec fn position_among(name: Seq<char>, n: nat) -> Option<int>
    decreases n,
{
    if n == 0 {
        None
    } else {
        match position_among(name, (n - 1) as nat) {
            Some(i) => Some(i),
            None => if n <= vocabulary().len() && vocabulary()[n - 1].name@ == name {
                Some(n - 1)
            } else {
                None
            },
        }
    }
}

/// The position in the vocabulary of the entry named `name`, if there is one.
pub open spec fn position_of(name: Seq<char>) -> Option<int> {
    position_among(name, vocabulary().len())
}

/// An entry shown with its glyph: the glyph, one space, the name.
pub open spec fn with_glyph(entry: CommitType) -> Seq<char> {
    entry.emoji@ + seq![' '] + entry.name@
}

/// A type name with its glyph in front, or the name alone where the
/// vocabulary has no entry of that name.
pub open spec fn decorated(name: Seq<char>) -> Seq<char> {
    match position_of(name) {
        Some(i) => with_glyph(vocabulary()[i]),
        None => name,
    }
}

/// A position found among the first `n` entries is still the one found among
/// the first `m`, for every `m` from `n` on.
proof fn lemma_position_stays(name: Seq<char>, n: nat, m: nat)
    requires
        n <= m,
        position_among(name, n) is Some,
    ensures
        position_among(name, m) == position_among(name, n),
    decreases m,
{
    if n < m {
        lemma_position_stays(name, n, (m - 1) as nat);
    }
}

/// What searching the first `n` entries for `name` finds: none, where none of
/// them has that name; else the first that has it.
pub proof fn lemma_position_found(name: Seq<char>, n: nat)
    requires
        n <= vocabulary().len(),
    ensures
        match position_among(name, n) {
            Some(i) => 0 <= i < n && vocabulary()[i].name@ == name && forall|j: int|
                0 <= j < i ==> (#[trigger] vocabulary()[j]).name@ != name,
            None => forall|j: int| 0 <= j < n ==> (#[trigger] vocabulary()[j]).name@ != name,
        },
    decreases n,
{
    if n > 0 {
        lemma_position_found(name, (n - 1) as nat);
    }
}

/// No two entries of the vocabulary have the same name.
pub proof fn lemma_names_differ()
    ensures
        forall|i: int, j: int|
            0 <= i < j < vocabulary().len() ==> (#[trigger] vocabulary()[i]).name@ != (
            #[trigger] vocabulary()[j]).name@,
{
    reveal_strlit("feat");
    reveal_strlit("fix");
    reveal_strlit("docs");
    reveal_strlit("style");
    reveal_strlit("refactor");
    reveal_strlit("perf");
    reveal_strlit("test");
    reveal_strlit("ci");
    reveal_strlit("chore");
    let names = vocabulary().map_values(|entry: CommitType| entry.name@);
    assert(names =~= seq![
        "feat"@,
        "fix"@,
        "docs"@,
        "style"@,
        "refactor"@,
        "perf"@,
        "test"@,
        "ci"@,
        "chore"@,
    ]);
    assert forall|i: int, j: int| 0 <= i < j < vocabulary().len() implies (
    #[trigger] vocabulary()[i]).name@ != (#[trigger] vocabulary()[j]).name@ by {
        assert(names[i] == vocabulary()[i].name@ && names[j] == vocabulary()[j].name@);
        if names[i].len() == names[j].len() {
            assert(names[i][0] != names[j][0]);
        }
    }
}

/// How a type name is decorated: the name of an entry gets that entry's
/// glyph and one space in front, and every other name stays as it is.
pub proof fn law_decoration(name: Seq<char>)
    ensures
        forall|i: int|
            0 <= i < vocabulary().len() && (#[trigger] vocabulary()[i]).name@ == name ==> decorated(
                name,
            ) == vocabulary()[i].emoji@ + seq![' '] + name,
        (forall|i: int| 0 <= i < vocabulary().len() ==> (#[trigger] vocabulary()[i]).name@ != name)
            ==> decorated(name) == name,
{
    lemma_position_found(name, vocabulary().len());
    lemma_names_differ();
}

/// The glyph of `entry`, one space, and its name.
pub fn decorate(entry: &CommitType) -> (label: String)
    ensures
        label@ == with_glyph(*entry),
{
    let mut label = String::from_str(entry.emoji);
    proof {
        reveal_strlit(" ");
        assert(" "@ =~= seq![' ']);
    }
    label.append(" ");
    label.append(entry.name);
    label
}

/// Puts the glyph of the commit type named `commit_type` in front of it. A
/// name that the vocabulary does not hold comes back unchanged.
pub fn format_commit_type_with_emoji(commit_type: &str) -> (formatted: String)
    ensures
        formatted@ == decorated(commit_type@),
{
    let types = commit_types();
    let mut i: usize = 0;
    while i < types.len()
        invariant
            types@ == vocabulary(),
            i <= types.len(),
            position_among(commit_type@, i as nat) is None,
        decreases types.len() - i,
    {
        if same_text(types[i].name, commit_type) {
            proof {
                assert(position_among(commit_type@, (i + 1) as nat) == Some(i as int));
                lemma_position_stays(commit_type@, (i + 1) as nat, vocabulary().len());
            }
            return decorate(&types[i]);
        }
        i += 1;
    }
    String::from_str(commit_type)
}

} // verus!
