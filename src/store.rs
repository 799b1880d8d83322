//! Retention of record files: their names, and which of them to evict so
//! that at most a given number remain, oldest first.
use crate::decimal::{decimal_text, to_decimal};
use crate::text::{
    ends_with, has_prefix, has_suffix, lemma_lex_total, lemma_lex_transitive, lex_le, starts_with,
    text_le, views,
};
use vstd::prelude::*;
use vstd::multiset::Multiset;
use vstd::string::*;

verus! {

broadcast use vstd::seq_lib::group_to_multiset_ensures;

/// The file name of a record taken at `time_ms`: `stats-<time_ms>.json`.
pub fn stats_file_name(time_ms: u64) -> (r: String)
    ensures
        r@ == "stats-"@ + to_decimal(time_ms as nat) + ".json"@,
{
    let mut name = "stats-".to_owned();
    let digits = decimal_text(time_ms);
    name.append(digits.as_str());
    name.append(".json");
    name
}

/// A record file: its name starts with `stats-` and ends with `.json`.
pub open spec fn is_stats_file(name: Seq<char>) -> bool {
    has_prefix(name, "stats-"@) && has_suffix(name, ".json"@)
}

/// The record files among `names`, in their order.
pub open spec fn stats_files(names: Seq<Seq<char>>) -> Seq<Seq<char>>
    decreases names.len(),
{
    if names.len() == 0 {
        Seq::<Seq<char>>::empty()
    } else if is_stats_file(names.last()) {
        stats_files(names.drop_last()).push(names.last())
    } else {
        stats_files(names.drop_last())
    }
}

pub open spec fn sorted_lex(s: Seq<Seq<char>>) -> bool {
    forall|i: int, j: int| 0 <= i < j < s.len() ==> lex_le(s[i], s[j])
}

pub open spec fn all_before(a: Seq<Seq<char>>, b: Seq<Seq<char>>) -> bool {
    forall|i: int, j: int| 0 <= i < a.len() && 0 <= j < b.len() ==> lex_le(a[i], b[j])
}

fn record_files(names: &Vec<String>) -> (r: Vec<String>)
    ensures
        views(r@) == stats_files(views(names@)),
{
    let ghost all = views(names@);
    let mut out: Vec<String> = Vec::new();
    let mut i: usize = 0;
    proof {
        assert(all.take(0) =~= Seq::<Seq<char>>::empty());
    }
    while i < names.len()
        invariant
            all == views(names@),
            i <= names@.len(),
            views(out@) == stats_files(all.take(i as int)),
        decreases names@.len() - i,
    {
        proof {
            assert(all.take(i + 1).drop_last() =~= all.take(i as int));
            assert(all.take(i + 1).last() == names@[i as int]@);
        }
        let name = names[i].as_str();
        if starts_with(name, "stats-") && ends_with(name, ".json") {
            let ghost before = out@;
            out.push(names[i].clone());
            proof {
                assert(views(out@) =~= views(before).push(names@[i as int]@));
            }
        }
        i = i + 1;
    }
    proof {
        assert(all.take(names@.len() as int) =~= all);
    }
    out
}

/// The index of a smallest name in `v`, which is not empty.
fn index_of_least(v: &Vec<String>) -> (m: usize)
    requires
        v@.len() > 0,
    ensures
        m < v@.len(),
        forall|j: int| 0 <= j < v@.len() ==> lex_le(v@[m as int]@, #[trigger] v@[j]@),
{
    let mut m: usize = 0;
    let mut i: usize = 1;
    proof {
        lemma_lex_total(v@[0]@, v@[0]@);
    }
    while i < v.len()
        invariant
            0 < i <= v@.len(),
            m < i,
            forall|j: int| 0 <= j < i ==> lex_le(v@[m as int]@, #[trigger] v@[j]@),
        decreases v@.len() - i,
    {
        if !text_le(v[m].as_str(), v[i].as_str()) {
            proof {
                lemma_lex_total(v@[m as int]@, v@[i as int]@);
                assert forall|j: int| 0 <= j < i + 1 implies lex_le(v@[i as int]@, #[trigger] v@[j]@) by {
                    if j < i {
                        lemma_lex_transitive(v@[i as int]@, v@[m as int]@, v@[j]@);
                    } else {
                        lemma_lex_total(v@[i as int]@, v@[i as int]@);
                    }
                }
            }
            m = i;
        }
        i = i + 1;
    }
    m
}

/// The record files to remove so that at most `max_entries` remain: the
/// smallest names, which for `stats-<millis>.json` are the oldest records,
/// in ascending order; none when there are no more than `max_entries`.
pub fn stale_stats_entries(names: &Vec<String>, max_entries: usize) -> (r: Vec<String>)
    ensures
        ({
            let files = stats_files(views(names@));
            &&& files.len() <= max_entries ==> r@.len() == 0
            &&& files.len() > max_entries ==> r@.len() == files.len() - max_entries
            &&& sorted_lex(views(r@))
            &&& exists|rest: Seq<Seq<char>>|
                #![trigger rest.to_multiset()]
                views(r@).to_multiset().add(rest.to_multiset()) == files.to_multiset() && all_before(
                    views(r@),
                    rest,
                )
        }),
{
    let mut rest = record_files(names);
    let ghost files = views(rest@);
    let mut out: Vec<String> = Vec::new();
    if rest.len() <= max_entries {
        proof {
            assert(views(out@).to_multiset().len() == 0);
            assert(views(out@).to_multiset() =~= Multiset::<Seq<char>>::empty());
            assert(views(out@).to_multiset().add(files.to_multiset()) =~= files.to_multiset());
        }
        return out;
    }
    let count = rest.len() - max_entries;
    proof {
        assert(views(out@).to_multiset().len() == 0);
        assert(views(out@).to_multiset() =~= Multiset::<Seq<char>>::empty());
        assert(views(out@).to_multiset().add(views(rest@).to_multiset()) =~= files.to_multiset());
    }
    while out.len() < count
        invariant
            count <= files.len(),
            out@.len() + rest@.len() == files.len(),
            out@.len() <= count,
            sorted_lex(views(out@)),
            all_before(views(out@), views(rest@)),
            views(out@).to_multiset().add(views(rest@).to_multiset()) == files.to_multiset(),
        decreases count - out@.len(),
    {
        let m = index_of_least(&rest);
        let ghost old_rest = views(rest@);
        let ghost old_out = views(out@);
        let ghost old_vec = rest@;
        let least = rest.remove(m);
        out.push(least);
        proof {
            let x = old_rest[m as int];
            assert(views(rest@) =~= old_rest.remove(m as int));
            assert(views(out@) =~= old_out.push(x));
            assert(old_rest.remove(m as int).to_multiset() == old_rest.to_multiset().remove(x));
            assert(old_out.push(x).to_multiset() == old_out.to_multiset().insert(x));
            assert(old_rest.to_multiset().contains(x));
            assert(views(out@).to_multiset().add(views(rest@).to_multiset()) =~= files.to_multiset());
            assert forall|j: int| 0 <= j < views(rest@).len() implies lex_le(x, #[trigger] views(rest@)[j]) by {
                if j < m {
                    assert(views(rest@)[j] == old_rest[j]);
                } else {
                    assert(views(rest@)[j] == old_rest[j + 1]);
                }
            }
            assert forall|i: int, j: int| 0 <= i < j < views(out@).len() implies lex_le(
                views(out@)[i],
                views(out@)[j],
            ) by {
                if j == views(out@).len() - 1 {
                    assert(views(out@)[i] == old_out[i]);
                    assert(lex_le(old_out[i], old_rest[m as int]));
                }
            }
            assert forall|i: int, j: int| 0 <= i < views(out@).len() && 0 <= j < views(rest@).len() implies lex_le(
                views(out@)[i],
                views(rest@)[j],
            ) by {
                let k = if j < m { j } else { j + 1 };
                assert(views(rest@)[j] == old_rest[k]);
                if i < old_out.len() {
                    assert(views(out@)[i] == old_out[i]);
                }
            }
        }
    }
    proof {
        assert(views(out@).to_multiset().add(views(rest@).to_multiset()) == files.to_multiset());
    }
    out
}

} // verus!
