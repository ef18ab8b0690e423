//! The registry's entries and the map of makers they make up.
use vstd::prelude::*;

use crate::maker_manager::config::{MakerConfig, MakerConfigView};

verus! {

/// One registered maker: its configuration, whether its server object has
/// been initialised, and whether that server is running.
#[derive(Debug)]
pub struct MakerEntry {
    pub id: String,
    pub config: MakerConfig,
    pub initialized: bool,
    pub running: bool,
}

/// What the registry records of one maker.
pub struct MakerStatus {
    pub config: MakerConfigView,
    pub initialized: bool,
    pub running: bool,
}

pub open spec fn status_of(e: MakerEntry) -> MakerStatus {
    MakerStatus { config: e.config@, initialized: e.initialized, running: e.running }
}

pub open spec fn ids_unique(s: Seq<MakerEntry>) -> bool {
    forall|i: int, j: int| 0 <= i < j < s.len() ==> s[i].id@ != s[j].id@
}

pub open spec fn has_id(s: Seq<MakerEntry>, k: Seq<char>) -> bool {
    exists|i: int| 0 <= i < s.len() && s[i].id@ == k
}

/// The registry content of a list of entries, keyed by maker id.
pub open spec fn entries_map(s: Seq<MakerEntry>) -> Map<Seq<char>, MakerStatus> {
    Map::new(
        |k: Seq<char>| has_id(s, k),
        |k: Seq<char>| status_of(s[choose|i: int| 0 <= i < s.len() && s[i].id@ == k]),
    )
}

pub(crate) proof fn lemma_entries_map_at(s: Seq<MakerEntry>, i: int)
    requires
        ids_unique(s),
        0 <= i < s.len(),
    ensures
        entries_map(s).contains_key(s[i].id@),
        entries_map(s)[s[i].id@] == status_of(s[i]),
{
    let k = s[i].id@;
    assert(has_id(s, k));
    let j = choose|j: int| 0 <= j < s.len() && s[j].id@ == k;
    if j != i {
        if j < i {
            assert(s[j].id@ != s[i].id@);
        } else {
            assert(s[i].id@ != s[j].id@);
        }
    }
}

pub(crate) proof fn lemma_entries_map_update(s: Seq<MakerEntry>, i: int, e: MakerEntry)
    requires
        ids_unique(s),
        0 <= i < s.len(),
        e.id@ == s[i].id@,
    ensures
        ids_unique(s.update(i, e)),
        entries_map(s.update(i, e)) =~= entries_map(s).insert(e.id@, status_of(e)),
{
    let t = s.update(i, e);
    assert(ids_unique(t)) by {
        assert forall|a: int, b: int| 0 <= a < b < t.len() implies t[a].id@ != t[b].id@ by {
            assert(s[a].id@ != s[b].id@);
        }
    }
    assert forall|k: Seq<char>| has_id(t, k) <==> (has_id(s, k) || k == e.id@) by {
        if has_id(s, k) {
            let j = choose|j: int| 0 <= j < s.len() && s[j].id@ == k;
            assert(t[j].id@ == k);
        }
        if has_id(t, k) {
            let j = choose|j: int| 0 <= j < t.len() && t[j].id@ == k;
            assert(s[j].id@ == k || j == i);
        }
        if k == e.id@ {
            assert(t[i].id@ == k);
        }
    }
    assert forall|k: Seq<char>| #[trigger] entries_map(t).contains_key(k) implies entries_map(t)[k]
        == entries_map(s).insert(e.id@, status_of(e))[k] by {
        let j = choose|j: int| 0 <= j < t.len() && t[j].id@ == k;
        lemma_entries_map_at(t, j);
        if j != i {
            lemma_entries_map_at(s, j);
        }
    }
}

pub(crate) proof fn lemma_entries_map_push(s: Seq<MakerEntry>, e: MakerEntry)
    requires
        ids_unique(s),
        !has_id(s, e.id@),
    ensures
        ids_unique(s.push(e)),
        entries_map(s.push(e)) =~= entries_map(s).insert(e.id@, status_of(e)),
{
    let t = s.push(e);
    assert(ids_unique(t)) by {
        assert forall|a: int, b: int| 0 <= a < b < t.len() implies t[a].id@ != t[b].id@ by {
            if b == s.len() {
                assert(t[a] == s[a]);
            } else {
                assert(s[a].id@ != s[b].id@);
            }
        }
    }
    assert forall|k: Seq<char>| has_id(t, k) <==> (has_id(s, k) || k == e.id@) by {
        if has_id(s, k) {
            let j = choose|j: int| 0 <= j < s.len() && s[j].id@ == k;
            assert(t[j].id@ == k);
        }
        if has_id(t, k) {
            let j = choose|j: int| 0 <= j < t.len() && t[j].id@ == k;
            if j < s.len() {
                assert(s[j].id@ == k);
            }
        }
        if k == e.id@ {
            assert(t[s.len() as int].id@ == k);
        }
    }
    assert forall|k: Seq<char>| #[trigger] entries_map(t).contains_key(k) implies entries_map(t)[k]
        == entries_map(s).insert(e.id@, status_of(e))[k] by {
        let j = choose|j: int| 0 <= j < t.len() && t[j].id@ == k;
        lemma_entries_map_at(t, j);
        if j < s.len() {
            lemma_entries_map_at(s, j);
        }
    }
}

pub(crate) proof fn lemma_entries_map_remove(s: Seq<MakerEntry>, i: int)
    requires
        ids_unique(s),
        0 <= i < s.len(),
    ensures
        ids_unique(s.remove(i)),
        entries_map(s.remove(i)) =~= entries_map(s).remove(s[i].id@),
{
    let t = s.remove(i);
    let gone = s[i].id@;
    assert(ids_unique(t)) by {
        assert forall|a: int, b: int| 0 <= a < b < t.len() implies t[a].id@ != t[b].id@ by {
            if b < i {
                assert(s[a].id@ != s[b].id@);
            } else if a < i {
                assert(t[b] == s[b + 1]);
                assert(s[a].id@ != s[b + 1].id@);
            } else {
                assert(s[a + 1].id@ != s[b + 1].id@);
            }
        }
    }
    assert forall|k: Seq<char>| has_id(t, k) <==> (has_id(s, k) && k != gone) by {
        if has_id(s, k) && k != gone {
            let j = choose|j: int| 0 <= j < s.len() && s[j].id@ == k;
            if j < i {
                assert(t[j].id@ == k);
            } else {
                assert(j != i);
                assert(t[j - 1].id@ == k);
            }
        }
        if has_id(t, k) {
            let j = choose|j: int| 0 <= j < t.len() && t[j].id@ == k;
            if j < i {
                assert(s[j].id@ == k);
                assert(s[j].id@ != s[i].id@);
            } else {
                assert(s[j + 1].id@ == k);
                assert(s[i].id@ != s[j + 1].id@);
            }
        }
    }
    assert forall|k: Seq<char>| #[trigger] entries_map(t).contains_key(k) implies entries_map(t)[k]
        == entries_map(s).remove(gone)[k] by {
        let j = choose|j: int| 0 <= j < t.len() && t[j].id@ == k;
        lemma_entries_map_at(t, j);
        if j < i {
            lemma_entries_map_at(s, j);
        } else {
            lemma_entries_map_at(s, j + 1);
        }
    }
}

pub(crate) proof fn lemma_entries_map_len(s: Seq<MakerEntry>)
    requires
        ids_unique(s),
    ensures
        entries_map(s).dom().finite(),
        entries_map(s).dom().len() == s.len(),
{
    let ids = s.map_values(|e: MakerEntry| e.id@);
    assert(ids.no_duplicates()) by {
        assert forall|a: int, b: int| 0 <= a < ids.len() && 0 <= b < ids.len() && a != b implies ids[a]
            != ids[b] by {
            if a < b {
                assert(s[a].id@ != s[b].id@);
            } else {
                assert(s[b].id@ != s[a].id@);
            }
        }
    }
    assert(entries_map(s).dom() =~= ids.to_set()) by {
        assert forall|k: Seq<char>| entries_map(s).dom().contains(k) <==> ids.to_set().contains(k) by {
            if has_id(s, k) {
                let j = choose|j: int| 0 <= j < s.len() && s[j].id@ == k;
                assert(ids[j] == k);
            }
            if ids.contains(k) {
                let j = choose|j: int| 0 <= j < ids.len() && ids[j] == k;
                assert(s[j].id@ == k);
            }
        }
    }
    ids.unique_seq_to_set();
}

} // verus!
