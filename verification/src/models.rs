//! The list of the configured models.

use vstd::prelude::*;

use crate::config::{opt_rank, Config, ModelConfig, ModelPriority};
use crate::names::{comes_before, law_names_totally_ordered, name_before};

verus! {

/// One model of the list.
#[derive(Debug, PartialEq, Eq)]
pub struct ModelEntry {
    pub id: String,
    pub object: String,
    pub created: u64,
    pub owned_by: String,
    /// The explicit priority of the model.
    pub priority: Option<u8>,
}

/// The answer to a request for the list of models.
#[derive(Debug, PartialEq, Eq)]
pub struct ModelList {
    pub object: String,
    pub data: Vec<ModelEntry>,
}

impl ModelEntry {
    /// Whether the entry is that of its model.
    pub open spec fn describes(self, models: Map<Seq<char>, ModelConfig>) -> bool {
        &&& models.contains_key(self.id@)
        &&& self.object@ == "model"@
        &&& self.created == 0
        &&& self.owned_by@ == "llmux"@
        &&& self.priority == opt_rank(models[self.id@].priority)
    }
}

/// Whether the entries are those of their models, in the order of their ids.
pub open spec fn ordered_entries(
    data: Seq<ModelEntry>,
    models: Map<Seq<char>, ModelConfig>,
) -> bool {
    &&& forall|i: int| 0 <= i < data.len() ==> (#[trigger] data[i]).describes(models)
    &&& forall|i: int, j: int|
        0 <= i < j < data.len() ==> name_before(#[trigger] data[i].id@, #[trigger] data[j].id@)
}

/// Whether a model is among the entries.
pub open spec fn listed(data: Seq<ModelEntry>, id: Seq<char>) -> bool {
    exists|i: int| 0 <= i < data.len() && (#[trigger] data[i]).id@ == id
}

/// Puts an entry in its place among ordered entries.
fn insert_in_order(
    data: &mut Vec<ModelEntry>,
    entry: ModelEntry,
    Ghost(models): Ghost<Map<Seq<char>, ModelConfig>>,
)
    requires
        ordered_entries(old(data)@, models),
        entry.describes(models),
        !listed(old(data)@, entry.id@),
    ensures
        ordered_entries(final(data)@, models),
        forall|id: Seq<char>|
            listed(final(data)@, id) <==> listed(old(data)@, id) || id == entry.id@,
{
    let ghost before = data@;
    let mut k: usize = 0;
    while k < data.len() && comes_before(data[k].id.as_str(), entry.id.as_str())
        invariant
            data@ == before,
            k <= before.len(),
            forall|j: int| 0 <= j < k ==> name_before(#[trigger] before[j].id@, entry.id@),
        decreases before.len() - k,
    {
        k = k + 1;
    }
    let ghost new = entry;
    data.insert(k, entry);
    proof {
        let after = data@;
        assert(after == before.insert(k as int, new));
        assert forall|j: int| k <= j < before.len() implies name_before(
            new.id@,
            #[trigger] before[j].id@,
        ) by {
            assert(before[j].id@ != new.id@);
            assert(before[k as int].id@ != new.id@);
            law_names_totally_ordered(new.id@, before[k as int].id@, before[j].id@);
        }
        assert forall|i: int| 0 <= i < after.len() implies (#[trigger] after[i]).describes(
            models,
        ) by {
            if i < k {
                assert(after[i] == before[i]);
            } else if i > k {
                assert(after[i] == before[i - 1]);
            }
        }
        assert forall|i: int, j: int| 0 <= i < j < after.len() implies name_before(
            #[trigger] after[i].id@,
            #[trigger] after[j].id@,
        ) by {
            if i < k {
                assert(after[i] == before[i]);
            } else if i > k {
                assert(after[i] == before[i - 1]);
            }
            if j < k {
                assert(after[j] == before[j]);
            } else if j > k {
                assert(after[j] == before[j - 1]);
            }
        }
        assert forall|id: Seq<char>|
            listed(after, id) <==> listed(before, id) || id == new.id@ by {
            if listed(before, id) {
                let i = choose|i: int| 0 <= i < before.len() && (#[trigger] before[i]).id@ == id;
                if i < k {
                    assert(after[i].id@ == id);
                } else {
                    assert(after[i + 1].id@ == id);
                }
            }
            if id == new.id@ {
                assert(after[k as int].id@ == id);
            }
            if listed(after, id) && id != new.id@ {
                let i = choose|i: int| 0 <= i < after.len() && (#[trigger] after[i]).id@ == id;
                if i < k {
                    assert(before[i].id@ == id);
                } else {
                    assert(before[i - 1].id@ == id);
                }
            }
        }
    }
}

impl Config {
    /// The list of the configured models, ordered by id.
    pub fn models_response(&self) -> (list: ModelList)
        ensures
            list.object@ == "list"@,
            ordered_entries(list.data@, self.models@),
            forall|id: Seq<char>| self.models@.contains_key(id) <==> listed(list.data@, id),
    {
        let n = self.models.len();
        let ghost names = self.models.names();
        let mut data: Vec<ModelEntry> = Vec::new();
        let mut i: usize = 0;
        while i < n
            invariant
                i <= n,
                names == self.models.names(),
                n == names.len(),
                self.models.keyed(),
                ordered_entries(data@, self.models@),
                forall|id: Seq<char>|
                    listed(data@, id) <==> exists|j: int|
                        0 <= j < i && #[trigger] names[j] == id,
            decreases n - i,
        {
            let id = self.models.name_at(i);
            let entry = ModelEntry {
                id: id.clone(),
                object: "model".to_owned(),
                created: 0,
                owned_by: "llmux".to_owned(),
                priority: self.models.value_at(i).priority_value(),
            };
            let ghost before = data@;
            assert(id@ == names[i as int]);
            assert(!listed(before, entry.id@));
            insert_in_order(&mut data, entry, Ghost(self.models@));
            i = i + 1;
            assert forall|id: Seq<char>|
                listed(data@, id) <==> exists|j: int| 0 <= j < i && #[trigger] names[j] == id by {
                if listed(before, id) {
                    let j = choose|j: int| 0 <= j < i - 1 && #[trigger] names[j] == id;
                    assert(0 <= j < i && names[j] == id);
                }
                if id == names[i - 1] {
                    assert(listed(data@, id));
                }
            }
        }
        assert forall|id: Seq<char>|
            self.models@.contains_key(id) <==> listed(data@, id) by {
            if names.contains(id) {
                let j = choose|j: int| 0 <= j < names.len() && names[j] == id;
                assert(0 <= j < i && names[j] == id);
            }
        }
        ModelList { object: "list".to_owned(), data }
    }
}

/// The configured models determine the list: two ordered lists of the same models have the same
/// entries.
pub proof fn law_list_determined(
    a: Seq<ModelEntry>,
    b: Seq<ModelEntry>,
    models: Map<Seq<char>, ModelConfig>,
)
    requires
        ordered_entries(a, models),
        ordered_entries(b, models),
        forall|id: Seq<char>| listed(a, id) <==> listed(b, id),
    ensures
        a.len() == b.len(),
        forall|i: int|
            0 <= i < a.len() ==> (#[trigger] a[i]).id@ == b[i].id@ && a[i].priority
                == b[i].priority,
{
    lemma_same_start(a, b, models, a.len());
    lemma_same_start(b, a, models, b.len());
    assert forall|i: int| 0 <= i < a.len() implies (#[trigger] a[i]).id@ == b[i].id@
        && a[i].priority == b[i].priority by {
        assert(a[i].describes(models));
        assert(b[i].describes(models));
    }
}

/// The first `n` ids of one of two such lists are the first `n` of the other.
proof fn lemma_same_start(
    a: Seq<ModelEntry>,
    b: Seq<ModelEntry>,
    models: Map<Seq<char>, ModelConfig>,
    n: nat,
)
    requires
        ordered_entries(a, models),
        ordered_entries(b, models),
        forall|id: Seq<char>| listed(a, id) <==> listed(b, id),
        n <= a.len(),
    ensures
        n <= b.len(),
        forall|i: int| 0 <= i < n ==> (#[trigger] a[i]).id@ == b[i].id@,
    decreases n,
{
    if n > 0 {
        let k = n - 1;
        lemma_same_start(a, b, models, k as nat);
        let id = a[k].id@;
        assert(listed(a, id));
        let j = choose|j: int| 0 <= j < b.len() && (#[trigger] b[j]).id@ == id;
        if j < k {
            assert(a[j].id@ == b[j].id@);
            assert(name_before(a[j].id@, a[k].id@));
            law_names_totally_ordered(id, id, id);
        }
        if j > k {
            let first = b[k].id@;
            assert(name_before(b[k].id@, b[j].id@));
            assert(listed(b, first));
            let i = choose|i: int| 0 <= i < a.len() && (#[trigger] a[i]).id@ == first;
            law_names_totally_ordered(first, first, first);
            law_names_totally_ordered(first, id, first);
            if i < k {
                assert(a[i].id@ == b[i].id@);
                assert(name_before(b[i].id@, b[k].id@));
            } else if i > k {
                assert(name_before(a[k].id@, a[i].id@));
            }
        }
    }
}

/// What an entry says of its model: it is one of the configured models, it is a model of this
/// multiplexer, and its priority is the number of the one that is configured, if any is.
pub proof fn law_entry_tells_of_its_model(entry: ModelEntry, models: Map<Seq<char>, ModelConfig>)
    requires
        entry.describes(models),
    ensures
        models.contains_key(entry.id@),
        entry.object@ == "model"@,
        entry.created == 0,
        entry.owned_by@ == "llmux"@,
        ({
            let priority = models[entry.id@].priority;
            &&& priority is None <==> entry.priority is None
            &&& priority == Some(ModelPriority::Low) ==> entry.priority == Some(1u8)
            &&& priority == Some(ModelPriority::Medium) ==> entry.priority == Some(2u8)
            &&& priority == Some(ModelPriority::High) ==> entry.priority == Some(3u8)
        }),
{
}

/// A list has every configured model in one place: each entry of it is one, each one has an entry,
/// no two entries are of the same model, and of two entries the one that comes first by id stands
/// first.
pub proof fn law_list_has_each_model_once(
    data: Seq<ModelEntry>,
    models: Map<Seq<char>, ModelConfig>,
    i: int,
    j: int,
    id: Seq<char>,
)
    requires
        ordered_entries(data, models),
        forall|id: Seq<char>| models.contains_key(id) <==> listed(data, id),
        0 <= i < j < data.len(),
    ensures
        models.contains_key(data[i].id@),
        data[i].id@ != data[j].id@,
        name_before(data[i].id@, data[j].id@),
        !name_before(data[j].id@, data[i].id@),
        models.contains_key(id) <==> exists|k: int|
            0 <= k < data.len() && (#[trigger] data[k]).id@ == id,
{
    law_names_totally_ordered(data[i].id@, data[j].id@, data[i].id@);
    assert(data[i].describes(models));
    assert(models.contains_key(id) <==> listed(data, id));
}

} // verus!
