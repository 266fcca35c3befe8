//! The guarantees of the batch surface, stated and proved as laws.
//!
//! Each public proof function here states one property of batch-init,
//! batch-insert or the deferred queue over the models that the executable
//! contracts use, so that callers can reason about whole batches without
//! unfolding the step-by-step definitions.

use vstd::prelude::*;

use crate::batch::{spec_init_batch, spec_insert_batch};
use crate::commands::{spec_apply_command, spec_apply_commands, CommandModel};
use crate::registry::{
    lemma_distinct_push, lemma_first_index, lemma_first_index_push, seq_distinct, spec_init_one,
    spec_insert_one, RegistryModel, ResourceSpec,
};

verus! {

/// The type keys of a batch, in batch order.
pub open spec fn batch_type_ids(s: Seq<ResourceSpec>) -> Seq<u64> {
    s.map_values(|e: ResourceSpec| e.type_id)
}

/// One init step only ever adds `t`: a present `t` leaves the registry
/// entirely unchanged, an absent one gets `v` under a fresh handle, and
/// every already registered type keeps its value and its handle.
pub proof fn lemma_init_one_effect(m: RegistryModel, t: u64, v: u64)
    requires
        m.wf(),
    ensures
        spec_init_one(m, t, v).wf(),
        spec_init_one(m, t, v).contains_type(t),
        forall|u: u64|
            m.contains_type(u) ==> spec_init_one(m, t, v).contains_type(u) && spec_init_one(
                m,
                t,
                v,
            ).value_of(u) == m.value_of(u) && spec_init_one(m, t, v).handle_of(u)
                == m.handle_of(u),
        forall|u: u64| spec_init_one(m, t, v).contains_type(u) ==> m.contains_type(u) || u == t,
        !m.contains_type(t) ==> spec_init_one(m, t, v).value_of(t) == v,
        !m.contains_type(t) ==> spec_init_one(m, t, v).log == m.log.push(t),
        m.contains_type(t) ==> spec_init_one(m, t, v) == m,
{
    if !m.contains_type(t) {
        let r = spec_init_one(m, t, v);
        lemma_distinct_push(m.types, t);
        lemma_first_index_push(m.types, t, t);
        lemma_first_index(m.types, t);
        assert forall|u: u64| m.contains_type(u) implies r.contains_type(u) && r.value_of(u)
            == m.value_of(u) && r.handle_of(u) == m.handle_of(u) by {
            lemma_first_index_push(m.types, u, t);
            lemma_first_index(m.types, u);
        }
        assert forall|u: u64| r.contains_type(u) implies m.contains_type(u) || u == t by {
            lemma_first_index_push(m.types, u, t);
        }
    }
}

/// One insert step writes exactly `t`: afterwards `t` holds `v`, every other
/// type keeps its presence, value and handle, a present `t` keeps its
/// handle, and the write is logged.
pub proof fn lemma_insert_one_effect(m: RegistryModel, t: u64, v: u64)
    requires
        m.wf(),
    ensures
        spec_insert_one(m, t, v).wf(),
        spec_insert_one(m, t, v).contains_type(t),
        spec_insert_one(m, t, v).value_of(t) == v,
        forall|u: u64|
            u != t ==> spec_insert_one(m, t, v).contains_type(u) == m.contains_type(u),
        forall|u: u64|
            u != t && m.contains_type(u) ==> spec_insert_one(m, t, v).value_of(u) == m.value_of(
                u,
            ) && spec_insert_one(m, t, v).handle_of(u) == m.handle_of(u),
        m.contains_type(t) ==> spec_insert_one(m, t, v).handle_of(t) == m.handle_of(t),
        spec_insert_one(m, t, v).log == m.log.push(t),
{
    let r = spec_insert_one(m, t, v);
    lemma_first_index(m.types, t);
    if m.contains_type(t) {
        assert forall|u: u64| u != t && m.contains_type(u) implies r.value_of(u) == m.value_of(u)
            && r.handle_of(u) == m.handle_of(u) by {
            lemma_first_index(m.types, u);
            assert(m.types[m.handle_of(u)] == u);
            assert(m.types[m.handle_of(t)] == t);
        }
    } else {
        lemma_distinct_push(m.types, t);
        lemma_first_index_push(m.types, t, t);
        assert forall|u: u64| u != t implies r.contains_type(u) == m.contains_type(u) by {
            lemma_first_index_push(m.types, u, t);
        }
        assert forall|u: u64| u != t && m.contains_type(u) implies r.value_of(u) == m.value_of(u)
            && r.handle_of(u) == m.handle_of(u) by {
            lemma_first_index_push(m.types, u, t);
            lemma_first_index(m.types, u);
        }
    }
}

/// Batch-init inserts at most the batch's types and leaves every already
/// registered type untouched: its value and its identifier handle after the
/// batch are what they were before, every batch element's type is registered
/// afterwards, and no type outside the old contents and the batch appears.
pub proof fn lemma_init_batch_effect(m: RegistryModel, s: Seq<ResourceSpec>)
    requires
        m.wf(),
    ensures
        spec_init_batch(m, s).wf(),
        forall|u: u64|
            m.contains_type(u) ==> spec_init_batch(m, s).contains_type(u) && spec_init_batch(
                m,
                s,
            ).value_of(u) == m.value_of(u) && spec_init_batch(m, s).handle_of(u) == m.handle_of(
                u,
            ),
        forall|i: int|
            0 <= i < s.len() ==> spec_init_batch(m, s).contains_type(#[trigger] s[i].type_id),
        forall|u: u64|
            spec_init_batch(m, s).contains_type(u) ==> m.contains_type(u) || batch_type_ids(
                s,
            ).contains(u),
    decreases s.len(),
{
    if s.len() > 0 {
        let m1 = spec_init_one(m, s[0].type_id, s[0].value);
        let tail = s.drop_first();
        lemma_init_one_effect(m, s[0].type_id, s[0].value);
        lemma_init_batch_effect(m1, tail);
        let r = spec_init_batch(m, s);
        assert(r == spec_init_batch(m1, tail));
        assert forall|i: int| 0 <= i < s.len() implies r.contains_type(
            #[trigger] s[i].type_id,
        ) by {
            if i > 0 {
                assert(tail[i - 1] == s[i]);
            }
        }
        assert forall|u: u64| r.contains_type(u) implies m.contains_type(u) || batch_type_ids(
            s,
        ).contains(u) by {
            if !m.contains_type(u) {
                if u == s[0].type_id {
                    assert(batch_type_ids(s)[0] == u);
                } else {
                    assert(m1.contains_type(u) ==> m.contains_type(u) || u == s[0].type_id);
                    assert(batch_type_ids(tail).contains(u));
                    let k = choose|k: int|
                        0 <= k < batch_type_ids(tail).len() && batch_type_ids(tail)[k] == u;
                    assert(tail[k] == s[k + 1]);
                    assert(batch_type_ids(s)[k + 1] == u);
                }
            }
        }
    }
}

/// For a batch of distinct types, batch-init stores each absent element's
/// default value under its type; together with `lemma_init_batch_effect`
/// this pins the whole outcome: exactly the absent types are inserted, with
/// their defaults, and present ones are left unchanged.
pub proof fn lemma_init_batch_defaults(m: RegistryModel, s: Seq<ResourceSpec>)
    requires
        m.wf(),
        seq_distinct(batch_type_ids(s)),
    ensures
        forall|i: int|
            0 <= i < s.len() && !m.contains_type(#[trigger] s[i].type_id) ==> spec_init_batch(
                m,
                s,
            ).value_of(s[i].type_id) == s[i].value,
    decreases s.len(),
{
    if s.len() > 0 {
        let m1 = spec_init_one(m, s[0].type_id, s[0].value);
        let tail = s.drop_first();
        lemma_init_one_effect(m, s[0].type_id, s[0].value);
        assert(batch_type_ids(tail) =~= batch_type_ids(s).drop_first());
        assert forall|i: int, j: int|
            0 <= i < j < batch_type_ids(tail).len() implies batch_type_ids(tail)[i]
            != batch_type_ids(tail)[j] by {
            assert(batch_type_ids(s)[i + 1] == batch_type_ids(tail)[i]);
            assert(batch_type_ids(s)[j + 1] == batch_type_ids(tail)[j]);
        }
        lemma_init_batch_defaults(m1, tail);
        lemma_init_batch_effect(m1, tail);
        let r = spec_init_batch(m, s);
        assert forall|i: int|
            0 <= i < s.len() && !m.contains_type(#[trigger] s[i].type_id) implies r.value_of(
            s[i].type_id,
        ) == s[i].value by {
            if i == 0 {
                assert(m1.value_of(s[0].type_id) == s[0].value);
                assert(m1.contains_type(s[0].type_id));
            } else {
                assert(tail[i - 1] == s[i]);
                assert(batch_type_ids(s)[0] == s[0].type_id);
                assert(batch_type_ids(s)[i] == s[i].type_id);
                assert(s[i].type_id != s[0].type_id);
                assert(!m1.contains_type(s[i].type_id));
            }
        }
    }
}

/// Batch-init over types that are all registered already is a no-op.
pub proof fn lemma_init_batch_noop(m: RegistryModel, s: Seq<ResourceSpec>)
    requires
        m.wf(),
        forall|i: int| 0 <= i < s.len() ==> m.contains_type(#[trigger] s[i].type_id),
    ensures
        spec_init_batch(m, s) == m,
    decreases s.len(),
{
    if s.len() > 0 {
        let tail = s.drop_first();
        assert(spec_init_one(m, s[0].type_id, s[0].value) == m);
        assert(forall|i: int| 0 <= i < tail.len() ==> #[trigger] tail[i] == s[i + 1]);
        lemma_init_batch_noop(m, tail);
    }
}

/// Idempotence of batch-init: running the same batch a second time changes
/// nothing, so registry contents — and with them every type's identifier
/// handle — are identical after one run and after two.
pub proof fn lemma_init_batch_idempotent(m: RegistryModel, s: Seq<ResourceSpec>)
    requires
        m.wf(),
    ensures
        spec_init_batch(spec_init_batch(m, s), s) == spec_init_batch(m, s),
        spec_init_batch(spec_init_batch(m, s), s).as_map() == spec_init_batch(m, s).as_map(),
        forall|i: int|
            0 <= i < s.len() ==> spec_init_batch(spec_init_batch(m, s), s).handle_of(
                #[trigger] s[i].type_id,
            ) == spec_init_batch(m, s).handle_of(s[i].type_id),
{
    lemma_init_batch_effect(m, s);
    lemma_init_batch_noop(spec_init_batch(m, s), s);
}

/// Batch-insert touches only the batch's types: every other type keeps its
/// presence, value and handle, whatever the prior state, and the batch's
/// type keys are appended to the write log in batch order.
pub proof fn lemma_insert_batch_effect(m: RegistryModel, s: Seq<ResourceSpec>)
    requires
        m.wf(),
    ensures
        spec_insert_batch(m, s).wf(),
        forall|u: u64|
            !batch_type_ids(s).contains(u) ==> spec_insert_batch(m, s).contains_type(u)
                == m.contains_type(u),
        forall|u: u64|
            !batch_type_ids(s).contains(u) && m.contains_type(u) ==> spec_insert_batch(
                m,
                s,
            ).value_of(u) == m.value_of(u) && spec_insert_batch(m, s).handle_of(u)
                == m.handle_of(u),
        spec_insert_batch(m, s).log == m.log + batch_type_ids(s),
    decreases s.len(),
{
    if s.len() == 0 {
        assert(m.log + batch_type_ids(s) =~= m.log);
    } else {
        let m1 = spec_insert_one(m, s[0].type_id, s[0].value);
        let tail = s.drop_first();
        lemma_insert_one_effect(m, s[0].type_id, s[0].value);
        lemma_insert_batch_effect(m1, tail);
        assert(batch_type_ids(tail) =~= batch_type_ids(s).drop_first());
        let r = spec_insert_batch(m, s);
        assert forall|u: u64| !batch_type_ids(s).contains(u) implies r.contains_type(u)
            == m.contains_type(u) && (m.contains_type(u) ==> r.value_of(u) == m.value_of(u)
            && r.handle_of(u) == m.handle_of(u)) by {
            assert(batch_type_ids(s)[0] == s[0].type_id);
            if batch_type_ids(tail).contains(u) {
                let k = choose|k: int|
                    0 <= k < batch_type_ids(tail).len() && batch_type_ids(tail)[k] == u;
                assert(batch_type_ids(s)[k + 1] == u);
            }
            assert(u != s[0].type_id);
        }
        assert(m1.log + batch_type_ids(tail) =~= m.log + batch_type_ids(s));
    }
}

/// For a batch of distinct types, batch-insert always results in the
/// registry holding exactly the given value for each of the batch's types,
/// overwriting prior values, regardless of prior state.
pub proof fn lemma_insert_batch_values(m: RegistryModel, s: Seq<ResourceSpec>)
    requires
        m.wf(),
        seq_distinct(batch_type_ids(s)),
    ensures
        forall|i: int|
            0 <= i < s.len() ==> spec_insert_batch(m, s).contains_type(#[trigger] s[i].type_id)
                && spec_insert_batch(m, s).value_of(s[i].type_id) == s[i].value,
    decreases s.len(),
{
    if s.len() > 0 {
        let m1 = spec_insert_one(m, s[0].type_id, s[0].value);
        let tail = s.drop_first();
        lemma_insert_one_effect(m, s[0].type_id, s[0].value);
        assert(batch_type_ids(tail) =~= batch_type_ids(s).drop_first());
        assert forall|i: int, j: int|
            0 <= i < j < batch_type_ids(tail).len() implies batch_type_ids(tail)[i]
            != batch_type_ids(tail)[j] by {
            assert(batch_type_ids(s)[i + 1] == batch_type_ids(tail)[i]);
            assert(batch_type_ids(s)[j + 1] == batch_type_ids(tail)[j]);
        }
        lemma_insert_batch_values(m1, tail);
        lemma_insert_batch_effect(m1, tail);
        let r = spec_insert_batch(m, s);
        assert forall|i: int| 0 <= i < s.len() implies r.contains_type(#[trigger] s[i].type_id)
            && r.value_of(s[i].type_id) == s[i].value by {
            if i == 0 {
                if batch_type_ids(tail).contains(s[0].type_id) {
                    let k = choose|k: int|
                        0 <= k < batch_type_ids(tail).len() && batch_type_ids(tail)[k]
                            == s[0].type_id;
                    assert(batch_type_ids(s)[k + 1] == s[0].type_id);
                    assert(batch_type_ids(s)[0] == s[0].type_id);
                }
                assert(!batch_type_ids(tail).contains(s[0].type_id));
            } else {
                assert(tail[i - 1] == s[i]);
            }
        }
    }
}

/// The type keys whose defaults batch-init constructs: those of the batch
/// elements whose type is absent when their turn comes, in batch order.
pub open spec fn constructed_ids(m: RegistryModel, s: Seq<ResourceSpec>) -> Seq<u64>
    decreases s.len(),
{
    if s.len() == 0 {
        Seq::empty()
    } else if m.contains_type(s[0].type_id) {
        constructed_ids(m, s.drop_first())
    } else {
        seq![s[0].type_id] + constructed_ids(
            spec_init_one(m, s[0].type_id, s[0].value),
            s.drop_first(),
        )
    }
}

/// Batch-init performs its construct-and-insert side effects in batch order:
/// the write log is extended by exactly the constructed types, left to right.
pub proof fn lemma_init_batch_log(m: RegistryModel, s: Seq<ResourceSpec>)
    requires
        m.wf(),
    ensures
        spec_init_batch(m, s).log == m.log + constructed_ids(m, s),
    decreases s.len(),
{
    if s.len() == 0 {
        assert(m.log + constructed_ids(m, s) =~= m.log);
    } else {
        let tail = s.drop_first();
        lemma_init_one_effect(m, s[0].type_id, s[0].value);
        if m.contains_type(s[0].type_id) {
            lemma_init_batch_log(m, tail);
        } else {
            let m1 = spec_init_one(m, s[0].type_id, s[0].value);
            lemma_init_batch_log(m1, tail);
            assert(m1.log + constructed_ids(m1, tail) =~= m.log + (seq![s[0].type_id]
                + constructed_ids(m1, tail)));
        }
    }
}

/// When every type of a distinct-typed batch is absent, batch-init's side
/// effects are one construct-and-insert per element, in exactly the
/// element order of the batch — never reordered.
pub proof fn lemma_init_batch_log_all_absent(m: RegistryModel, s: Seq<ResourceSpec>)
    requires
        m.wf(),
        seq_distinct(batch_type_ids(s)),
        forall|i: int| 0 <= i < s.len() ==> !m.contains_type(#[trigger] s[i].type_id),
    ensures
        spec_init_batch(m, s).log == m.log + batch_type_ids(s),
    decreases s.len(),
{
    if s.len() == 0 {
        assert(m.log + batch_type_ids(s) =~= m.log);
    } else {
        let m1 = spec_init_one(m, s[0].type_id, s[0].value);
        let tail = s.drop_first();
        lemma_init_one_effect(m, s[0].type_id, s[0].value);
        assert(batch_type_ids(tail) =~= batch_type_ids(s).drop_first());
        assert forall|i: int, j: int|
            0 <= i < j < batch_type_ids(tail).len() implies batch_type_ids(tail)[i]
            != batch_type_ids(tail)[j] by {
            assert(batch_type_ids(s)[i + 1] == batch_type_ids(tail)[i]);
            assert(batch_type_ids(s)[j + 1] == batch_type_ids(tail)[j]);
        }
        assert forall|i: int| 0 <= i < tail.len() implies !m1.contains_type(
            #[trigger] tail[i].type_id,
        ) by {
            assert(tail[i] == s[i + 1]);
            assert(batch_type_ids(s)[0] == s[0].type_id);
            assert(batch_type_ids(s)[i + 1] == s[i + 1].type_id);
        }
        lemma_init_batch_log_all_absent(m1, tail);
        assert(m1.log + batch_type_ids(tail) =~= m.log + batch_type_ids(s));
    }
}

/// Applying any sequence of deferred commands keeps the registry well
/// formed.
pub proof fn lemma_apply_commands_wf(m: RegistryModel, cs: Seq<CommandModel>)
    requires
        m.wf(),
    ensures
        spec_apply_commands(m, cs).wf(),
    decreases cs.len(),
{
    if cs.len() > 0 {
        match cs[0] {
            CommandModel::Init(s) => lemma_init_batch_effect(m, s),
            CommandModel::Insert(s) => lemma_insert_batch_effect(m, s),
        }
        lemma_apply_commands_wf(spec_apply_command(m, cs[0]), cs.drop_first());
    }
}

/// Draining a queue applies its commands in enqueue order: the effect of a
/// queue split anywhere is the effect of the older part followed by the
/// effect of the newer part.
pub proof fn lemma_apply_commands_append(
    m: RegistryModel,
    older: Seq<CommandModel>,
    newer: Seq<CommandModel>,
)
    ensures
        spec_apply_commands(m, older + newer) == spec_apply_commands(
            spec_apply_commands(m, older),
            newer,
        ),
    decreases older.len(),
{
    if older.len() == 0 {
        assert(older + newer =~= newer);
    } else {
        assert((older + newer)[0] == older[0]);
        assert((older + newer).drop_first() =~= older.drop_first() + newer);
        lemma_apply_commands_append(spec_apply_command(m, older[0]), older.drop_first(), newer);
    }
}

} // verus!
