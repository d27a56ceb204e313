//! What holds of every remapping.

use crate::protocol::remapping::RemappingModel;
use crate::protocol::return_values::{apply_remappings, remapped, ReturnValueModel};
use vstd::prelude::*;

verus! {

/// Whether every remapping of a table is an exclusion.
pub open spec fn excludes_only(table: Seq<(Seq<char>, RemappingModel)>) -> bool {
    forall|i: int| 0 <= i < table.len() ==> (#[trigger] table[i]).1.exclude
}

/// The names that the first `n` entries of a table stand under.
pub open spec fn names_in(table: Seq<(Seq<char>, RemappingModel)>, n: nat) -> Set<Seq<char>> {
    Set::new(|name: Seq<char>| exists|j: int| 0 <= j < n && (#[trigger] table[j]).0 == name)
}

/// A table of exclusions removes the names it holds, and nothing else.
pub proof fn lemma_exclusions_remove_names(
    fields: Map<Seq<char>, ReturnValueModel>,
    table: Seq<(Seq<char>, RemappingModel)>,
    n: nat,
)
    requires
        excludes_only(table),
        n <= table.len(),
    ensures
        apply_remappings(fields, table, n) == fields.remove_keys(names_in(table, n)),
    decreases n,
{
    if n == 0 {
        assert(fields.remove_keys(names_in(table, 0)) =~= fields);
    } else {
        lemma_exclusions_remove_names(fields, table, (n - 1) as nat);
        let before = names_in(table, (n - 1) as nat);
        let name = table[n - 1].0;
        assert(table[n - 1].1.exclude);
        assert forall|k: Seq<char>| names_in(table, n).contains(k) <==> (before.contains(k) || k
            == name) by {
            if names_in(table, n).contains(k) {
                let j = choose|j: int| 0 <= j < n && (#[trigger] table[j]).0 == k;
                if j < n - 1 {
                    assert(before.contains(k));
                }
            }
            if before.contains(k) {
                let j = choose|j: int| 0 <= j < n - 1 && (#[trigger] table[j]).0 == k;
                assert(0 <= j < n && table[j].0 == k);
            }
            if k == name {
                assert(0 <= n - 1 < n && table[n - 1].0 == k);
            }
        }
        assert(fields.remove_keys(before).remove(name) =~= fields.remove_keys(names_in(table, n)));
    }
}

/// Exclusion is idempotent: a table that only excludes, applied to the
/// fields of an object a second time, changes nothing more.
pub proof fn law_exclusions_are_idempotent(
    fields: Map<Seq<char>, ReturnValueModel>,
    table: Seq<(Seq<char>, RemappingModel)>,
)
    requires
        excludes_only(table),
    ensures
        apply_remappings(apply_remappings(fields, table, table.len()), table, table.len())
            == apply_remappings(fields, table, table.len()),
        remapped(remapped(ReturnValueModel::Object(fields), table), table) == remapped(
            ReturnValueModel::Object(fields),
            table,
        ),
{
    let names = names_in(table, table.len());
    lemma_exclusions_remove_names(fields, table, table.len());
    lemma_exclusions_remove_names(fields.remove_keys(names), table, table.len());
    assert(fields.remove_keys(names).remove_keys(names) =~= fields.remove_keys(names));
}

} // verus!
