//! The result assembler: lays the batches that arrived end to end.

use vstd::prelude::*;

verus! {

/// The paths of each batch, as texts.
spec fn texts(batches: Seq<Vec<String>>) -> Seq<Seq<Seq<char>>> {
    batches.map_values(|batch: Vec<String>| batch.deep_view())
}

proof fn lemma_flatten_step(batches: Seq<Vec<String>>, done: int)
    requires
        0 <= done < batches.len(),
    ensures
        texts(batches.take(done + 1)).flatten() == texts(batches.take(done)).flatten()
            + batches[done].deep_view(),
{
    assert(texts(batches.take(done + 1)) =~= texts(batches.take(done)).push(
        batches[done].deep_view(),
    ));
    texts(batches.take(done)).lemma_flatten_push(batches[done].deep_view());
}

/// Flattens the batches into one sequence of paths, keeping the order in
/// which the batches arrived and, within a batch, the order of insertion.
pub fn assemble(batches: Vec<Vec<String>>) -> (results: Vec<String>)
    ensures
        results.deep_view() == batches.deep_view().flatten(),
{
    let mut results: Vec<String> = Vec::new();
    let ghost all = batches@;
    assert(batches.deep_view() =~= texts(all));
    assert(results.deep_view() =~= texts(all.take(0)).flatten());
    for batch in iter: batches
        invariant
            iter.seq() == all,
            results.deep_view() == texts(all.take(iter.index() as int)).flatten(),
    {
        proof {
            lemma_flatten_step(all, iter.index() as int);
        }
        let mut batch = batch;
        let ghost before = results.deep_view();
        results.append(&mut batch);
        assert(results.deep_view() =~= before + all[iter.index() as int].deep_view());
    }
    assert(all.take(all.len() as int) =~= all);
    results
}

} // verus!
