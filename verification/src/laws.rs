use vstd::prelude::*;
use crate::handle::{GenerateResponseView, HandleView};
use crate::registry::{
    load_ok, load_state, reg_contains, reg_keys, reg_wf, spec_generate_result, unload_state,
    EntryView,
};

verus! {

/// Law: unloading a path that was never loaded leaves the registry
/// unchanged (and `unload_model` reports `NotLoaded` exactly then: see its
/// contract).
pub proof fn lemma_unload_not_loaded(r0: Seq<EntryView>, p: Seq<char>)
    requires
        !reg_contains(r0, p),
    ensures
        unload_state(r0, p) == r0,
{
}

/// Law: loading a path twice in sequence succeeds both times (whatever the
/// second construction outcome is) and leaves exactly one entry for the
/// path: the second load is a no-op on the state the first produced, and
/// well-formedness keeps the entry unique.
pub proof fn lemma_load_idempotent(
    r0: Seq<EntryView>,
    p: Seq<char>,
    b1: Result<HandleView, Seq<char>>,
    b2: Result<HandleView, Seq<char>>,
)
    requires
        reg_wf(r0),
        load_ok(r0, p, b1),
    ensures
        ({
            let r1 = load_state(r0, p, b1);
            &&& load_ok(r1, p, b2)
            &&& load_state(r1, p, b2) == r1
            &&& reg_contains(r1, p)
            &&& reg_wf(r1)
        }),
{
    let r1 = load_state(r0, p, b1);
    if reg_contains(r0, p) {
        assert(r1 == r0);
    } else {
        let h = b1->Ok_0;
        assert(r1 == r0.push(EntryView { path: p, handle: h }));
        assert(r1[r1.len() - 1].path == p);
        assert(reg_contains(r1, p));
        assert forall|i: int, j: int| 0 <= i < j < r1.len() implies r1[i].path != r1[j].path by {
            if j < r1.len() - 1 {
                assert(r0[i].path != r0[j].path);
            } else {
                assert(r0[i].path != p);
            }
        }
    }
}

/// Law: a generation request against a path behaves exactly as an explicit
/// load of that path followed by the same generation request: the load step
/// inside generation is idempotent over the explicitly loaded state, and the
/// results agree. In particular, generation against a path never previously
/// loaded equals load-then-generate (auto-load equivalence).
pub proof fn lemma_generate_auto_load(
    r0: Seq<EntryView>,
    p: Seq<char>,
    built: Result<HandleView, Seq<char>>,
    gen: Result<GenerateResponseView, Seq<char>>,
)
    ensures
        ({
            let r1 = load_state(r0, p, built);
            &&& load_state(r1, p, built) == r1
            &&& spec_generate_result(r1, p, built, gen) == spec_generate_result(r0, p, built, gen)
        }),
{
    let r1 = load_state(r0, p, built);
    if !reg_contains(r0, p) && built is Ok {
        assert(r1[r1.len() - 1].path == p);
        assert(reg_contains(r1, p));
    } else {
        assert(r1 == r0);
    }
}

/// Law: loading two distinct paths into an empty registry and unloading the
/// first leaves exactly the second loaded: the listing reports exactly that
/// path.
pub proof fn lemma_list_after_load_unload(
    a: Seq<char>,
    b: Seq<char>,
    ha: HandleView,
    hb: HandleView,
)
    requires
        a != b,
    ensures
        ({
            let r1 = load_state(Seq::empty(), a, Ok(ha));
            let r2 = load_state(r1, b, Ok(hb));
            let r3 = unload_state(r2, a);
            reg_keys(r3) == seq![b]
        }),
{
    let e = Seq::<EntryView>::empty();
    assert(!reg_contains(e, a));
    let r1 = load_state(e, a, Ok(ha));
    assert(r1 =~= seq![EntryView { path: a, handle: ha }]);
    assert(forall|i: int| 0 <= i < r1.len() ==> r1[i].path != b);
    assert(!reg_contains(r1, b));
    let r2 = load_state(r1, b, Ok(hb));
    assert(r2 =~= seq![EntryView { path: a, handle: ha }, EntryView { path: b, handle: hb }]);
    assert(r2[0].path == a);
    assert(reg_contains(r2, a));
    let i = choose|i: int| 0 <= i < r2.len() && r2[i].path == a;
    assert(r2[1].path == b);
    assert(i == 0);
    let r3 = unload_state(r2, a);
    assert(r3 =~= seq![EntryView { path: b, handle: hb }]);
    assert(reg_keys(r3) =~= seq![b]);
}

} // verus!
