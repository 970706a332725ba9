//! Facts about delivery over a run of inbound frames, each handled by
//! `Session::step` in turn.

use vstd::prelude::*;
use crate::frame::json_layout;
use crate::key::{is_correlation_key, key_of};
use crate::registry::CallbackType;
use crate::session::{position, route, route_element, route_prefix, Dispatch};

verus! {

/// Routing of a run of text frames, one after another: a frame that is not
/// valid JSON changes nothing and delivers nothing.
pub open spec fn route_texts<R, H>(reg: Map<Seq<char>, CallbackType<R, H>>, texts: Seq<Seq<char>>) -> (
    Map<Seq<char>, CallbackType<R, H>>,
    Seq<Dispatch<R>>,
)
    decreases texts.len(),
{
    if texts.len() == 0 {
        (reg, Seq::empty())
    } else {
        let (m, ds) = route_texts(reg, texts.drop_last());
        match json_layout(texts.last()) {
            None => (m, ds),
            Some((indexed, elems)) => {
                let (m2, d) = route(m, indexed, elems);
                (m2, ds + d)
            },
        }
    }
}

/// `text` is a valid document with exactly one element, whose key is `k`.
pub open spec fn tagged(text: Seq<char>, k: Seq<char>) -> bool {
    match json_layout(text) {
        Some((_, elems)) => elems.len() == 1 && key_of(elems[0]) == Some(k),
        None => false,
    }
}

/// Number of frames of `texts` tagged `k`.
pub open spec fn tagged_count(texts: Seq<Seq<char>>, k: Seq<char>) -> nat
    decreases texts.len(),
{
    if texts.len() == 0 {
        0
    } else {
        tagged_count(texts.drop_last(), k) + if tagged(texts.last(), k) {
            1nat
        } else {
            0nat
        }
    }
}

/// Number of invocations of the persistent handler on `k` in `ds`.
pub open spec fn invocations<R>(ds: Seq<Dispatch<R>>, k: Seq<char>) -> nat
    decreases ds.len(),
{
    if ds.len() == 0 {
        0
    } else {
        invocations(ds.drop_last(), k) + if ds.last() matches Dispatch::Invoke(j, _) && j == k {
            1nat
        } else {
            0nat
        }
    }
}

/// Number of resolutions of the one-shot waiter `r` on `k` in `ds`.
pub open spec fn resolutions<R>(ds: Seq<Dispatch<R>>, k: Seq<char>, r: R) -> nat
    decreases ds.len(),
{
    if ds.len() == 0 {
        0
    } else {
        resolutions(ds.drop_last(), k, r) + if ds.last() == Dispatch::Resolve(k, r) {
            1nat
        } else {
            0nat
        }
    }
}

proof fn lemma_counts_append<R>(a: Seq<Dispatch<R>>, b: Seq<Dispatch<R>>, k: Seq<char>, r: R)
    ensures
        invocations(a + b, k) == invocations(a, k) + invocations(b, k),
        resolutions(a + b, k, r) == resolutions(a, k, r) + resolutions(b, k, r),
    decreases b.len(),
{
    if b.len() > 0 {
        lemma_counts_append(a, b.drop_last(), k, r);
        assert((a + b).drop_last() =~= a + b.drop_last());
        assert((a + b).last() == b.last());
    } else {
        assert(a + b =~= a);
    }
}

proof fn lemma_route_single<R, H>(
    reg: Map<Seq<char>, CallbackType<R, H>>,
    indexed: bool,
    elems: Seq<Seq<Seq<char>>>,
)
    requires
        elems.len() == 1,
    ensures
        route(reg, indexed, elems) == ({
            let (m, d) = route_element(reg, elems[0], position(indexed, 0));
            (m, Seq::<Dispatch<R>>::empty() + d)
        }),
{
    assert(route_prefix(reg, indexed, elems, 0) == (reg, Seq::<Dispatch<R>>::empty()));
}

/// With a persistent handler on `k1` and a one-shot waiter on `k2`
/// (`k1 != k2`), delivering frames tagged `k1` and exactly one frame tagged
/// `k2`, in any order, invokes the `k1` handler once per `k1` frame,
/// resolves the `k2` waiter exactly once, delivers nothing else, keeps the
/// `k1` handler and leaves no entry on `k2`.
pub proof fn lemma_subscription_beside_call<R, H>(
    reg: Map<Seq<char>, CallbackType<R, H>>,
    k1: Seq<char>,
    k2: Seq<char>,
    h: H,
    r: R,
    texts: Seq<Seq<char>>,
)
    requires
        is_correlation_key(k1),
        is_correlation_key(k2),
        k1 != k2,
        reg.contains_key(k1) && reg[k1] == CallbackType::<R, H>::Persistent(h),
        reg.contains_key(k2) && reg[k2] == CallbackType::<R, H>::OneShot(r),
        forall|i: int| 0 <= i < texts.len() ==> tagged(#[trigger] texts[i], k1) || tagged(texts[i], k2),
        tagged_count(texts, k2) == 1,
    ensures
        invocations(route_texts(reg, texts).1, k1) == tagged_count(texts, k1),
        resolutions(route_texts(reg, texts).1, k2, r) == 1,
        route_texts(reg, texts).1.len() == tagged_count(texts, k1) + 1,
        route_texts(reg, texts).0 == reg.remove(k2),
{
    lemma_one_call_run(reg, k1, k2, h, r, texts);
}

proof fn lemma_one_call_run<R, H>(
    reg: Map<Seq<char>, CallbackType<R, H>>,
    k1: Seq<char>,
    k2: Seq<char>,
    h: H,
    r: R,
    texts: Seq<Seq<char>>,
)
    requires
        k1 != k2,
        reg.contains_key(k1) && reg[k1] == CallbackType::<R, H>::Persistent(h),
        reg.contains_key(k2) && reg[k2] == CallbackType::<R, H>::OneShot(r),
        forall|i: int| 0 <= i < texts.len() ==> tagged(#[trigger] texts[i], k1) || tagged(texts[i], k2),
        tagged_count(texts, k2) <= 1,
    ensures
        invocations(route_texts(reg, texts).1, k1) == tagged_count(texts, k1),
        resolutions(route_texts(reg, texts).1, k2, r) == tagged_count(texts, k2),
        route_texts(reg, texts).1.len() == tagged_count(texts, k1) + tagged_count(texts, k2),
        route_texts(reg, texts).0 == if tagged_count(texts, k2) == 0 {
            reg
        } else {
            reg.remove(k2)
        },
    decreases texts.len(),
{
    if texts.len() > 0 {
        let pre = texts.drop_last();
        let t = texts.last();
        assert forall|i: int| 0 <= i < pre.len() implies tagged(#[trigger] pre[i], k1) || tagged(
            pre[i],
            k2,
        ) by {
            assert(pre[i] == texts[i]);
        }
        lemma_one_call_run(reg, k1, k2, h, r, pre);
        let (m, ds) = route_texts(reg, pre);
        assert(tagged(texts[texts.len() - 1], k1) || tagged(texts[texts.len() - 1], k2));
        let (indexed, elems) = json_layout(t)->0;
        lemma_route_single(m, indexed, elems);
        let (m2, d) = route_element(m, elems[0], position(indexed, 0));
        assert(Seq::<Dispatch<R>>::empty() + d =~= d);
        lemma_counts_append(ds, d, k1, r);
        lemma_counts_append(ds, d, k2, r);
        if tagged(t, k2) {
            assert(!tagged(t, k1));
            assert(d =~= seq![Dispatch::<R>::Resolve(k2, r)]);
            assert(invocations(d.drop_last(), k1) == 0);
            assert(resolutions(d.drop_last(), k2, r) == 0);
            assert(route_texts(reg, texts).0 =~= reg.remove(k2));
        } else {
            assert(tagged(t, k1));
            assert(d =~= seq![Dispatch::<R>::Invoke(k1, position(indexed, 0))]);
            assert(invocations(d.drop_last(), k1) == 0);
            assert(resolutions(d.drop_last(), k2, r) == 0);
        }
    }
}

/// Registering a waiter on a key replaces the one there: a frame tagged
/// with that key afterwards is delivered to the new waiter alone (resolved
/// if it is one-shot, invoked and kept if persistent).
pub proof fn lemma_register_replaces<R, H>(
    reg: Map<Seq<char>, CallbackType<R, H>>,
    k: Seq<char>,
    w: CallbackType<R, H>,
    text: Seq<char>,
)
    requires
        reg.contains_key(k),
        tagged(text, k),
    ensures
        ({
            let (m, ds) = route_texts(reg.insert(k, w), seq![text]);
            match w {
                CallbackType::OneShot(r) => ds == seq![Dispatch::<R>::Resolve(k, r)] && !m.contains_key(k),
                CallbackType::Persistent(_) => ds.len() == 1 && ds[0] is Invoke && ds[0]->Invoke_0 == k
                    && m.contains_key(k) && m[k] == w,
            }
        }),
{
    let reg2 = reg.insert(k, w);
    let texts = seq![text];
    assert(texts.drop_last() =~= Seq::<Seq<char>>::empty());
    assert(route_texts(reg2, texts.drop_last()) == (reg2, Seq::<Dispatch<R>>::empty()));
    let (indexed, elems) = json_layout(text)->0;
    lemma_route_single(reg2, indexed, elems);
    let (m2, d) = route_element(reg2, elems[0], position(indexed, 0));
    assert(Seq::<Dispatch<R>>::empty() + d =~= d);
    assert(Seq::<Dispatch<R>>::empty() + (Seq::<Dispatch<R>>::empty() + d) =~= d);
}

/// `ds` resolves no one-shot waiter on `k`.
pub open spec fn resolves_none<R>(ds: Seq<Dispatch<R>>, k: Seq<char>) -> bool {
    forall|i: int| 0 <= i < ds.len() ==> !(#[trigger] ds[i] matches Dispatch::Resolve(j, _) && j == k)
}

/// No element of the document `text` has key `k` (or it is no document).
pub open spec fn untouched(text: Seq<char>, k: Seq<char>) -> bool {
    json_layout(text) matches Some((_, elems)) ==> forall|j: int|
        0 <= j < elems.len() ==> key_of(#[trigger] elems[j]) != Some(k)
}

proof fn lemma_other_element<R, H>(
    m: Map<Seq<char>, CallbackType<R, H>>,
    f: Seq<Seq<char>>,
    at: Option<nat>,
    k: Seq<char>,
)
    requires
        key_of(f) != Some(k),
    ensures
        route_element(m, f, at).0.contains_key(k) == m.contains_key(k),
        m.contains_key(k) ==> route_element(m, f, at).0[k] == m[k],
        resolves_none(route_element(m, f, at).1, k),
{
}

proof fn lemma_other_document<R, H>(
    m: Map<Seq<char>, CallbackType<R, H>>,
    indexed: bool,
    elems: Seq<Seq<Seq<char>>>,
    n: int,
    k: Seq<char>,
)
    requires
        0 <= n <= elems.len(),
        forall|j: int| 0 <= j < elems.len() ==> key_of(#[trigger] elems[j]) != Some(k),
    ensures
        route_prefix(m, indexed, elems, n).0.contains_key(k) == m.contains_key(k),
        m.contains_key(k) ==> route_prefix(m, indexed, elems, n).0[k] == m[k],
        resolves_none(route_prefix(m, indexed, elems, n).1, k),
    decreases n,
{
    if n > 0 {
        lemma_other_document(m, indexed, elems, n - 1, k);
        let (m1, ds) = route_prefix(m, indexed, elems, n - 1);
        lemma_other_element(m1, elems[n - 1], position(indexed, n - 1), k);
        let d = route_element(m1, elems[n - 1], position(indexed, n - 1)).1;
        assert forall|i: int| 0 <= i < (ds + d).len() implies !(#[trigger] (ds + d)[i] matches Dispatch::Resolve(j, _) && j == k) by {
            if i >= ds.len() {
                assert((ds + d)[i] == d[i - ds.len()]);
            }
        }
    }
}

proof fn lemma_untouched_run<R, H>(reg: Map<Seq<char>, CallbackType<R, H>>, texts: Seq<Seq<char>>, k: Seq<char>)
    requires
        forall|i: int| 0 <= i < texts.len() ==> untouched(#[trigger] texts[i], k),
    ensures
        route_texts(reg, texts).0.contains_key(k) == reg.contains_key(k),
        reg.contains_key(k) ==> route_texts(reg, texts).0[k] == reg[k],
        resolves_none(route_texts(reg, texts).1, k),
    decreases texts.len(),
{
    if texts.len() > 0 {
        let pre = texts.drop_last();
        assert forall|i: int| 0 <= i < pre.len() implies untouched(#[trigger] pre[i], k) by {
            assert(pre[i] == texts[i]);
        }
        lemma_untouched_run(reg, pre, k);
        assert(untouched(texts[texts.len() - 1], k));
        let (m, ds) = route_texts(reg, pre);
        if let Some((indexed, elems)) = json_layout(texts.last()) {
            lemma_other_document(m, indexed, elems, elems.len() as int, k);
            let d = route(m, indexed, elems).1;
            assert forall|i: int| 0 <= i < (ds + d).len() implies !(#[trigger] (ds + d)[i] matches Dispatch::Resolve(j, _) && j == k) by {
                if i >= ds.len() {
                    assert((ds + d)[i] == d[i - ds.len()]);
                }
            }
        }
    }
}

proof fn lemma_first_match_document<R, H>(
    m: Map<Seq<char>, CallbackType<R, H>>,
    indexed: bool,
    elems: Seq<Seq<Seq<char>>>,
    n: int,
    k: Seq<char>,
    r: R,
)
    requires
        0 <= n <= elems.len(),
        m.contains_key(k) && m[k] == CallbackType::<R, H>::OneShot(r),
    ensures
        ({
            let (m2, ds) = route_prefix(m, indexed, elems, n);
            ||| (m2.contains_key(k) && m2[k] == m[k] && forall|j: int|
                0 <= j < n ==> key_of(#[trigger] elems[j]) != Some(k))
            ||| (ds.contains(Dispatch::Resolve(k, r)) && !m2.contains_key(k))
        }),
    decreases n,
{
    if n > 0 {
        lemma_first_match_document(m, indexed, elems, n - 1, k, r);
        let (m1, ds) = route_prefix(m, indexed, elems, n - 1);
        let (m2, d) = route_element(m1, elems[n - 1], position(indexed, n - 1));
        if ds.contains(Dispatch::Resolve(k, r)) && !m1.contains_key(k) {
            let i = choose|i: int| 0 <= i < ds.len() && ds[i] == Dispatch::<R>::Resolve(k, r);
            assert((ds + d)[i] == ds[i]);
            if key_of(elems[n - 1]) == Some(k) {
            } else {
                lemma_other_element(m1, elems[n - 1], position(indexed, n - 1), k);
            }
        } else if key_of(elems[n - 1]) == Some(k) {
            assert(d == seq![Dispatch::<R>::Resolve(k, r)]);
            assert((ds + d)[ds.len() as int] == Dispatch::<R>::Resolve(k, r));
        } else {
            lemma_other_element(m1, elems[n - 1], position(indexed, n - 1), k);
        }
    }
}

/// A one-shot waiter on `k` is resolved with the first frame that holds an
/// element with key `k`: frames before it, which hold none, leave the
/// waiter in place and resolve nothing on `k`, and that frame's
/// deliveries resolve it and remove it.
pub proof fn lemma_first_match_resolves<R, H>(
    reg: Map<Seq<char>, CallbackType<R, H>>,
    k: Seq<char>,
    r: R,
    texts: Seq<Seq<char>>,
    m: int,
)
    requires
        reg.contains_key(k) && reg[k] == CallbackType::<R, H>::OneShot(r),
        0 <= m < texts.len(),
        forall|i: int| 0 <= i < m ==> untouched(#[trigger] texts[i], k),
        !untouched(texts[m], k),
    ensures
        resolves_none(route_texts(reg, texts.take(m)).1, k),
        route_texts(reg, texts.take(m)).0.contains_key(k),
        route_texts(reg, texts.take(m)).0[k] == CallbackType::<R, H>::OneShot(r),
        ({
            let (before, _) = route_texts(reg, texts.take(m));
            let (indexed, elems) = json_layout(texts[m])->0;
            &&& route(before, indexed, elems).1.contains(Dispatch::Resolve(k, r))
            &&& !route(before, indexed, elems).0.contains_key(k)
        }),
{
    let pre = texts.take(m);
    assert forall|i: int| 0 <= i < pre.len() implies untouched(#[trigger] pre[i], k) by {
        assert(pre[i] == texts[i]);
    }
    lemma_untouched_run(reg, pre, k);
    let (before, _) = route_texts(reg, pre);
    let (indexed, elems) = json_layout(texts[m])->0;
    lemma_first_match_document(before, indexed, elems, elems.len() as int, k, r);
}

/// A frame that is not valid JSON does not change what later frames
/// deliver: dropping it from the run gives the same registry and the same
/// deliveries.
pub proof fn lemma_malformed_frame_ignored<R, H>(
    reg: Map<Seq<char>, CallbackType<R, H>>,
    pre: Seq<Seq<char>>,
    bad: Seq<char>,
    post: Seq<Seq<char>>,
)
    requires
        json_layout(bad) is None,
    ensures
        route_texts(reg, pre.push(bad) + post) == route_texts(reg, pre + post),
    decreases post.len(),
{
    if post.len() == 0 {
        assert(pre.push(bad) + post =~= pre.push(bad));
        assert(pre + post =~= pre);
        assert(pre.push(bad).drop_last() =~= pre);
    } else {
        lemma_malformed_frame_ignored(reg, pre, bad, post.drop_last());
        assert((pre.push(bad) + post).drop_last() =~= pre.push(bad) + post.drop_last());
        assert((pre + post).drop_last() =~= pre + post.drop_last());
    }
}

} // verus!
