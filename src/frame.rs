use vstd::prelude::*;
use vstd::arithmetic::div_mod::{
    lemma_div_denominator,
    lemma_div_multiples_vanish_fancy,
    lemma_div_plus_one,
};
use crate::layout::Vertex;
use crate::math::{Vec2, Vec3, Vec4};
use crate::renderer::{overflows, quad_vertices, QUAD_VERTICES};

verus! {

/// A quad as `Renderer::push_quad` takes it: corner, opposite corner, color.
pub type QuadArgs<T> = (Vec3<T>, Vec2<T>, Vec4<T>);

/// The vertices of `quads`, quad after quad.
pub open spec fn expand<T>(quads: Seq<QuadArgs<T>>) -> Seq<Vertex<T>>
    decreases quads.len(),
{
    if quads.len() == 0 {
        Seq::empty()
    } else {
        quad_vertices(quads[0].0, quads[0].1, quads[0].2) + expand(quads.drop_first())
    }
}

/// The batches that one draw call each covers when `quads` are pushed, in
/// order, onto a batch that holds `staged`, and the frame then ends. Each
/// step is the one `Renderer::push_quad` takes: flush the batch where the
/// quad does not fit, then append the quad's vertices.
pub open spec fn batches<T>(
    capacity: nat,
    staged: Seq<Vertex<T>>,
    quads: Seq<QuadArgs<T>>,
) -> Seq<Seq<Vertex<T>>>
    decreases quads.len(),
{
    if quads.len() == 0 {
        seq![staged]
    } else {
        let vs = quad_vertices(quads[0].0, quads[0].1, quads[0].2);
        if overflows(capacity, staged.len()) {
            seq![staged] + batches(capacity, vs, quads.drop_first())
        } else {
            batches(capacity, staged + vs, quads.drop_first())
        }
    }
}

pub proof fn lemma_expand_len<T>(quads: Seq<QuadArgs<T>>)
    ensures
        expand(quads).len() == QUAD_VERTICES * quads.len(),
    decreases quads.len(),
{
    if quads.len() > 0 {
        lemma_expand_len(quads.drop_first());
    }
}

proof fn lemma_flatten_cons<V>(a: Seq<V>, rest: Seq<Seq<V>>)
    ensures
        (seq![a] + rest).flatten() == a + rest.flatten(),
{
    let s = seq![a] + rest;
    assert(s.first() == a);
    assert(s.drop_first() =~= rest);
}

/// The batches hold the staged vertices and then those of the quads, in
/// order: none lost, none repeated.
pub proof fn lemma_batches_keep_order<T>(
    capacity: nat,
    staged: Seq<Vertex<T>>,
    quads: Seq<QuadArgs<T>>,
)
    ensures
        batches(capacity, staged, quads).flatten() == staged + expand(quads),
    decreases quads.len(),
{
    if quads.len() == 0 {
        lemma_flatten_cons(staged, Seq::empty());
        assert(staged + Seq::<Vertex<T>>::empty() =~= staged);
    } else {
        let vs = quad_vertices(quads[0].0, quads[0].1, quads[0].2);
        let rest = quads.drop_first();
        if overflows(capacity, staged.len()) {
            lemma_batches_keep_order(capacity, vs, rest);
            lemma_flatten_cons(staged, batches(capacity, vs, rest));
        } else {
            lemma_batches_keep_order(capacity, staged + vs, rest);
        }
        assert((staged + vs) + expand(rest) =~= staged + (vs + expand(rest)));
    }
}

/// No batch holds more than the capacity.
pub proof fn lemma_batches_bounded<T>(
    capacity: nat,
    staged: Seq<Vertex<T>>,
    quads: Seq<QuadArgs<T>>,
)
    requires
        QUAD_VERTICES <= capacity,
        staged.len() <= capacity,
    ensures
        forall|i: int|
            0 <= i < batches(capacity, staged, quads).len() ==> (#[trigger] batches(
                capacity,
                staged,
                quads,
            )[i]).len() <= capacity,
    decreases quads.len(),
{
    if quads.len() > 0 {
        let vs = quad_vertices(quads[0].0, quads[0].1, quads[0].2);
        let rest = quads.drop_first();
        if overflows(capacity, staged.len()) {
            lemma_batches_bounded(capacity, vs, rest);
            let b = batches(capacity, vs, rest);
            let all = seq![staged] + b;
            assert(batches(capacity, staged, quads) == all);
            assert(all.len() == b.len() + 1);
            assert forall|i: int| 0 <= i < all.len() implies (#[trigger] all[i]).len() <= capacity by {
                if i > 0 {
                    assert(all[i] == b[i - 1]);
                } else {
                    assert(all[i] == staged);
                }
            }
        } else {
            lemma_batches_bounded(capacity, staged + vs, rest);
            assert(batches(capacity, staged, quads) == batches(capacity, staged + vs, rest));
        }
    } else {
        assert(batches(capacity, staged, quads) == seq![staged]);
    }
}

/// Quads that fit beside what is staged all go into the one batch.
pub proof fn lemma_batches_single<T>(
    capacity: nat,
    staged: Seq<Vertex<T>>,
    quads: Seq<QuadArgs<T>>,
)
    requires
        staged.len() + QUAD_VERTICES * quads.len() <= capacity,
    ensures
        batches(capacity, staged, quads) == seq![staged + expand(quads)],
    decreases quads.len(),
{
    if quads.len() == 0 {
        assert(staged + expand(quads) =~= staged);
    } else {
        let vs = quad_vertices(quads[0].0, quads[0].1, quads[0].2);
        let rest = quads.drop_first();
        lemma_batches_single(capacity, staged + vs, rest);
        assert((staged + vs) + expand(rest) =~= staged + (vs + expand(rest)));
    }
}

/// With a capacity of `q` whole quads, a batch of `m` quads and `n` more
/// quads to push end in `ceil((m + n) / q)` batches: each batch but the
/// last is full.
proof fn lemma_batches_count<T>(
    q: nat,
    m: nat,
    staged: Seq<Vertex<T>>,
    quads: Seq<QuadArgs<T>>,
)
    requires
        q >= 1,
        m <= q,
        staged.len() == QUAD_VERTICES * m,
        m + quads.len() >= 1,
    ensures
        batches((QUAD_VERTICES * q) as nat, staged, quads).len() == (m + quads.len() + q - 1) as int / q as int,
    decreases quads.len(),
{
    let cap = (QUAD_VERTICES * q) as nat;
    let n = quads.len();
    if n == 0 {
        lemma_div_multiples_vanish_fancy(1, m - 1, q as int);
        assert(q * 1 + (m - 1) == m + q - 1);
    } else {
        let vs = quad_vertices(quads[0].0, quads[0].1, quads[0].2);
        let rest = quads.drop_first();
        if overflows(cap, staged.len()) {
            assert(m == q);
            lemma_batches_count(q, 1, vs, rest);
            lemma_div_plus_one((n + q - 1) as int, q as int);
        } else {
            lemma_batches_count(q, m + 1, staged + vs, rest);
        }
    }
}

/// Pushing quads whose vertices fit the capacity, right after `begin`,
/// and ending the frame makes one batch: all the quads' vertices in push
/// order, so one upload and one draw call of that many vertices.
pub proof fn lemma_frame_within_capacity<T>(capacity: nat, quads: Seq<QuadArgs<T>>)
    requires
        QUAD_VERTICES * quads.len() <= capacity,
    ensures
        batches(capacity, Seq::empty(), quads) == seq![expand(quads)],
        expand(quads).len() == QUAD_VERTICES * quads.len(),
{
    lemma_batches_single(capacity, Seq::<Vertex<T>>::empty(), quads);
    assert(Seq::<Vertex<T>>::empty() + expand(quads) =~= expand(quads));
    lemma_expand_len(quads);
}

/// Pushing more quad vertices than the capacity, right after `begin`, and
/// ending the frame makes several batches, one draw call each: each holds
/// at most the capacity, and together they hold every quad's vertices in
/// push order. Where the capacity is a whole number of quads there are
/// `ceil(6 n / capacity)` of them.
pub proof fn lemma_frame_over_capacity<T>(capacity: nat, quads: Seq<QuadArgs<T>>)
    requires
        QUAD_VERTICES <= capacity,
        QUAD_VERTICES * quads.len() > capacity,
    ensures
        batches(capacity, Seq::empty(), quads).flatten() == expand(quads),
        expand(quads).len() == QUAD_VERTICES * quads.len(),
        forall|i: int|
            0 <= i < batches(capacity, Seq::empty(), quads).len() ==> (#[trigger] batches(
                capacity,
                Seq::empty(),
                quads,
            )[i]).len() <= capacity,
        capacity % QUAD_VERTICES as nat == 0 ==> batches(capacity, Seq::empty(), quads).len() == (
        QUAD_VERTICES * quads.len() + capacity - 1) as int / capacity as int,
{
    let empty = Seq::<Vertex<T>>::empty();
    lemma_batches_keep_order(capacity, empty, quads);
    assert(empty + expand(quads) =~= expand(quads));
    lemma_expand_len(quads);
    lemma_batches_bounded(capacity, empty, quads);
    if capacity % QUAD_VERTICES as nat == 0 {
        let q = capacity / QUAD_VERTICES as nat;
        let n = quads.len();
        assert(capacity == QUAD_VERTICES * q);
        lemma_batches_count(q, 0, empty, quads);
        let x = (QUAD_VERTICES * n + capacity - 1) as int;
        lemma_div_multiples_vanish_fancy((n + q - 1) as int, 5, 6);
        assert(6 * (n + q - 1) + 5 == x);
        lemma_div_denominator(x, 6, q as int);
    }
}

} // verus!
