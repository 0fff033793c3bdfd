//! Properties of rendering that relate several renders or hold of every
//! template.

use vstd::prelude::*;
use crate::context::{TemplateContext, field_has_name, first_index, lookup_pair, profile_has_id};
use crate::error::TemplateErrorV;
use crate::render::{
    ChunkV, RECURSION_LIMIT, budget, chains_needed, chunk_chains, chunk_spec, chunks_spec, lemma_chunks_shape, render_chunks_spec,
    render_spec, stitch_spec, stitched_spec,
};
use crate::template::{Span, Template, TemplateInputChunk, TemplateKey};

verus! {

/// The raw chunks of `t` cover its source from start to end, in order, without
/// gaps or overlap.
pub open spec fn raw_tiles(t: Template) -> bool {
    let n = t.chunks@.len();
    &&& forall|i: int| 0 <= i < n ==> #[trigger] t.chunks@[i] is Raw
    &&& n == 0 ==> t.template@.len() == 0
    &&& n > 0 ==> t.chunks@[0]->Raw_0.start == 0
    &&& n > 0 ==> t.chunks@[n - 1]->Raw_0.end == t.template@.len()
    &&& forall|i: int|
        0 <= i < n - 1 ==> (#[trigger] t.chunks@[i])->Raw_0.end == t.chunks@[i + 1]->Raw_0.start
}

proof fn lemma_stitch_raw_prefix(t: Template, outs: Seq<ChunkV>, k: int)
    requires
        t.wf(),
        raw_tiles(t),
        0 < k <= outs.len(),
        outs.len() == t.chunks@.len(),
        forall|j: int| 0 <= j < outs.len() ==> #[trigger] outs[j] == ChunkV::Raw(t.chunks@[j]->Raw_0),
    ensures
        stitch_spec(t, outs.take(k)) == Ok::<Seq<char>, TemplateErrorV>(
            t.template@.subrange(0, t.chunks@[k - 1]->Raw_0.end as int),
        ),
    decreases k,
{
    let s = t.chunks@[k - 1]->Raw_0;
    assert(outs.take(k).drop_last() =~= outs.take(k - 1));
    assert(outs.take(k).last() == outs[k - 1]);
    assert(crate::template::span_ok(crate::template::chunk_span(t.chunks@[k - 1]), t.template@.len()));
    if k == 1 {
        assert(outs.take(0) =~= Seq::<ChunkV>::empty());
        assert(t.template@.subrange(0, s.start as int) =~= Seq::<char>::empty());
    } else {
        lemma_stitch_raw_prefix(t, outs, k - 1);
        assert(t.chunks@[k - 2]->Raw_0.end == s.start);
    }
    assert(t.template@.subrange(0, s.start as int) + t.template@.subrange(
        s.start as int,
        s.end as int,
    ) =~= t.template@.subrange(0, s.end as int));
}

/// A template without keys whose raw chunks tile its source renders to its
/// source, whatever the context.
pub proof fn lemma_raw_template_renders_source(ctx: TemplateContext, t: Template)
    requires
        t.wf(),
        raw_tiles(t),
    ensures
        render_spec(ctx, t) == Ok::<Seq<char>, TemplateErrorV>(t.template@),
{
    let n = t.chunks@.len();
    lemma_chunks_shape(ctx, t, n, 0);
    let outs = chunks_spec(ctx, t, n, 0).0;
    assert forall|j: int| 0 <= j < outs.len() implies #[trigger] outs[j] == ChunkV::Raw(
        t.chunks@[j]->Raw_0,
    ) by {
        assert(t.chunks@[j] is Raw);
    }
    if n == 0 {
        assert(t.template@ =~= Seq::<char>::empty());
    } else {
        lemma_stitch_raw_prefix(t, outs, n as int);
        assert(outs.take(n as int) =~= outs);
        assert(t.template@.subrange(0, t.template@.len() as int) =~= t.template@);
    }
}

/// Rendering chunks gives exactly one output per parsed chunk.
pub proof fn lemma_render_chunks_len(ctx: TemplateContext, t: Template)
    ensures
        render_chunks_spec(ctx, t).len() == t.chunks@.len(),
{
    lemma_chunks_shape(ctx, t, t.chunks@.len(), 0);
}

/// Output `j` of a chunk render is chunk `j` rendered, at the counter that the
/// chunks before it left: outputs come in the order of the chunks.
pub proof fn lemma_chunks_in_order(ctx: TemplateContext, t: Template, n: nat, c: nat, j: int)
    requires
        n <= t.chunks@.len(),
        0 <= j < n,
    ensures
        chunks_spec(ctx, t, n, c).0[j] == chunk_spec(
            ctx,
            t,
            t.chunks@[j],
            chunks_spec(ctx, t, j as nat, c).1,
        ).0,
    decreases n,
{
    lemma_chunks_shape(ctx, t, (n - 1) as nat, c);
    let c1 = chunks_spec(ctx, t, (n - 1) as nat, c).1;
    crate::render::lemma_chunk_counter(ctx, t, t.chunks@[n - 1], c1);
    if j < n - 1 {
        lemma_chunks_in_order(ctx, t, (n - 1) as nat, c, j);
    }
}

/// Every key of `t` has an entry among `overrides`.
pub open spec fn keys_overridden(t: Template, overrides: Seq<(String, String)>) -> bool {
    forall|i: int|
        0 <= i < t.chunks@.len() ==> (#[trigger] t.chunks@[i] matches TemplateInputChunk::Key(k)
            ==> lookup_pair(overrides, t.key_text(k)) is Some)
}

proof fn lemma_overridden_chunks(a: TemplateContext, b: TemplateContext, t: Template, n: nat)
    requires
        a.overrides@ == b.overrides@,
        keys_overridden(t, a.overrides@),
        n <= t.chunks@.len(),
    ensures
        chunks_spec(a, t, n, 0) == chunks_spec(b, t, n, 0),
        chunks_spec(a, t, n, 0).1 == 0,
    decreases n,
{
    if n > 0 {
        lemma_overridden_chunks(a, b, t, (n - 1) as nat);
        let ch = t.chunks@[n - 1];
        assert(ch matches TemplateInputChunk::Key(k) ==> lookup_pair(a.overrides@, t.key_text(k)) is Some);
        assert(chunk_spec(a, t, ch, 0) == chunk_spec(b, t, ch, 0));
        assert(chunk_spec(a, t, ch, 0).1 == 0);
    }
}

/// The first `n` chunks of `t` with each key replaced by its override's value.
pub open spec fn overridden_text(t: Template, overrides: Seq<(String, String)>, n: nat) -> Seq<char>
    decreases n,
{
    if n == 0 || n > t.chunks@.len() {
        seq![]
    } else {
        overridden_text(t, overrides, (n - 1) as nat) + match t.chunks@[n - 1] {
            TemplateInputChunk::Raw(s) => t.text(s),
            TemplateInputChunk::Key(k) => lookup_pair(overrides, t.key_text(k))->Some_0,
        }
    }
}

proof fn lemma_overridden_stitch(ctx: TemplateContext, t: Template, n: nat)
    requires
        keys_overridden(t, ctx.overrides@),
        n <= t.chunks@.len(),
    ensures
        stitch_spec(t, chunks_spec(ctx, t, n, 0).0) == Ok::<Seq<char>, TemplateErrorV>(
            overridden_text(t, ctx.overrides@, n),
        ),
    decreases n,
{
    if n > 0 {
        lemma_overridden_stitch(ctx, t, (n - 1) as nat);
        lemma_overridden_chunks(ctx, ctx, t, (n - 1) as nat);
        let ch = t.chunks@[n - 1];
        assert(ch matches TemplateInputChunk::Key(k) ==> lookup_pair(ctx.overrides@, t.key_text(k)) is Some);
        let outs = chunks_spec(ctx, t, n, 0).0;
        let prev = chunks_spec(ctx, t, (n - 1) as nat, 0).0;
        assert(outs == prev.push(chunk_spec(ctx, t, ch, 0).0));
        assert(outs.drop_last() =~= prev);
    } else {
        assert(chunks_spec(ctx, t, 0, 0).0 =~= Seq::<ChunkV>::empty());
    }
}

/// Where every key of a template has an override, the render is the raw text
/// with each key replaced by its override's value.
pub proof fn lemma_overridden_render_value(ctx: TemplateContext, t: Template)
    requires
        keys_overridden(t, ctx.overrides@),
    ensures
        render_spec(ctx, t) == Ok::<Seq<char>, TemplateErrorV>(
            overridden_text(t, ctx.overrides@, t.chunks@.len()),
        ),
{
    lemma_overridden_stitch(ctx, t, t.chunks@.len());
}

/// A field key without an override renders to its field's template rendered
/// in turn, one level deeper, while the counter is under the limit: the value
/// is the inner template's render, not its text.
pub proof fn lemma_field_renders_recursively(
    ctx: TemplateContext,
    t: Template,
    s: Span,
    inner: Template,
    c: nat,
)
    requires
        field_holds(ctx, t.text(s), inner),
        lookup_pair(ctx.overrides@, t.text(s)) is None,
        c < RECURSION_LIMIT,
    ensures
        chunk_spec(ctx, t, TemplateInputChunk::Key(TemplateKey::Field(s)), c).0 == match stitched_spec(
            ctx,
            inner,
            c + 1,
        ).0 {
            Ok(v) => ChunkV::Rendered(v, false),
            Err(e) => ChunkV::Error(TemplateErrorV::Nested(inner.template@, Box::new(e))),
        },
{
    assert(t.key_text(TemplateKey::Field(s)) == t.text(s));
}

/// Where every key of a template has an override, rendering reads nothing but
/// the overrides: the profiles, chains, environment, history, responses and
/// clock of the context make no difference to the result.
pub proof fn lemma_overrides_read_nothing_else(a: TemplateContext, b: TemplateContext, t: Template)
    requires
        a.overrides@ == b.overrides@,
        keys_overridden(t, a.overrides@),
    ensures
        render_spec(a, t) == render_spec(b, t),
        render_chunks_spec(a, t) == render_chunks_spec(b, t),
{
    lemma_overridden_chunks(a, b, t, t.chunks@.len());
}

proof fn lemma_overridden_needs_no_chains(ctx: TemplateContext, t: Template, d: nat, n: nat)
    requires
        keys_overridden(t, ctx.overrides@),
        n <= t.chunks@.len(),
    ensures
        chains_needed(ctx, t, d, n) == Seq::<Seq<char>>::empty(),
    decreases n,
{
    if n > 0 {
        lemma_overridden_needs_no_chains(ctx, t, d, (n - 1) as nat);
        let ch = t.chunks@[n - 1];
        assert(ch matches TemplateInputChunk::Key(k) ==> lookup_pair(ctx.overrides@, t.key_text(k)) is Some);
        assert(chunk_chains(ctx, t, ch, d) == Seq::<Seq<char>>::empty());
        assert(chains_needed(ctx, t, d, n) =~= Seq::<Seq<char>>::empty());
    }
}

/// Where every key of a template has an override, no chain needs outside data
/// for its render.
pub proof fn lemma_overridden_template_reads_no_chain(ctx: TemplateContext, t: Template)
    requires
        keys_overridden(t, ctx.overrides@),
    ensures
        chains_needed(ctx, t, 0, t.chunks@.len()) == Seq::<Seq<char>>::empty(),
{
    lemma_overridden_needs_no_chains(ctx, t, 0, t.chunks@.len());
}

/// The error at the bottom of a chain of nested field errors.
pub open spec fn innermost(e: TemplateErrorV) -> TemplateErrorV
    decreases e,
{
    match e {
        TemplateErrorV::Nested(_, inner) => innermost(*inner),
        _ => e,
    }
}

/// The selected profile's field `field` holds the template `t`.
pub open spec fn field_holds(ctx: TemplateContext, field: Seq<char>, t: Template) -> bool {
    &&& ctx.selected_profile is Some
    &&& first_index(ctx.collection.profiles@, profile_has_id(ctx.selected_profile->Some_0@)) matches Some(pi)
        && first_index(ctx.collection.profiles@[pi].data@, field_has_name(field)) matches Some(fi)
        && ctx.collection.profiles@[pi].data@[fi].1 == t
}

/// A field whose template is a key naming the field itself recurses without
/// end; its render stops at the recursion limit and fails with that error at
/// the bottom, whatever the counter was.
pub proof fn lemma_self_reference_hits_limit(
    ctx: TemplateContext,
    t: Template,
    s: Span,
    c: nat,
)
    requires
        t.chunks@ == seq![TemplateInputChunk::Key(TemplateKey::Field(s))],
        field_holds(ctx, t.text(s), t),
        lookup_pair(ctx.overrides@, t.text(s)) is None,
    ensures
        stitched_spec(ctx, t, c).0 matches Err(e) && innermost(e) == TemplateErrorV::RecursionLimit,
    decreases budget(c),
{
    if c < RECURSION_LIMIT {
        let k = TemplateKey::Field(s);
        let name = t.text(s);
        assert(t.key_text(k) == name);
        lemma_self_reference_hits_limit(ctx, t, s, c + 1);
        let inner = stitched_spec(ctx, t, c + 1);
        let e1 = inner.0->Err_0;
        let fs = crate::render::field_spec(ctx, name, c);
        assert(fs == (ChunkV::Error(TemplateErrorV::Nested(t.template@, Box::new(e1))), inner.1));
        assert(chunk_spec(ctx, t, t.chunks@[0], c) == fs);
        assert(chunks_spec(ctx, t, 0, c) == (Seq::<ChunkV>::empty(), c));
        let outs = chunks_spec(ctx, t, 1, c).0;
        assert(outs =~= seq![fs.0]);
        assert(outs.drop_last() =~= Seq::<ChunkV>::empty());
        assert(stitch_spec(t, outs.drop_last()) == Ok::<Seq<char>, TemplateErrorV>(seq![]));
        assert(stitch_spec(t, outs) == Err::<Seq<char>, TemplateErrorV>(
            TemplateErrorV::Nested(t.template@, Box::new(e1)),
        ));
        assert(innermost(TemplateErrorV::Nested(t.template@, Box::new(e1))) == innermost(e1));
    }
}

/// Rendering is a function of the template and the context: two renders of
/// the same template against the same context agree.
pub proof fn lemma_render_deterministic(a: TemplateContext, b: TemplateContext, t: Template)
    requires
        a == b,
    ensures
        render_spec(a, t) == render_spec(b, t),
        render_chunks_spec(a, t) == render_chunks_spec(b, t),
{
}

} // verus!
