//! Rendering: overrides and sources for each key, recursion into profile
//! fields under a limit, and stitching the chunks into one string.

use vstd::prelude::*;
use vstd::string::StringExecFns;
use crate::chain::{
    bytes_to_text, content_type_from_extension, content_type_of, extension_content_type, recipe_known,
    resolve_content_type, resolve_response, response_spec, select_spec, select_value, text_spec,
};
use crate::context::{
    Chain, ChainData, ChainInput, ChainSource, ContentType, SelectFailure, TemplateContext, chain_has_id,
    contains_string, env_has_name, field_has_name, find_env, find_chain, find_field, find_input, find_pair, find_profile,
    first_index, input_has_id, lookup_pair, profile_has_id, string_is,
};
use crate::error::{ChainError, ChainErrorV, EnvVarError, TemplateError, TemplateErrorV};
use crate::template::{
    Span, Template, TemplateInputChunk, TemplateKey, TemplateSource, chunk_span, key_span, span_ok,
};

verus! {

/// How many profile fields one top-level render may render recursively.
pub const RECURSION_LIMIT: u64 = 10;

/// One rendered chunk, for previews: raw text stays a span of the template.
#[derive(Debug)]
pub enum TemplateChunk {
    Raw(Span),
    Rendered { value: String, sensitive: bool },
    Error(TemplateError),
}

/// [`TemplateChunk`] with strings as character sequences.
pub enum ChunkV {
    Raw(Span),
    Rendered(Seq<char>, bool),
    Error(TemplateErrorV),
}

impl View for TemplateChunk {
    type V = ChunkV;

    open spec fn view(&self) -> ChunkV {
        match self {
            TemplateChunk::Raw(s) => ChunkV::Raw(*s),
            TemplateChunk::Rendered { value, sensitive } => ChunkV::Rendered(value@, *sensitive),
            TemplateChunk::Error(e) => ChunkV::Error(e@),
        }
    }
}

pub open spec fn chunk_views(s: Seq<TemplateChunk>) -> Seq<ChunkV> {
    s.map_values(|c: TemplateChunk| c@)
}

pub open spec fn result_view(r: Result<String, TemplateError>) -> Result<Seq<char>, TemplateErrorV> {
    match r {
        Ok(s) => Ok(s@),
        Err(e) => Err(e@),
    }
}

/// What is left of the recursion budget at counter value `c`.
pub open spec fn budget(c: nat) -> nat {
    if c < RECURSION_LIMIT {
        (RECURSION_LIMIT - c) as nat
    } else {
        0
    }
}

/// The counter after a field render raises it: one more, short of the largest
/// value a `u64` holds.
pub open spec fn raised(c: nat) -> nat {
    if c < u64::MAX {
        c + 1
    } else {
        c
    }
}

/// A chain value given as bytes: decoded as text, or selected where the chain
/// has a selector.
pub open spec fn from_bytes_spec(
    chain: Chain,
    b: Seq<u8>,
    detected: Option<ContentType>,
    selected: Result<String, SelectFailure>,
) -> Result<Seq<char>, ChainErrorV> {
    if chain.selector is Some {
        select_spec(resolve_content_type(chain.content_type, detected), selected)
    } else {
        text_spec(b)
    }
}

/// A chain value given as text (a prompt's reply).
pub open spec fn from_text_spec(
    chain: Chain,
    t: Seq<char>,
    selected: Result<String, SelectFailure>,
) -> Result<Seq<char>, ChainErrorV> {
    if chain.selector is Some {
        select_spec(chain.content_type, selected)
    } else {
        Ok(t)
    }
}

/// The value of a chain, from its definition and what the outside gave for it.
pub open spec fn chain_value_spec(ctx: TemplateContext, chain: Chain) -> Result<
    Seq<char>,
    ChainErrorV,
> {
    let input = first_index(ctx.chain_inputs@, input_has_id(chain.id@));
    match chain.source {
        ChainSource::Request { recipe, trigger } => if !recipe_known(
            ctx.collection.recipes@,
            recipe@,
        ) {
            Err(ChainErrorV::RecipeUnknown(recipe@))
        } else {
            match input {
                None => Err(ChainErrorV::NoResponse),
                Some(k) => match ctx.chain_inputs@[k].data {
                    ChainData::Request { history, fresh } => match response_spec(
                        recipe@,
                        trigger,
                        history,
                        fresh,
                        ctx.http_engine,
                        ctx.now,
                    ) {
                        Ok(resp) => from_bytes_spec(
                            chain,
                            resp.body@,
                            resp.content_type,
                            ctx.chain_inputs@[k].selected,
                        ),
                        Err(e) => Err(e),
                    },
                    _ => Err(ChainErrorV::NoResponse),
                },
            }
        },
        ChainSource::File { path } => match input {
            None => Err(ChainErrorV::NoResponse),
            Some(k) => match ctx.chain_inputs@[k].data {
                ChainData::Output { result } => match result {
                    Ok(b) => from_bytes_spec(
                        chain,
                        b@,
                        extension_content_type(path@),
                        ctx.chain_inputs@[k].selected,
                    ),
                    Err(c) => Err(ChainErrorV::File(path@, c@)),
                },
                _ => Err(ChainErrorV::NoResponse),
            },
        },
        ChainSource::Command { command } => if command@.len() == 0 {
            Err(ChainErrorV::CommandMissing)
        } else {
            match input {
                None => Err(ChainErrorV::NoResponse),
                Some(k) => match ctx.chain_inputs@[k].data {
                    ChainData::Output { result } => match result {
                        Ok(b) => from_bytes_spec(chain, b@, None, ctx.chain_inputs@[k].selected),
                        Err(c) => Err(ChainErrorV::Command(command.deep_view(), c@)),
                    },
                    _ => Err(ChainErrorV::NoResponse),
                },
            }
        },
        ChainSource::Prompt { .. } => match input {
            None => Err(ChainErrorV::NoResponse),
            Some(k) => match ctx.chain_inputs@[k].data {
                ChainData::Reply { reply } => match reply {
                    Some(t) => from_text_spec(chain, t@, ctx.chain_inputs@[k].selected),
                    None => Err(ChainErrorV::PromptNoResponse),
                },
                _ => Err(ChainErrorV::NoResponse),
            },
        },
    }
}

/// What a chain key renders to: its value, sensitive as the chain is, or its
/// error attributed to the chain id.
pub open spec fn chain_spec(ctx: TemplateContext, id: Seq<char>) -> ChunkV {
    match first_index(ctx.collection.chains@, chain_has_id(id)) {
        None => ChunkV::Error(TemplateErrorV::Chain(id, ChainErrorV::ChainUnknown)),
        Some(i) => {
            let chain = ctx.collection.chains@[i];
            match chain_value_spec(ctx, chain) {
                Ok(v) => ChunkV::Rendered(v, chain.sensitive),
                Err(e) => ChunkV::Error(TemplateErrorV::Chain(id, e)),
            }
        },
    }
}

/// What an environment key renders to.
pub open spec fn env_spec(ctx: TemplateContext, name: Seq<char>) -> ChunkV {
    match first_index(ctx.env@, env_has_name(name)) {
        Some(i) => match ctx.env@[i].1 {
            Some(v) => ChunkV::Rendered(v@, false),
            None => ChunkV::Error(TemplateErrorV::EnvironmentVariable(name, EnvVarError::NotUnicode)),
        },
        None => ChunkV::Error(TemplateErrorV::EnvironmentVariable(name, EnvVarError::NotPresent)),
    }
}

/// What a field key renders to, and the recursion counter afterwards.
pub open spec fn field_spec(ctx: TemplateContext, name: Seq<char>, c: nat) -> (ChunkV, nat)
    decreases budget(c), 0nat, 0nat,
{
    match ctx.selected_profile {
        None => (ChunkV::Error(TemplateErrorV::NoProfileSelected), c),
        Some(pid) => match first_index(ctx.collection.profiles@, profile_has_id(pid@)) {
            None => (ChunkV::Error(TemplateErrorV::ProfileUnknown(pid@)), c),
            Some(pi) => {
                let profile = ctx.collection.profiles@[pi];
                match first_index(profile.data@, field_has_name(name)) {
                    None => (ChunkV::Error(TemplateErrorV::FieldUnknown(name)), c),
                    Some(fi) => {
                        let inner = profile.data@[fi].1;
                        if c >= RECURSION_LIMIT {
                            (
                                ChunkV::Error(
                                    TemplateErrorV::Nested(
                                        inner.template@,
                                        Box::new(TemplateErrorV::RecursionLimit),
                                    ),
                                ),
                                raised(c),
                            )
                        } else {
                            let (r, c2) = stitched_spec(ctx, inner, c + 1);
                            match r {
                                Ok(v) => (ChunkV::Rendered(v, false), c2),
                                Err(e) => (
                                    ChunkV::Error(TemplateErrorV::Nested(inner.template@, Box::new(e))),
                                    c2,
                                ),
                            }
                        }
                    },
                }
            },
        },
    }
}

/// What one chunk renders to, and the recursion counter afterwards. An override
/// for the key's text wins over its source.
pub open spec fn chunk_spec(ctx: TemplateContext, t: Template, ch: TemplateInputChunk, c: nat) -> (
    ChunkV,
    nat,
)
    decreases budget(c), 1nat, 0nat,
{
    match ch {
        TemplateInputChunk::Raw(s) => (ChunkV::Raw(s), c),
        TemplateInputChunk::Key(k) => match lookup_pair(ctx.overrides@, t.key_text(k)) {
            Some(v) => (ChunkV::Rendered(v, false), c),
            None => match k {
                TemplateKey::Field(s) => field_spec(ctx, t.text(s), c),
                TemplateKey::Chain(s) => (chain_spec(ctx, t.text(s)), c),
                TemplateKey::Environment(s) => (env_spec(ctx, t.text(s)), c),
            },
        },
    }
}

/// The first `n` chunks rendered in order, and the counter afterwards.
pub open spec fn chunks_spec(ctx: TemplateContext, t: Template, n: nat, c: nat) -> (
    Seq<ChunkV>,
    nat,
)
    decreases budget(c), 2nat, n,
{
    if n == 0 || n > t.chunks@.len() {
        (seq![], c)
    } else {
        let (prev, c1) = chunks_spec(ctx, t, (n - 1) as nat, c);
        if c1 < c {
            (prev, c1)
        } else {
            let (o, c2) = chunk_spec(ctx, t, t.chunks@[n - 1], c1);
            (prev.push(o), c2)
        }
    }
}

/// Rendered chunks stitched into one string; the first error wins.
pub open spec fn stitch_spec(t: Template, outs: Seq<ChunkV>) -> Result<Seq<char>, TemplateErrorV>
    decreases outs.len(),
{
    if outs.len() == 0 {
        Ok(seq![])
    } else {
        match stitch_spec(t, outs.drop_last()) {
            Err(e) => Err(e),
            Ok(s) => match outs.last() {
                ChunkV::Raw(sp) => Ok(s + t.text(sp)),
                ChunkV::Rendered(v, _) => Ok(s + v),
                ChunkV::Error(e) => Err(e),
            },
        }
    }
}

/// A whole template rendered to one string at counter value `c`, and the
/// counter afterwards. At the limit the render fails before any chunk.
pub open spec fn stitched_spec(ctx: TemplateContext, t: Template, c: nat) -> (
    Result<Seq<char>, TemplateErrorV>,
    nat,
)
    decreases budget(c), 3nat, 0nat,
{
    if c >= RECURSION_LIMIT {
        (Err(TemplateErrorV::RecursionLimit), c)
    } else {
        let (outs, c1) = chunks_spec(ctx, t, t.chunks@.len(), c);
        (stitch_spec(t, outs), c1)
    }
}

/// The result of a top-level render.
pub open spec fn render_spec(ctx: TemplateContext, t: Template) -> Result<Seq<char>, TemplateErrorV> {
    stitched_spec(ctx, t, 0).0
}

/// The chunks of a top-level chunk render.
pub open spec fn render_chunks_spec(ctx: TemplateContext, t: Template) -> Seq<ChunkV> {
    chunks_spec(ctx, t, t.chunks@.len(), 0).0
}

/// Rendering a field never lowers the recursion counter.
pub proof fn lemma_field_counter(ctx: TemplateContext, name: Seq<char>, c: nat)
    ensures
        field_spec(ctx, name, c).1 >= c,
    decreases budget(c), 0nat, 0nat,
{
    match ctx.selected_profile {
        None => {},
        Some(pid) => match first_index(ctx.collection.profiles@, profile_has_id(pid@)) {
            None => {},
            Some(pi) => {
                let profile = ctx.collection.profiles@[pi];
                match first_index(profile.data@, field_has_name(name)) {
                    None => {},
                    Some(fi) => {
                        if c < RECURSION_LIMIT {
                            lemma_stitched_counter(ctx, profile.data@[fi].1, c + 1);
                        }
                    },
                }
            },
        },
    }
}

/// Rendering a chunk never lowers the recursion counter.
pub proof fn lemma_chunk_counter(ctx: TemplateContext, t: Template, ch: TemplateInputChunk, c: nat)
    ensures
        chunk_spec(ctx, t, ch, c).1 >= c,
    decreases budget(c), 1nat, 0nat,
{
    match ch {
        TemplateInputChunk::Raw(_) => {},
        TemplateInputChunk::Key(k) => match lookup_pair(ctx.overrides@, t.key_text(k)) {
            Some(_) => {},
            None => match k {
                TemplateKey::Field(s) => lemma_field_counter(ctx, t.text(s), c),
                _ => {},
            },
        },
    }
}

/// Rendering chunks in order never lowers the recursion counter, gives one
/// output per chunk, and keeps each raw chunk's span in its place.
pub proof fn lemma_chunks_shape(ctx: TemplateContext, t: Template, n: nat, c: nat)
    requires
        n <= t.chunks@.len(),
    ensures
        chunks_spec(ctx, t, n, c).1 >= c,
        chunks_spec(ctx, t, n, c).0.len() == n,
        forall|j: int|
            0 <= j < n ==> (#[trigger] chunks_spec(ctx, t, n, c).0[j] is Raw <==> t.chunks@[j] is Raw),
        forall|j: int|
            0 <= j < n ==> (t.chunks@[j] matches TemplateInputChunk::Raw(s) ==> #[trigger] chunks_spec(
                ctx,
                t,
                n,
                c,
            ).0[j] == ChunkV::Raw(s)),
    decreases budget(c), 2nat, n,
{
    if n > 0 {
        lemma_chunks_shape(ctx, t, (n - 1) as nat, c);
        let (prev, c1) = chunks_spec(ctx, t, (n - 1) as nat, c);
        lemma_chunk_counter(ctx, t, t.chunks@[n - 1], c1);
        let out = chunks_spec(ctx, t, n, c).0;
        assert forall|j: int| 0 <= j < n - 1 implies out[j] == prev[j] by {}
    }
}

/// Rendering a whole template never lowers the recursion counter.
pub proof fn lemma_stitched_counter(ctx: TemplateContext, t: Template, c: nat)
    ensures
        stitched_spec(ctx, t, c).1 >= c,
    decreases budget(c), 3nat, 0nat,
{
    if c < RECURSION_LIMIT {
        lemma_chunks_shape(ctx, t, t.chunks@.len(), c);
    }
}

/// Once stitching meets an error in a prefix, that error is the result.
proof fn lemma_stitch_error_sticks(t: Template, outs: Seq<ChunkV>, k: int)
    requires
        0 <= k <= outs.len(),
        stitch_spec(t, outs.take(k)) is Err,
    ensures
        stitch_spec(t, outs) == stitch_spec(t, outs.take(k)),
    decreases outs.len(),
{
    if k < outs.len() {
        assert(outs.drop_last().take(k) =~= outs.take(k));
        lemma_stitch_error_sticks(t, outs.drop_last(), k);
    } else {
        assert(outs.take(k) =~= outs);
    }
}

/// Finds the text of an environment variable.
fn render_env(ctx: &TemplateContext, name: String) -> (r: TemplateChunk)
    ensures
        r@ == env_spec(*ctx, name@),
{
    match find_env(&ctx.env, &name) {
        Some(i) => match &ctx.env[i].1 {
            Some(v) => TemplateChunk::Rendered { value: v.clone(), sensitive: false },
            None => TemplateChunk::Error(
                TemplateError::EnvironmentVariable { variable: name, error: EnvVarError::NotUnicode },
            ),
        },
        None => TemplateChunk::Error(
            TemplateError::EnvironmentVariable { variable: name, error: EnvVarError::NotPresent },
        ),
    }
}

/// A chain value given as bytes, decoded or selected.
fn value_from_bytes(
    chain: &Chain,
    b: &Vec<u8>,
    detected: Option<ContentType>,
    selected: &Result<String, SelectFailure>,
) -> (r: Result<String, ChainError>)
    ensures
        match (r, from_bytes_spec(*chain, b@, detected, *selected)) {
            (Ok(s), Ok(t)) => s@ == t,
            (Err(e), Err(f)) => e@ == f,
            _ => false,
        },
{
    if chain.selector.is_some() {
        select_value(content_type_of(chain.content_type, detected), selected)
    } else {
        bytes_to_text(b)
    }
}

/// Renders the value of a chain of the collection.
pub fn chain_value(ctx: &TemplateContext, chain: &Chain) -> (r: Result<String, ChainError>)
    ensures
        match (r, chain_value_spec(*ctx, *chain)) {
            (Ok(s), Ok(t)) => s@ == t,
            (Err(e), Err(f)) => e@ == f,
            _ => false,
        },
{
    let input = find_input(&ctx.chain_inputs, &chain.id);
    match &chain.source {
        ChainSource::Request { recipe, trigger } => {
            if !contains_string(&ctx.collection.recipes, recipe) {
                return Err(ChainError::RecipeUnknown { recipe_id: recipe.clone() });
            }
            match input {
                None => Err(ChainError::NoResponse),
                Some(k) => {
                    let inp: &ChainInput = &ctx.chain_inputs[k];
                    match &inp.data {
                        ChainData::Request { history, fresh } => {
                            match resolve_response(
                                recipe,
                                *trigger,
                                history,
                                fresh,
                                ctx.http_engine,
                                ctx.now,
                            ) {
                                Ok(resp) => value_from_bytes(
                                    chain,
                                    &resp.body,
                                    resp.content_type,
                                    &inp.selected,
                                ),
                                Err(e) => Err(e),
                            }
                        },
                        _ => Err(ChainError::NoResponse),
                    }
                },
            }
        },
        ChainSource::File { path } => match input {
            None => Err(ChainError::NoResponse),
            Some(k) => {
                let inp: &ChainInput = &ctx.chain_inputs[k];
                match &inp.data {
                    ChainData::Output { result } => match result {
                        Ok(b) => value_from_bytes(
                            chain,
                            b,
                            content_type_from_extension(path),
                            &inp.selected,
                        ),
                        Err(c) => Err(ChainError::File { path: path.clone(), cause: c.clone() }),
                    },
                    _ => Err(ChainError::NoResponse),
                }
            },
        },
        ChainSource::Command { command } => {
            if command.len() == 0 {
                return Err(ChainError::CommandMissing);
            }
            match input {
                None => Err(ChainError::NoResponse),
                Some(k) => {
                    let inp: &ChainInput = &ctx.chain_inputs[k];
                    match &inp.data {
                        ChainData::Output { result } => match result {
                            Ok(b) => value_from_bytes(chain, b, None, &inp.selected),
                            Err(c) => {
                                let argv = command.clone();
                                proof {
                                    assert(argv.deep_view() =~= command.deep_view());
                                }
                                Err(ChainError::Command { command: argv, cause: c.clone() })
                            },
                        },
                        _ => Err(ChainError::NoResponse),
                    }
                },
            }
        },
        ChainSource::Prompt { .. } => match input {
            None => Err(ChainError::NoResponse),
            Some(k) => {
                let inp: &ChainInput = &ctx.chain_inputs[k];
                match &inp.data {
                    ChainData::Reply { reply } => match reply {
                        Some(t) => {
                            if chain.selector.is_some() {
                                select_value(chain.content_type, &inp.selected)
                            } else {
                                Ok(t.clone())
                            }
                        },
                        None => Err(ChainError::PromptNoResponse),
                    },
                    _ => Err(ChainError::NoResponse),
                }
            },
        },
    }
}

/// Renders a chain key: the chain's value, or its error under the chain's id.
fn render_chain(ctx: &TemplateContext, id: String) -> (r: TemplateChunk)
    ensures
        r@ == chain_spec(*ctx, id@),
{
    match find_chain(&ctx.collection.chains, &id) {
        None => TemplateChunk::Error(
            TemplateError::Chain { chain_id: id, error: ChainError::ChainUnknown },
        ),
        Some(i) => {
            let chain = &ctx.collection.chains[i];
            match chain_value(ctx, chain) {
                Ok(v) => TemplateChunk::Rendered { value: v, sensitive: chain.sensitive },
                Err(e) => TemplateChunk::Error(TemplateError::Chain { chain_id: id, error: e }),
            }
        },
    }
}

impl Template {
    /// Renders a profile field's template, one level deeper.
    fn render_field(ctx: &TemplateContext, name: String, count: &mut u64) -> (r: TemplateChunk)
        requires
            ctx.wf(),
        ensures
            (r@, *final(count) as nat) == field_spec(*ctx, name@, *old(count) as nat),
            *final(count) >= *old(count),
        decreases budget(*old(count) as nat), 0nat, 0nat,
    {
        let pid = match &ctx.selected_profile {
            None => return TemplateChunk::Error(TemplateError::NoProfileSelected),
            Some(p) => p,
        };
        let pi = match find_profile(&ctx.collection.profiles, pid) {
            None => return TemplateChunk::Error(
                TemplateError::ProfileUnknown { profile_id: pid.clone() },
            ),
            Some(i) => i,
        };
        let profile = &ctx.collection.profiles[pi];
        let fi = match find_field(&profile.data, &name) {
            None => return TemplateChunk::Error(TemplateError::FieldUnknown { field: name }),
            Some(i) => i,
        };
        let inner = &profile.data[fi].1;
        proof {
            assert(ctx.collection.profiles@[pi as int].data@[fi as int].1.wf());
        }
        if *count >= RECURSION_LIMIT {
            if *count < u64::MAX {
                *count = *count + 1;
            }
            let limit = TemplateError::RecursionLimit;
            assert(limit@ == TemplateErrorV::RecursionLimit);
            return TemplateChunk::Error(
                TemplateError::Nested { template: inner.template.clone(), error: Box::new(limit) },
            );
        }
        *count = *count + 1;
        match inner.render_stitched(ctx, count) {
            Ok(v) => TemplateChunk::Rendered { value: v, sensitive: false },
            Err(e) => TemplateChunk::Error(
                TemplateError::Nested { template: inner.template.clone(), error: Box::new(e) },
            ),
        }
    }

    /// Renders one chunk: an override for the key's text, else its source.
    fn render_chunk(&self, ctx: &TemplateContext, ch: TemplateInputChunk, count: &mut u64) -> (r:
        TemplateChunk)
        requires
            ctx.wf(),
            span_ok(chunk_span(ch), self.template@.len()),
        ensures
            (r@, *final(count) as nat) == chunk_spec(*ctx, *self, ch, *old(count) as nat),
            *final(count) >= *old(count),
        decreases budget(*old(count) as nat), 1nat, 0nat,
    {
        match ch {
            TemplateInputChunk::Raw(s) => TemplateChunk::Raw(s),
            TemplateInputChunk::Key(k) => {
                let text = self.key_text_of(k);
                match find_pair(&ctx.overrides, &text) {
                    Some(i) => TemplateChunk::Rendered {
                        value: ctx.overrides[i].1.clone(),
                        sensitive: false,
                    },
                    None => match k.into_source(self) {
                        TemplateSource::Field { field } => Template::render_field(
                            ctx,
                            field,
                            count,
                        ),
                        TemplateSource::Chain { chain_id } => render_chain(ctx, chain_id),
                        TemplateSource::Environment { variable } => render_env(ctx, variable),
                    },
                }
            },
        }
    }

    fn render_chunks_counted(&self, ctx: &TemplateContext, count: &mut u64) -> (r: Vec<
        TemplateChunk,
    >)
        requires
            self.wf(),
            ctx.wf(),
        ensures
            (chunk_views(r@), *final(count) as nat) == chunks_spec(
                *ctx,
                *self,
                self.chunks@.len(),
                *old(count) as nat,
            ),
            *final(count) >= *old(count),
        decreases budget(*old(count) as nat), 2nat, self.chunks@.len(),
    {
        let ghost c0 = *old(count) as nat;
        let mut outs: Vec<TemplateChunk> = Vec::new();
        let mut i: usize = 0;
        while i < self.chunks.len()
            invariant
                self.wf(),
                ctx.wf(),
                i <= self.chunks@.len(),
                *count >= c0,
                c0 == *old(count) as nat,
                (chunk_views(outs@), *count as nat) == chunks_spec(*ctx, *self, i as nat, c0),
            decreases self.chunks@.len() - i,
        {
            let ghost prev = outs@;
            let ch = self.chunks[i];
            proof {
                assert(span_ok(chunk_span(self.chunks@[i as int]), self.template@.len()));
            }
            proof {
                assert(budget(*count as nat) <= budget(c0));
            }
            let o = self.render_chunk(ctx, ch, count);
            outs.push(o);
            proof {
                assert(chunk_views(outs@) =~= chunk_views(prev).push(o@));
            }
            i = i + 1;
        }
        outs
    }

    /// Renders each chunk in order: raw chunks as their spans, keys as their
    /// values or errors. Never fails as a whole.
    pub fn render_chunks(&self, ctx: &TemplateContext) -> (r: Vec<TemplateChunk>)
        requires
            self.wf(),
            ctx.wf(),
        ensures
            chunk_views(r@) == render_chunks_spec(*ctx, *self),
            r@.len() == self.chunks@.len(),
    {
        let mut count: u64 = 0;
        let r = self.render_chunks_counted(ctx, &mut count);
        proof {
            lemma_chunks_shape(*ctx, *self, self.chunks@.len(), 0);
            assert(chunk_views(r@).len() == r@.len());
        }
        r
    }

    /// Renders the template at the given recursion counter, failing at the limit,
    /// and stitches the chunks into one string.
    pub fn render_stitched(&self, ctx: &TemplateContext, count: &mut u64) -> (r: Result<
        String,
        TemplateError,
    >)
        requires
            self.wf(),
            ctx.wf(),
        ensures
            (result_view(r), *final(count) as nat) == stitched_spec(*ctx, *self, *old(count) as nat),
            *final(count) >= *old(count),
        decreases budget(*old(count) as nat), 3nat, 0nat,
    {
        if *count >= RECURSION_LIMIT {
            return Err(TemplateError::RecursionLimit);
        }
        let ghost c0 = *count as nat;
        let mut outs = self.render_chunks_counted(ctx, count);
        let ghost all = chunk_views(outs@);
        let ghost c_after = *count;
        proof {
            lemma_chunks_shape(*ctx, *self, self.chunks@.len(), c0);
            assert forall|j: int| 0 <= j < all.len() implies (#[trigger] all[j] matches ChunkV::Raw(
                sp,
            ) ==> span_ok(sp, self.template@.len())) by {
                assert(span_ok(chunk_span(self.chunks@[j]), self.template@.len()));
            }
        }
        let mut buffer = String::new();
        let mut i: usize = 0;
        while i < outs.len()
            invariant
                self.wf(),
                i <= outs@.len(),
                chunk_views(outs@) == all,
                *count == c_after,
                c_after >= *old(count),
                stitched_spec(*ctx, *self, *old(count) as nat) == (stitch_spec(*self, all), c_after as nat),
                all.len() == self.chunks@.len(),
                stitch_spec(*self, all.take(i as int)) == Ok::<Seq<char>, TemplateErrorV>(buffer@),
                forall|j: int| 0 <= j < all.len() ==> (#[trigger] all[j] matches ChunkV::Raw(sp) ==> span_ok(sp, self.template@.len())),
            decreases outs@.len() - i,
        {
            proof {
                assert(all.take(i + 1).drop_last() =~= all.take(i as int));
                assert(all[i as int] == outs@[i as int]@);
                assert(all.take(i + 1).last() == all[i as int]);
            }
            match &outs[i] {
                TemplateChunk::Raw(sp) => {
                    let piece = self.substring(*sp);
                    buffer.append(piece.as_str());
                },
                TemplateChunk::Rendered { value, .. } => {
                    buffer.append(value.as_str());
                },
                TemplateChunk::Error(_) => {
                    let removed = outs.remove(i);
                    proof {
                        lemma_stitch_error_sticks(*self, all, i + 1);
                        assert(all.take(all.len() as int) =~= all);
                    }
                    match removed {
                        TemplateChunk::Error(e) => {
                            return Err(e);
                        },
                        _ => {
                            return Err(TemplateError::RecursionLimit);
                        },
                    }
                },
            }
            i = i + 1;
        }
        proof {
            assert(all.take(i as int) =~= all);
        }
        Ok(buffer)
    }

    /// Renders the template into one string; the first chunk that fails gives
    /// the error.
    pub fn render(&self, ctx: &TemplateContext) -> (r: Result<String, TemplateError>)
        requires
            self.wf(),
            ctx.wf(),
        ensures
            result_view(r) == render_spec(*ctx, *self),
    {
        let mut count: u64 = 0;
        self.render_stitched(ctx, &mut count)
    }

    /// Renders an optional template: `None` stays `None`.
    pub fn render_opt(template: &Option<Template>, ctx: &TemplateContext) -> (r: Result<
        Option<String>,
        TemplateError,
    >)
        requires
            template matches Some(t) ==> t.wf(),
            ctx.wf(),
        ensures
            match template {
                None => r matches Ok(None),
                Some(t) => match (r, render_spec(*ctx, *t)) {
                    (Ok(Some(s)), Ok(v)) => s@ == v,
                    (Err(e), Err(f)) => e@ == f,
                    _ => false,
                },
            },
    {
        match template {
            Some(t) => match t.render(ctx) {
                Ok(s) => Ok(Some(s)),
                Err(e) => Err(e),
            },
            None => Ok(None),
        }
    }
}

/// The character sequences of a list of strings.
pub open spec fn string_views(v: Seq<String>) -> Seq<Seq<char>> {
    v.map_values(|s: String| s@)
}

/// The chain ids that the first `n` chunks of `t` name, at field nesting depth
/// `d`, in order: chain keys without an override, and those of the profile
/// fields that field keys without an override reach, while the depth is under
/// the recursion limit.
pub open spec fn chains_needed(ctx: TemplateContext, t: Template, d: nat, n: nat) -> Seq<Seq<char>>
    decreases budget(d), 2nat, n,
{
    if n == 0 || n > t.chunks@.len() {
        seq![]
    } else {
        chains_needed(ctx, t, d, (n - 1) as nat) + chunk_chains(ctx, t, t.chunks@[n - 1], d)
    }
}

/// The chain ids that one chunk names, at nesting depth `d`.
pub open spec fn chunk_chains(ctx: TemplateContext, t: Template, ch: TemplateInputChunk, d: nat) -> Seq<
    Seq<char>,
>
    decreases budget(d), 1nat, 0nat,
{
    match ch {
        TemplateInputChunk::Raw(_) => seq![],
        TemplateInputChunk::Key(k) => match lookup_pair(ctx.overrides@, t.key_text(k)) {
            Some(_) => seq![],
            None => match k {
                TemplateKey::Field(s) => field_chains(ctx, t.text(s), d),
                TemplateKey::Chain(s) => seq![t.text(s)],
                TemplateKey::Environment(_) => seq![],
            },
        },
    }
}

/// The chain ids that a profile field's template names, one level deeper.
pub open spec fn field_chains(ctx: TemplateContext, name: Seq<char>, d: nat) -> Seq<Seq<char>>
    decreases budget(d), 0nat, 0nat,
{
    match ctx.selected_profile {
        None => seq![],
        Some(pid) => match first_index(ctx.collection.profiles@, profile_has_id(pid@)) {
            None => seq![],
            Some(pi) => {
                let profile = ctx.collection.profiles@[pi];
                match first_index(profile.data@, field_has_name(name)) {
                    None => seq![],
                    Some(fi) => {
                        let inner = profile.data@[fi].1;
                        if d >= RECURSION_LIMIT {
                            seq![]
                        } else {
                            chains_needed(ctx, inner, d + 1, inner.chunks@.len())
                        }
                    },
                }
            },
        },
    }
}

proof fn lemma_views_concat(a: Seq<String>, b: Seq<String>)
    ensures
        string_views(a + b) == string_views(a) + string_views(b),
{
    assert(string_views(a + b) =~= string_views(a) + string_views(b));
}

impl Template {
    fn field_chains_at(ctx: &TemplateContext, name: String, depth: u64) -> (r: Vec<String>)
        requires
            ctx.wf(),
        ensures
            string_views(r@) == field_chains(*ctx, name@, depth as nat),
        decreases budget(depth as nat), 0nat, 0nat,
    {
        let pid = match &ctx.selected_profile {
            None => return Vec::new(),
            Some(p) => p,
        };
        let pi = match find_profile(&ctx.collection.profiles, pid) {
            None => return Vec::new(),
            Some(i) => i,
        };
        let profile = &ctx.collection.profiles[pi];
        let fi = match find_field(&profile.data, &name) {
            None => return Vec::new(),
            Some(i) => i,
        };
        let inner = &profile.data[fi].1;
        proof {
            assert(ctx.collection.profiles@[pi as int].data@[fi as int].1.wf());
        }
        if depth >= RECURSION_LIMIT {
            let r: Vec<String> = Vec::new();
            assert(string_views(r@) =~= Seq::<Seq<char>>::empty());
            return r;
        }
        inner.chains_at(ctx, depth + 1)
    }

    fn chunk_chains_at(&self, ctx: &TemplateContext, ch: TemplateInputChunk, depth: u64) -> (r: Vec<
        String,
    >)
        requires
            ctx.wf(),
            span_ok(chunk_span(ch), self.template@.len()),
        ensures
            string_views(r@) == chunk_chains(*ctx, *self, ch, depth as nat),
        decreases budget(depth as nat), 1nat, 0nat,
    {
        let empty: Vec<String> = Vec::new();
        assert(string_views(empty@) =~= Seq::<Seq<char>>::empty());
        match ch {
            TemplateInputChunk::Raw(_) => empty,
            TemplateInputChunk::Key(k) => {
                let text = self.key_text_of(k);
                match find_pair(&ctx.overrides, &text) {
                    Some(_) => empty,
                    None => match k.into_source(self) {
                        TemplateSource::Field { field } => Template::field_chains_at(
                            ctx,
                            field,
                            depth,
                        ),
                        TemplateSource::Chain { chain_id } => {
                            let mut r = empty;
                            r.push(chain_id);
                            assert(string_views(r@) =~= seq![self.text(key_span(k))]);
                            r
                        },
                        TemplateSource::Environment { .. } => empty,
                    },
                }
            },
        }
    }

    fn chains_at(&self, ctx: &TemplateContext, depth: u64) -> (r: Vec<String>)
        requires
            self.wf(),
            ctx.wf(),
        ensures
            string_views(r@) == chains_needed(*ctx, *self, depth as nat, self.chunks@.len()),
        decreases budget(depth as nat), 2nat, self.chunks@.len(),
    {
        let mut out: Vec<String> = Vec::new();
        let mut i: usize = 0;
        assert(string_views(out@) =~= Seq::<Seq<char>>::empty());
        while i < self.chunks.len()
            invariant
                self.wf(),
                ctx.wf(),
                i <= self.chunks@.len(),
                string_views(out@) == chains_needed(*ctx, *self, depth as nat, i as nat),
            decreases self.chunks@.len() - i,
        {
            let ch = self.chunks[i];
            proof {
                assert(span_ok(chunk_span(self.chunks@[i as int]), self.template@.len()));
            }
            let mut more = self.chunk_chains_at(ctx, ch, depth);
            let ghost before = out@;
            let ghost added = more@;
            out.append(&mut more);
            proof {
                lemma_views_concat(before, added);
            }
            i = i + 1;
        }
        out
    }

    /// The chain ids that rendering this template may read, in order of use:
    /// chain keys without an override, here and in the profile fields that
    /// field keys without an override reach, nested under the recursion limit.
    /// A chain that a render reads is among them; outside data need only be
    /// gathered for these.
    pub fn chains_read(&self, ctx: &TemplateContext) -> (r: Vec<String>)
        requires
            self.wf(),
            ctx.wf(),
        ensures
            string_views(r@) == chains_needed(*ctx, *self, 0, self.chunks@.len()),
    {
        self.chains_at(ctx, 0)
    }
}

} // verus!
