//! Parsed templates: the source string and its chunks.

use vstd::prelude::*;
use vstd::string::StringExecFns;
use vstd::string::StrSliceExecFns;

verus! {

/// A half-open range of character positions in a template's source.
#[derive(Clone, Copy, Debug, PartialEq, Eq)]
pub struct Span {
    pub start: usize,
    pub end: usize,
}

/// A key as parsed: the span of its identifier, tagged by what it refers to.
#[derive(Clone, Copy, Debug, PartialEq, Eq)]
pub enum TemplateKey {
    /// `{{name}}`: a field of the selected profile.
    Field(Span),
    /// `{{chains.id}}`: a chain of the collection.
    Chain(Span),
    /// `{{env.NAME}}`: a variable of the process environment.
    Environment(Span),
}

/// One parsed chunk of a template.
#[derive(Clone, Copy, Debug, PartialEq, Eq)]
pub enum TemplateInputChunk {
    Raw(Span),
    Key(TemplateKey),
}

/// A key resolved to the source that renders it, holding the key's identifier.
#[derive(Clone, Debug, PartialEq, Eq)]
pub enum TemplateSource {
    Field { field: String },
    Chain { chain_id: String },
    Environment { variable: String },
}

/// A parsed template: the source string and its chunks in order.
#[derive(Clone, Debug)]
pub struct Template {
    pub template: String,
    pub chunks: Vec<TemplateInputChunk>,
}

pub open spec fn span_ok(s: Span, len: nat) -> bool {
    s.start <= s.end && s.end <= len
}

pub open spec fn key_span(k: TemplateKey) -> Span {
    match k {
        TemplateKey::Field(s) => s,
        TemplateKey::Chain(s) => s,
        TemplateKey::Environment(s) => s,
    }
}

pub open spec fn chunk_span(c: TemplateInputChunk) -> Span {
    match c {
        TemplateInputChunk::Raw(s) => s,
        TemplateInputChunk::Key(k) => key_span(k),
    }
}

/// The prefix that a chain key carries in its source text.
pub open spec fn chain_prefix() -> Seq<char> {
    seq!['c', 'h', 'a', 'i', 'n', 's', '.']
}

/// The prefix that an environment key carries in its source text.
pub open spec fn env_prefix() -> Seq<char> {
    seq!['e', 'n', 'v', '.']
}

impl Template {
    /// Every span lies inside the source, and the spans come in source order
    /// without overlap. (A key chunk's span covers its identifier alone, so the
    /// braces and prefixes around it fall between spans.)
    pub open spec fn wf(&self) -> bool {
        &&& forall|i: int|
            0 <= i < self.chunks@.len() ==> span_ok(#[trigger] chunk_span(self.chunks@[i]), self.template@.len())
        &&& forall|i: int|
            0 <= i < self.chunks@.len() - 1 ==> (#[trigger] chunk_span(self.chunks@[i])).end <= chunk_span(
                self.chunks@[i + 1],
            ).start
    }

    /// The characters that a span covers.
    pub open spec fn text(&self, s: Span) -> Seq<char> {
        self.template@.subrange(s.start as int, s.end as int)
    }

    /// The identifier that a key names.
    pub open spec fn key_name(&self, k: TemplateKey) -> Seq<char> {
        self.text(key_span(k))
    }

    /// A key as it was written in the source, without its braces.
    pub open spec fn key_text(&self, k: TemplateKey) -> Seq<char> {
        match k {
            TemplateKey::Field(s) => self.text(s),
            TemplateKey::Chain(s) => chain_prefix() + self.text(s),
            TemplateKey::Environment(s) => env_prefix() + self.text(s),
        }
    }

    /// Builds a template from its source and chunks; `None` where a span leaves
    /// the source.
    pub fn new(template: String, chunks: Vec<TemplateInputChunk>) -> (r: Option<Template>)
        ensures
            r is Some <==> (Template { template, chunks }).wf(),
            r matches Some(t) ==> t.template@ == template@ && t.chunks@ == chunks@,
    {
        let t = Template { template, chunks };
        if t.is_valid() {
            Some(t)
        } else {
            None
        }
    }

    /// Whether every span lies inside the source.
    pub fn is_valid(&self) -> (r: bool)
        ensures
            r == self.wf(),
    {
        let len = self.template.as_str().unicode_len();
        let mut prev_end: usize = 0;
        let mut i: usize = 0;
        while i < self.chunks.len()
            invariant
                len == self.template@.len(),
                i <= self.chunks@.len(),
                forall|j: int| 0 <= j < i ==> span_ok(#[trigger] chunk_span(self.chunks@[j]), self.template@.len()),
                forall|j: int| 0 <= j < i - 1 ==> (#[trigger] chunk_span(self.chunks@[j])).end <= chunk_span(
                    self.chunks@[j + 1],
                ).start,
                i > 0 ==> prev_end == chunk_span(self.chunks@[i - 1]).end,
            decreases self.chunks@.len() - i,
        {
            let s = match self.chunks[i] {
                TemplateInputChunk::Raw(s) => s,
                TemplateInputChunk::Key(TemplateKey::Field(s)) => s,
                TemplateInputChunk::Key(TemplateKey::Chain(s)) => s,
                TemplateInputChunk::Key(TemplateKey::Environment(s)) => s,
            };
            if !(s.start <= s.end && s.end <= len) {
                assert(!span_ok(chunk_span(self.chunks@[i as int]), self.template@.len()));
                return false;
            }
            if i > 0 && s.start < prev_end {
                assert(chunk_span(self.chunks@[i - 1]).end > chunk_span(self.chunks@[(i - 1) + 1]).start);
                return false;
            }
            prev_end = s.end;
            i = i + 1;
        }
        true
    }

    /// A template of raw text alone: one raw chunk, or none for empty text.
    pub fn raw(template: String) -> (r: Template)
        ensures
            r.wf(),
            r.template@ == template@,
            forall|i: int| 0 <= i < r.chunks@.len() ==> r.chunks@[i] is Raw,
            r.chunks@.len() == if template@.len() == 0 { 0int } else { 1int },
            r.chunks@.len() == 1 ==> r.chunks@[0] == TemplateInputChunk::Raw(
                Span { start: 0, end: template@.len() as usize },
            ),
    {
        let len = template.as_str().unicode_len();
        let mut chunks: Vec<TemplateInputChunk> = Vec::new();
        if len > 0 {
            chunks.push(TemplateInputChunk::Raw(Span { start: 0, end: len }));
        }
        Template { template, chunks }
    }

    /// The number of characters of the source.
    pub fn len(&self) -> (r: usize)
        ensures
            r == self.template@.len(),
    {
        self.template.as_str().unicode_len()
    }

    /// The characters that a span covers, as an owned string.
    pub fn substring(&self, s: Span) -> (r: String)
        requires
            span_ok(s, self.template@.len()),
        ensures
            r@ == self.text(s),
    {
        String::from_str(self.template.as_str().substring_char(s.start, s.end))
    }

    /// The key as written in the source, without its braces: the form that
    /// overrides are matched against.
    pub fn key_text_of(&self, k: TemplateKey) -> (r: String)
        requires
            span_ok(key_span(k), self.template@.len()),
        ensures
            r@ == self.key_text(k),
    {
        match k {
            TemplateKey::Field(s) => self.substring(s),
            TemplateKey::Chain(s) => {
                let mut r = String::from_str("chains.");
                let name = self.substring(s);
                r.append(name.as_str());
                proof {
                    reveal_strlit("chains.");
                }
                r
            },
            TemplateKey::Environment(s) => {
                let mut r = String::from_str("env.");
                let name = self.substring(s);
                r.append(name.as_str());
                proof {
                    reveal_strlit("env.");
                }
                r
            },
        }
    }
}

impl TemplateKey {
    /// Turns the key into the source that renders it, with the identifier
    /// taken out of the template.
    pub fn into_source(self, template: &Template) -> (r: TemplateSource)
        requires
            span_ok(key_span(self), template.template@.len()),
        ensures
            match (self, r) {
                (TemplateKey::Field(s), TemplateSource::Field { field }) => field@ == template.text(s),
                (TemplateKey::Chain(s), TemplateSource::Chain { chain_id }) => chain_id@ == template.text(s),
                (TemplateKey::Environment(s), TemplateSource::Environment { variable }) => variable@
                    == template.text(s),
                _ => false,
            },
    {
        match self {
            TemplateKey::Field(s) => TemplateSource::Field { field: template.substring(s) },
            TemplateKey::Chain(s) => TemplateSource::Chain { chain_id: template.substring(s) },
            TemplateKey::Environment(s) => TemplateSource::Environment {
                variable: template.substring(s),
            },
        }
    }
}

} // verus!
