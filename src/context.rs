//! The collection, the context of one render, and lookups into them.

use vstd::prelude::*;
use crate::error::TriggeredRequestError;
use crate::template::Template;

verus! {

/// A content type that structured chain values can be parsed as.
#[derive(Clone, Copy, Debug, PartialEq, Eq)]
pub enum ContentType {
    Json,
}

/// When a chain that reads an HTTP response sends its request anew.
#[derive(Clone, Copy, Debug, PartialEq, Eq)]
pub enum ChainRequestTrigger {
    /// Always use the most recent response from history.
    Never,
    /// Use history where it has a response, else send.
    NoHistory,
    /// Use history while its response is younger than this many milliseconds.
    Expire(i64),
    /// Always send.
    Always,
}

/// Where a chain takes its value from.
#[derive(Clone, Debug, PartialEq, Eq)]
pub enum ChainSource {
    Request { recipe: String, trigger: ChainRequestTrigger },
    File { path: String },
    Command { command: Vec<String> },
    Prompt { message: Option<String> },
}

/// A chain definition of the collection.
#[derive(Clone, Debug, PartialEq, Eq)]
pub struct Chain {
    pub id: String,
    pub source: ChainSource,
    pub sensitive: bool,
    pub selector: Option<String>,
    pub content_type: Option<ContentType>,
}

/// A profile: an id, an optional display name, and its fields' templates.
#[derive(Clone, Debug)]
pub struct Profile {
    pub id: String,
    pub name: Option<String>,
    pub data: Vec<(String, Template)>,
}

/// What templates are rendered against: profiles, chains and recipe ids.
#[derive(Clone, Debug)]
pub struct Collection {
    pub profiles: Vec<Profile>,
    pub chains: Vec<Chain>,
    pub recipes: Vec<String>,
}

/// An HTTP response, reduced to what a chain reads of it.
#[derive(Clone, Debug, PartialEq, Eq)]
pub struct Response {
    pub body: Vec<u8>,
    /// The content type recognised from the response's header, if any.
    pub content_type: Option<ContentType>,
}

/// A stored exchange: when it ended, in milliseconds since the epoch, and its
/// response.
#[derive(Clone, Debug, PartialEq, Eq)]
pub struct RequestRecord {
    pub end_time: i64,
    pub response: Response,
}

/// What the outside world gave for one chain's source.
#[derive(Debug)]
pub enum ChainData {
    /// For a request chain: the last record of history for the selected profile
    /// and the recipe (or the database's failure), and the outcome of building
    /// the request anew and then, where an engine is configured, sending it.
    Request {
        history: Result<Option<RequestRecord>, String>,
        fresh: Result<Response, TriggeredRequestError>,
    },
    /// For a file or a command: the bytes read or printed, or why that failed.
    Output { result: Result<Vec<u8>, String> },
    /// For a prompt: the reply, or `None` where the prompt was dropped.
    Reply { reply: Option<String> },
}

/// Why the content selector gave no value.
#[derive(Clone, Debug, PartialEq, Eq)]
pub enum SelectFailure {
    /// The value could not be parsed as its content type.
    Parse { cause: String },
    /// The selector failed on the parsed value.
    Query { cause: String },
}

/// One chain's outside data, with what the content selector gave on it.
#[derive(Debug)]
pub struct ChainInput {
    pub chain_id: String,
    pub data: ChainData,
    /// The selector's result on the value, parsed as its resolved content type;
    /// read only where the chain has a selector and a content type.
    pub selected: Result<String, SelectFailure>,
}

/// Everything that one top-level render reads.
#[derive(Debug)]
pub struct TemplateContext {
    pub collection: Collection,
    pub selected_profile: Option<String>,
    /// Values keyed by a key's text as written in the source.
    pub overrides: Vec<(String, String)>,
    /// Whether an HTTP engine is configured, so that requests may be sent.
    pub http_engine: bool,
    /// The current time, in milliseconds since the epoch.
    pub now: i64,
    /// The process environment: each variable that is set, with its value, or
    /// `None` where the value is not valid UTF-8.
    pub env: Vec<(String, Option<String>)>,
    pub chain_inputs: Vec<ChainInput>,
}

/// The first position of `s` whose element satisfies `p`.
pub open spec fn first_index<T>(s: Seq<T>, p: spec_fn(T) -> bool) -> Option<int>
    decreases s.len(),
{
    if s.len() == 0 {
        None
    } else if p(s[0]) {
        Some(0)
    } else {
        match first_index(s.drop_first(), p) {
            Some(i) => Some(i + 1),
            None => None,
        }
    }
}

/// `first_index` is the least position that satisfies the predicate.
pub proof fn lemma_first_index<T>(s: Seq<T>, p: spec_fn(T) -> bool)
    ensures
        match first_index(s, p) {
            Some(i) => 0 <= i < s.len() && p(s[i]) && forall|j: int| 0 <= j < i ==> !p(#[trigger] s[j]),
            None => forall|j: int| 0 <= j < s.len() ==> !p(#[trigger] s[j]),
        },
    decreases s.len(),
{
    if s.len() > 0 && !p(s[0]) {
        lemma_first_index(s.drop_first(), p);
        assert forall|j: int| 1 <= j < s.len() implies s[j] == s.drop_first()[j - 1] by {}
        match first_index(s.drop_first(), p) {
            Some(i) => {
                assert forall|j: int| 0 <= j < i + 1 implies !p(#[trigger] s[j]) by {
                    if j > 0 {
                        assert(s[j] == s.drop_first()[j - 1]);
                    }
                }
            },
            None => {
                assert forall|j: int| 0 <= j < s.len() implies !p(#[trigger] s[j]) by {
                    if j > 0 {
                        assert(s[j] == s.drop_first()[j - 1]);
                    }
                }
            },
        }
    }
}

/// The only position that is least among those satisfying `p` is `first_index`.
pub proof fn lemma_first_index_at<T>(s: Seq<T>, p: spec_fn(T) -> bool, i: int)
    requires
        0 <= i <= s.len(),
        i < s.len() ==> p(s[i]),
        forall|j: int| 0 <= j < i ==> !p(#[trigger] s[j]),
    ensures
        first_index(s, p) == (if i < s.len() { Some(i) } else { None::<int> }),
{
    lemma_first_index(s, p);
}

pub open spec fn profile_has_id(id: Seq<char>) -> spec_fn(Profile) -> bool {
    |p: Profile| p.id@ == id
}

pub open spec fn field_has_name(name: Seq<char>) -> spec_fn((String, Template)) -> bool {
    |f: (String, Template)| f.0@ == name
}

pub open spec fn chain_has_id(id: Seq<char>) -> spec_fn(Chain) -> bool {
    |c: Chain| c.id@ == id
}

pub open spec fn input_has_id(id: Seq<char>) -> spec_fn(ChainInput) -> bool {
    |c: ChainInput| c.chain_id@ == id
}

pub open spec fn pair_has_key(key: Seq<char>) -> spec_fn((String, String)) -> bool {
    |e: (String, String)| e.0@ == key
}

pub open spec fn env_has_name(name: Seq<char>) -> spec_fn((String, Option<String>)) -> bool {
    |e: (String, Option<String>)| e.0@ == name
}

pub open spec fn string_is(value: Seq<char>) -> spec_fn(String) -> bool {
    |s: String| s@ == value
}

/// The value of the first pair whose key is `key`.
pub open spec fn lookup_pair(pairs: Seq<(String, String)>, key: Seq<char>) -> Option<Seq<char>> {
    match first_index(pairs, pair_has_key(key)) {
        Some(i) => Some(pairs[i].1@),
        None => None,
    }
}

/// The position of the first pair whose key is `key`.
pub fn find_pair(pairs: &Vec<(String, String)>, key: &String) -> (r: Option<usize>)
    ensures
        r matches Some(i) ==> i < pairs@.len(),
        first_index(pairs@, pair_has_key(key@)) == match r {
            Some(i) => Some(i as int),
            None => None::<int>,
        },
{
    let mut i: usize = 0;
    while i < pairs.len()
        invariant
            i <= pairs@.len(),
            forall|j: int| 0 <= j < i ==> !pair_has_key(key@)(#[trigger] pairs@[j]),
        decreases pairs@.len() - i,
    {
        if pairs[i].0 == *key {
            proof {
                lemma_first_index_at(pairs@, pair_has_key(key@), i as int);
            }
            return Some(i);
        }
        i = i + 1;
    }
    proof {
        lemma_first_index_at(pairs@, pair_has_key(key@), i as int);
    }
    None
}

/// The position of the first environment entry with this name.
pub fn find_env(env: &Vec<(String, Option<String>)>, name: &String) -> (r: Option<usize>)
    ensures
        r matches Some(i) ==> i < env@.len(),
        first_index(env@, env_has_name(name@)) == match r {
            Some(i) => Some(i as int),
            None => None::<int>,
        },
{
    let mut i: usize = 0;
    while i < env.len()
        invariant
            i <= env@.len(),
            forall|j: int| 0 <= j < i ==> !env_has_name(name@)(#[trigger] env@[j]),
        decreases env@.len() - i,
    {
        if env[i].0 == *name {
            proof {
                lemma_first_index_at(env@, env_has_name(name@), i as int);
            }
            return Some(i);
        }
        i = i + 1;
    }
    proof {
        lemma_first_index_at(env@, env_has_name(name@), i as int);
    }
    None
}

/// The position of the first profile with this id.
pub fn find_profile(profiles: &Vec<Profile>, id: &String) -> (r: Option<usize>)
    ensures
        r matches Some(i) ==> i < profiles@.len(),
        first_index(profiles@, profile_has_id(id@)) == match r {
            Some(i) => Some(i as int),
            None => None::<int>,
        },
{
    let mut i: usize = 0;
    while i < profiles.len()
        invariant
            i <= profiles@.len(),
            forall|j: int| 0 <= j < i ==> !profile_has_id(id@)(#[trigger] profiles@[j]),
        decreases profiles@.len() - i,
    {
        if profiles[i].id == *id {
            proof {
                lemma_first_index_at(profiles@, profile_has_id(id@), i as int);
            }
            return Some(i);
        }
        i = i + 1;
    }
    proof {
        lemma_first_index_at(profiles@, profile_has_id(id@), i as int);
    }
    None
}

/// The position of the first field of a profile with this name.
pub fn find_field(data: &Vec<(String, Template)>, name: &String) -> (r: Option<usize>)
    ensures
        r matches Some(i) ==> i < data@.len(),
        first_index(data@, field_has_name(name@)) == match r {
            Some(i) => Some(i as int),
            None => None::<int>,
        },
{
    let mut i: usize = 0;
    while i < data.len()
        invariant
            i <= data@.len(),
            forall|j: int| 0 <= j < i ==> !field_has_name(name@)(#[trigger] data@[j]),
        decreases data@.len() - i,
    {
        if data[i].0 == *name {
            proof {
                lemma_first_index_at(data@, field_has_name(name@), i as int);
            }
            return Some(i);
        }
        i = i + 1;
    }
    proof {
        lemma_first_index_at(data@, field_has_name(name@), i as int);
    }
    None
}

/// The position of the first chain with this id.
pub fn find_chain(chains: &Vec<Chain>, id: &String) -> (r: Option<usize>)
    ensures
        r matches Some(i) ==> i < chains@.len(),
        first_index(chains@, chain_has_id(id@)) == match r {
            Some(i) => Some(i as int),
            None => None::<int>,
        },
{
    let mut i: usize = 0;
    while i < chains.len()
        invariant
            i <= chains@.len(),
            forall|j: int| 0 <= j < i ==> !chain_has_id(id@)(#[trigger] chains@[j]),
        decreases chains@.len() - i,
    {
        if chains[i].id == *id {
            proof {
                lemma_first_index_at(chains@, chain_has_id(id@), i as int);
            }
            return Some(i);
        }
        i = i + 1;
    }
    proof {
        lemma_first_index_at(chains@, chain_has_id(id@), i as int);
    }
    None
}

/// The position of the first chain input for this chain id.
pub fn find_input(inputs: &Vec<ChainInput>, id: &String) -> (r: Option<usize>)
    ensures
        r matches Some(i) ==> i < inputs@.len(),
        first_index(inputs@, input_has_id(id@)) == match r {
            Some(i) => Some(i as int),
            None => None::<int>,
        },
{
    let mut i: usize = 0;
    while i < inputs.len()
        invariant
            i <= inputs@.len(),
            forall|j: int| 0 <= j < i ==> !input_has_id(id@)(#[trigger] inputs@[j]),
        decreases inputs@.len() - i,
    {
        if inputs[i].chain_id == *id {
            proof {
                lemma_first_index_at(inputs@, input_has_id(id@), i as int);
            }
            return Some(i);
        }
        i = i + 1;
    }
    proof {
        lemma_first_index_at(inputs@, input_has_id(id@), i as int);
    }
    None
}

/// Whether a string equal to `value` is in `items`.
pub fn contains_string(items: &Vec<String>, value: &String) -> (r: bool)
    ensures
        r == (first_index(items@, string_is(value@)) is Some),
{
    let mut i: usize = 0;
    while i < items.len()
        invariant
            i <= items@.len(),
            forall|j: int| 0 <= j < i ==> !string_is(value@)(#[trigger] items@[j]),
        decreases items@.len() - i,
    {
        if items[i] == *value {
            proof {
                lemma_first_index_at(items@, string_is(value@), i as int);
            }
            return true;
        }
        i = i + 1;
    }
    proof {
        lemma_first_index_at(items@, string_is(value@), i as int);
    }
    false
}

impl TemplateContext {
    /// Every template of every profile is well formed.
    pub open spec fn wf(&self) -> bool {
        forall|i: int, j: int|
            0 <= i < self.collection.profiles@.len() && 0 <= j
                < self.collection.profiles@[i].data@.len() ==> (
            #[trigger] self.collection.profiles@[i].data@[j]).1.wf()
    }
}

impl TemplateContext {
    /// Whether every template of every profile is well formed.
    pub fn is_valid(&self) -> (r: bool)
        ensures
            r == self.wf(),
    {
        let profiles = &self.collection.profiles;
        let mut i: usize = 0;
        while i < profiles.len()
            invariant
                profiles == &self.collection.profiles,
                i <= profiles@.len(),
                forall|a: int, b: int|
                    0 <= a < i && 0 <= b < profiles@[a].data@.len() ==> (
                    #[trigger] profiles@[a].data@[b]).1.wf(),
            decreases profiles@.len() - i,
        {
            let data = &profiles[i].data;
            let mut j: usize = 0;
            while j < data.len()
                invariant
                    profiles == &self.collection.profiles,
                    i < profiles@.len(),
                    data == &profiles@[i as int].data,
                    j <= data@.len(),
                    forall|a: int, b: int|
                        0 <= a < i && 0 <= b < profiles@[a].data@.len() ==> (
                        #[trigger] profiles@[a].data@[b]).1.wf(),
                    forall|b: int| 0 <= b < j ==> (#[trigger] data@[b]).1.wf(),
                decreases data@.len() - j,
            {
                if !data[j].1.is_valid() {
                    assert(!profiles@[i as int].data@[j as int].1.wf());
                    return false;
                }
                j = j + 1;
            }
            assert forall|a: int, b: int|
                0 <= a < i + 1 && 0 <= b < profiles@[a].data@.len() implies (
                #[trigger] profiles@[a].data@[b]).1.wf() by {
                if a == i {
                    assert(data@[b] == profiles@[a].data@[b]);
                }
            }
            i = i + 1;
        }
        true
    }
}

} // verus!
