//! The template store: a default JSON payload for each RPC name.

use vstd::prelude::*;
use crate::json::{json_object_entries, parse_object_entries};

verus! {

/// The default payload for `rpc` under the templates `m`: its template's text,
/// or an empty object where it has none.
pub open spec fn default_payload_of(m: Map<Seq<char>, Seq<char>>, rpc: Seq<char>) -> Seq<char> {
    if m.contains_key(rpc) {
        m[rpc]
    } else {
        "{}"@
    }
}

/// Default JSON payloads by RPC name, each held as the JSON text of its value.
pub struct PayloadTemplates {
    entries: Vec<(String, String)>,
    model: Ghost<Map<Seq<char>, Seq<char>>>,
}

/// Why a template file was refused.
#[derive(Debug)]
pub enum TemplateError {
    /// The text is not a JSON object; the message is the parser's.
    InvalidJson(String),
}

impl View for PayloadTemplates {
    type V = Map<Seq<char>, Seq<char>>;

    closed spec fn view(&self) -> Map<Seq<char>, Seq<char>> {
        self.model@
    }
}

impl PayloadTemplates {
    /// Every entry is in the model with its text, and every name of the model
    /// has an entry.
    pub closed spec fn wf(&self) -> bool {
        &&& forall|i: int|
            0 <= i < self.entries@.len() ==> self.model@.contains_key(
                #[trigger] self.entries@[i].0@,
            ) && self.model@[self.entries@[i].0@] == self.entries@[i].1@
        &&& forall|k: Seq<char>|
            self.model@.contains_key(k) ==> exists|i: int|
                0 <= i < self.entries@.len() && #[trigger] self.entries@[i].0@ == k
    }

    /// A store with no template.
    pub fn new() -> (r: Self)
        ensures
            r.wf(),
            r@ == Map::<Seq<char>, Seq<char>>::empty(),
    {
        PayloadTemplates { entries: Vec::new(), model: Ghost(Map::empty()) }
    }

    /// The template text for `rpc`, if it has one.
    pub fn lookup(&self, rpc: &str) -> (r: Option<&String>)
        requires
            self.wf(),
        ensures
            r is None <==> !self@.contains_key(rpc@),
            r matches Some(t) ==> t@ == self@[rpc@],
    {
        let key = String::from_str(rpc);
        let n = self.entries.len();
        let mut i: usize = 0;
        while i < n
            invariant
                self.wf(),
                key@ == rpc@,
                n == self.entries@.len(),
                i <= n,
                forall|j: int| 0 <= j < i ==> self.entries@[j].0@ != rpc@,
            decreases n - i,
        {
            if self.entries[i].0 == key {
                return Some(&self.entries[i].1);
            }
            i += 1;
        }
        None
    }

    /// The text the editor starts from for `rpc`: its template, or `{}`.
    pub fn default_payload(&self, rpc: &str) -> (r: String)
        requires
            self.wf(),
        ensures
            r@ == default_payload_of(self@, rpc@),
    {
        match self.lookup(rpc) {
            Some(t) => t.clone(),
            None => String::from_str("{}"),
        }
    }
}

/// Reads the template file's text: a JSON object from RPC names to default
/// payloads. Anything else is refused.
pub fn load_payload_templates(text: &str) -> (r: Result<PayloadTemplates, TemplateError>)
    ensures
        r is Ok <==> json_object_entries(text@) is Some,
        r matches Ok(t) ==> t.wf() && t@ == json_object_entries(text@)->0,
{
    match parse_object_entries(text) {
        Ok(entries) => {
            let ghost m = json_object_entries(text@)->0;
            let ghost es = entries@;
            let t = PayloadTemplates { entries, model: Ghost(m) };
            assert(forall|i: int|
                0 <= i < es.len() ==> m.contains_key(#[trigger] es[i].0@));
            assert(t.entries@ == es);
            assert(t.wf());
            Ok(t)
        },
        Err(e) => Err(TemplateError::InvalidJson(e.to_string())),
    }
}

} // verus!
