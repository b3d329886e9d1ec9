//! The payload editor's rule: open the editor on the default payload, accept
//! the first text that is valid JSON, and start over from the same default
//! after each invalid one.

use vstd::prelude::*;
use crate::json::{json_valid, pretty_of, pretty_print, reformat_pretty};
use crate::templates::{default_payload_of, PayloadTemplates};
use crate::text::{trim_text, trimmed};

verus! {

/// What came back from one opening of the editor.
pub enum EditorEvent {
    /// The operator confirmed this text.
    Submitted(String),
    /// The editor itself failed, with this message.
    Failed(String),
}

/// What to do after an opening of the editor.
pub enum EditorAction {
    /// The payload is settled: this text, trimmed, not re-serialised.
    Accept(String),
    /// Report `error` and open the editor again on `seed`.
    Reopen { seed: String, error: String },
    /// Report the message and end the process with a failure.
    Abort(String),
}

/// The editor session for one RPC: it holds the text each opening starts from.
pub struct PayloadEditor {
    seed: String,
}

impl View for PayloadEditor {
    type V = Seq<char>;

    closed spec fn view(&self) -> Seq<char> {
        self.seed@
    }
}

impl PayloadEditor {
    /// A session for `rpc`: the editor starts from its default payload,
    /// pretty-printed where it is valid JSON.
    pub fn new(rpc: &str, templates: &PayloadTemplates) -> (r: Self)
        requires
            templates.wf(),
        ensures
            r@ == pretty_of(default_payload_of(templates@, rpc@)),
    {
        let default_text = templates.default_payload(rpc);
        PayloadEditor { seed: pretty_print(default_text.as_str()) }
    }

    /// The text every opening of the editor starts from.
    pub fn seed(&self) -> (r: &String)
        ensures
            r@ == self@,
    {
        &self.seed
    }

    /// The decision after one opening of the editor: a submitted text that is
    /// valid JSON once trimmed is accepted as the trimmed text; any other text
    /// reopens the editor on the same seed; a failing editor aborts.
    pub fn step(&self, event: EditorEvent) -> (r: EditorAction)
        ensures
            match event {
                EditorEvent::Submitted(c) => if json_valid(trimmed(c@)) {
                    r matches EditorAction::Accept(t) && t@ == trimmed(c@)
                } else {
                    r matches EditorAction::Reopen { seed, .. } && seed@ == self@
                },
                EditorEvent::Failed(m) => r matches EditorAction::Abort(a) && a@ == m@,
            },
    {
        match event {
            EditorEvent::Submitted(contents) => {
                let t = trim_text(contents.as_str());
                // Only whether serde_json reads the text matters; the
                // pretty-printed form is not used.
                match reformat_pretty(t.as_str()) {
                    Ok(_) => EditorAction::Accept(t),
                    Err(e) => EditorAction::Reopen { seed: self.seed.clone(), error: e.to_string() },
                }
            },
            EditorEvent::Failed(m) => EditorAction::Abort(m),
        }
    }
}

} // verus!
