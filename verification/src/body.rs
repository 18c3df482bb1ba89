use vstd::prelude::*;
use crate::chars::{blank, is_blank};
use crate::text_buffer::{TextBuffer, erased, typed};

verus! {

/// Whether `serde_json::from_str::<serde_json::Value>` accepts `text` as a
/// JSON document.
pub uninterp spec fn json_accepts(text: Seq<char>) -> bool;

/// `serde_json::from_str::<serde_json::Value>`: whether it parses `text`
/// without error. The contract names the outcome `json_accepts(text@)` and
/// says nothing of which texts those are.
#[verifier::external_body]
fn parses_as_json(text: &str) -> (ok: bool)
    ensures
        ok == json_accepts(text@),
{
    serde_json::from_str::<serde_json::Value>(text).is_ok()
}

/// A request body is acceptable when it is blank or a JSON document.
pub open spec fn body_acceptable(text: Seq<char>) -> bool {
    is_blank(text) || json_accepts(text)
}

/// The request body editor: its text and whether that text is acceptable.
pub struct BodyManager {
    pub buffer: TextBuffer,
    pub is_valid: bool,
}

impl BodyManager {
    /// An empty body, which is acceptable.
    pub fn new() -> (m: Self)
        ensures
            m.buffer@ == (Seq::<char>::empty(), 0nat),
            m.is_valid,
    {
        BodyManager { buffer: TextBuffer::new(), is_valid: true }
    }

    /// Types `c` into the body and checks it again.
    pub fn update(&mut self, c: char)
        ensures
            final(self).buffer@ == typed(old(self).buffer@, c),
            final(self).is_valid == body_acceptable(final(self).buffer@.0),
    {
        self.buffer.insert(c);
        self.validate();
    }

    /// Backspace in the body, then checks it again.
    pub fn pop(&mut self)
        ensures
            final(self).buffer@ == erased(old(self).buffer@),
            final(self).is_valid == body_acceptable(final(self).buffer@.0),
    {
        self.buffer.delete();
        self.validate();
    }

    /// Records whether the body is acceptable; a blank body is, without
    /// asking the JSON parser.
    pub fn validate(&mut self)
        ensures
            final(self).buffer == old(self).buffer,
            final(self).is_valid == body_acceptable(old(self).buffer@.0),
    {
        if blank(self.buffer.content.as_str()) {
            self.is_valid = true;
            return;
        }
        let parsed = parses_as_json(self.buffer.content.as_str());
        self.is_valid = Self::acceptable(self.buffer.content.as_str(), parsed);
    }

    /// Whether a body text is acceptable, given whether the JSON parser
    /// accepted it.
    pub fn acceptable(text: &str, parsed: bool) -> (ok: bool)
        ensures
            ok == (is_blank(text@) || parsed),
    {
        blank(text) || parsed
    }
}

} // verus!
