//! Writing a signal as a frame.

use vstd::prelude::*;
use crate::error::{lemma_parts_round_trip, ErrorView};
use crate::signal::deserialize::{decoded, signal_of};
use crate::signal::frame::{
    copy_texts, frame_text, lookup, lookup_from, parsed, Entries, Field, FieldView, Frame,
};
use crate::signal::{Signal, SignalView};
use crate::text::owned;

verus! {

/// An entry that holds a string.
pub open spec fn text_entry(key: Seq<char>, text: Seq<char>) -> (Seq<char>, FieldView) {
    (key, FieldView::Text(text))
}

/// The frame of a signal: the discriminator under `type`, then the fields of
/// the variant under their names. No field is ever left out.
pub open spec fn frame_of(signal: SignalView) -> Entries {
    match signal {
        SignalView::Offer(message) => seq![
            text_entry("type"@, "offer"@),
            text_entry("name"@, message.name),
            text_entry("target"@, message.target),
            text_entry("sdp"@, message.sdp),
        ],
        SignalView::Answer(message) => seq![
            text_entry("type"@, "answer"@),
            text_entry("name"@, message.name),
            text_entry("target"@, message.target),
            text_entry("sdp"@, message.sdp),
        ],
        SignalView::NewIceCandidate(candidate) => seq![
            text_entry("type"@, "new_ice_candidate"@),
            text_entry("target"@, candidate.target),
            text_entry("candidate"@, candidate.candidate),
            text_entry("name"@, candidate.name),
        ],
        SignalView::Assign(name) => seq![
            text_entry("type"@, "assign"@),
            text_entry("name"@, name),
        ],
        SignalView::Error(error) => seq![
            text_entry("type"@, "error"@),
            text_entry("kind"@, error.kind()),
            text_entry("detail"@, error.detail()),
        ],
        SignalView::ConnectedList(names) => seq![
            text_entry("type"@, "connected_list"@),
            ("names"@, FieldView::List(names)),
        ],
    }
}

/// The text frame of a signal: the JSON text of its frame.
pub open spec fn encoded(signal: SignalView) -> Seq<char> {
    frame_text(frame_of(signal))
}

/// An entry that holds a copy of `text`.
fn entry(key: &str, text: &str) -> (r: (String, Field))
    ensures
        (r.0@, r.1@) == text_entry(key@, text@),
{
    (owned(key), Field::Text(owned(text)))
}

impl Signal {
    /// The frame of the signal.
    pub fn to_frame(&self) -> (frame: Frame)
        ensures
            frame@ == frame_of(self@),
    {
        let mut entries: Vec<(String, Field)> = Vec::new();
        match self {
            Signal::Offer(message) => {
                entries.push(entry("type", "offer"));
                entries.push(entry("name", message.name.as_str()));
                entries.push(entry("target", message.target.as_str()));
                entries.push(entry("sdp", message.sdp.as_str()));
            },
            Signal::Answer(message) => {
                entries.push(entry("type", "answer"));
                entries.push(entry("name", message.name.as_str()));
                entries.push(entry("target", message.target.as_str()));
                entries.push(entry("sdp", message.sdp.as_str()));
            },
            Signal::NewIceCandidate(candidate) => {
                entries.push(entry("type", "new_ice_candidate"));
                entries.push(entry("target", candidate.target.as_str()));
                entries.push(entry("candidate", candidate.candidate.as_str()));
                entries.push(entry("name", candidate.name.as_str()));
            },
            Signal::Assign(assigned) => {
                entries.push(entry("type", "assign"));
                entries.push(entry("name", assigned.name.as_str()));
            },
            Signal::Error(error) => {
                let detail = error.detail();
                entries.push(entry("type", "error"));
                entries.push(entry("kind", error.kind()));
                entries.push(entry("detail", detail.as_str()));
            },
            Signal::ConnectedList(names) => {
                entries.push(entry("type", "connected_list"));
                entries.push((owned("names"), Field::List(copy_texts(names))));
            },
        }
        let frame = Frame { entries };
        frame
    }

    /// The text frame of the signal.
    pub fn serialize(&self) -> (text: String)
        ensures
            text@ == encoded(self@),
    {
        self.to_frame().print()
    }
}

/// The keys that stand side by side in a frame are pairwise different
/// words, and so are the six discriminators.
pub proof fn lemma_words_differ()
    ensures
        "type"@ != "name"@,
        "type"@ != "target"@,
        "type"@ != "sdp"@,
        "type"@ != "candidate"@,
        "type"@ != "kind"@,
        "type"@ != "detail"@,
        "type"@ != "names"@,
        "name"@ != "target"@,
        "name"@ != "sdp"@,
        "name"@ != "candidate"@,
        "target"@ != "sdp"@,
        "target"@ != "candidate"@,
        "kind"@ != "detail"@,
        "offer"@ != "answer"@,
        "offer"@ != "new_ice_candidate"@,
        "offer"@ != "assign"@,
        "offer"@ != "error"@,
        "offer"@ != "connected_list"@,
        "answer"@ != "new_ice_candidate"@,
        "answer"@ != "assign"@,
        "answer"@ != "error"@,
        "answer"@ != "connected_list"@,
        "new_ice_candidate"@ != "assign"@,
        "new_ice_candidate"@ != "error"@,
        "new_ice_candidate"@ != "connected_list"@,
        "assign"@ != "error"@,
        "assign"@ != "connected_list"@,
        "error"@ != "connected_list"@,
{
    reveal_strlit("type");
    reveal_strlit("name");
    reveal_strlit("target");
    reveal_strlit("sdp");
    reveal_strlit("candidate");
    reveal_strlit("kind");
    reveal_strlit("detail");
    reveal_strlit("names");
    reveal_strlit("offer");
    reveal_strlit("answer");
    reveal_strlit("new_ice_candidate");
    reveal_strlit("assign");
    reveal_strlit("error");
    reveal_strlit("connected_list");
    assert("type"@.len() == 4 && "type"@[0] == 't');
    assert("name"@.len() == 4 && "name"@[0] == 'n');
    assert("kind"@.len() == 4 && "kind"@[0] == 'k');
    assert("target"@.len() == 6 && "target"@[0] == 't');
    assert("detail"@.len() == 6 && "detail"@[0] == 'd');
    assert("sdp"@.len() == 3);
    assert("candidate"@.len() == 9);
    assert("names"@.len() == 5);
    assert("offer"@.len() == 5 && "offer"@[0] == 'o');
    assert("error"@.len() == 5 && "error"@[0] == 'e');
    assert("answer"@.len() == 6 && "answer"@[1] == 'n');
    assert("assign"@.len() == 6 && "assign"@[1] == 's');
    assert("new_ice_candidate"@.len() == 17);
    assert("connected_list"@.len() == 14);
}

/// Decoding inverts encoding, frame by frame: the signal read from the frame
/// of a signal is that signal, whatever its fields hold.
pub proof fn law_round_trip(signal: SignalView)
    ensures
        signal_of(frame_of(signal)) == Ok::<SignalView, ErrorView>(signal),
{
    // Each key of a frame differs from the keys before it, so looking a key
    // up finds the entry that was written for it.
    lemma_words_differ();
    reveal_with_fuel(lookup_from, 5);
    match signal {
        SignalView::Error(error) => {
            lemma_parts_round_trip(error);
        },
        _ => {},
    }
}

/// Whether two frames hold the same value under every key.
pub open spec fn same_fields(a: Entries, b: Entries) -> bool {
    forall|key: Seq<char>| #[trigger] lookup(a, key) == lookup(b, key)
}

/// The signal in a frame depends only on what stands under each key, not on
/// the order of the entries.
pub proof fn lemma_order_is_no_matter(a: Entries, b: Entries)
    requires
        same_fields(a, b),
    ensures
        signal_of(a) == signal_of(b),
{
}

/// Decoding inverts encoding, text by text, as far as the JSON parser goes:
/// every text in which the parser finds, under each key, what the frame of a
/// signal holds under it decodes to that signal. The text frame of the
/// signal is such a text wherever the parser reads back what the printer
/// wrote.
pub proof fn law_text_round_trip(signal: SignalView, text: Seq<char>)
    ensures
        parsed(text) is Ok && same_fields(parsed(text)->Ok_0, frame_of(signal)) ==> decoded(text)
            == Ok::<SignalView, ErrorView>(signal),
{
    law_round_trip(signal);
    if parsed(text) is Ok && same_fields(parsed(text)->Ok_0, frame_of(signal)) {
        lemma_order_is_no_matter(parsed(text)->Ok_0, frame_of(signal));
    }
}

} // verus!
