//! A frame as the wire carries it: a flat JSON object whose values are
//! strings or lists of strings.

use vstd::prelude::*;
use vstd::string::*;
use crate::error::{Error, ErrorView};
use crate::json::{json_object, json_of, json_quote, parse_object, quote, value_items, value_text, Json};
use crate::signal::texts;
use crate::text::{same_text, wrap};

verus! {

/// The value of one entry of a frame.
#[derive(Clone, Debug, PartialEq)]
pub enum Field {
    /// A JSON string.
    Text(String),
    /// A JSON array of strings.
    List(Vec<String>),
    /// Any other JSON value. The relay reads nothing from it.
    Other,
}

/// The mathematical value of a [`Field`].
pub enum FieldView {
    Text(Seq<char>),
    List(Seq<Seq<char>>),
    Other,
}

impl View for Field {
    type V = FieldView;

    open spec fn view(&self) -> FieldView {
        match self {
            Field::Text(text) => FieldView::Text(text@),
            Field::List(items) => FieldView::List(texts(items@)),
            Field::Other => FieldView::Other,
        }
    }
}

/// The entries of a frame: keys with their values, in order.
pub type Entries = Seq<(Seq<char>, FieldView)>;

/// A frame: the entries of one JSON object, in order.
#[derive(Clone, Debug, PartialEq)]
pub struct Frame {
    pub entries: Vec<(String, Field)>,
}

impl View for Frame {
    type V = Entries;

    open spec fn view(&self) -> Entries {
        self.entries@.map_values(|entry: (String, Field)| (entry.0@, entry.1@))
    }
}

/// Whether every item of a JSON array is a string.
pub open spec fn all_text(items: Seq<Json>) -> bool {
    forall|i: int| 0 <= i < items.len() ==> #[trigger] items[i] is Text
}

/// What a JSON value is as the value of an entry: a string is a text, an
/// array of strings is a list, and everything else is `Other`.
pub open spec fn field_of(json: Json) -> FieldView {
    match json {
        Json::Text(text) => FieldView::Text(text),
        Json::List(items) => if all_text(items) {
            FieldView::List(items.map_values(|item: Json| item->Text_0))
        } else {
            FieldView::Other
        },
        Json::Other => FieldView::Other,
    }
}

/// The frame that a text holds: the entries of the JSON object, or the parse
/// error with the parser's message.
pub open spec fn parsed(text: Seq<char>) -> Result<Entries, ErrorView> {
    match json_object(text) {
        Ok(entries) => Ok(entries.map_values(|entry: (Seq<char>, Json)| (entry.0, field_of(entry.1)))),
        Err(detail) => Err(ErrorView::ParseError(detail)),
    }
}

/// The value of the first entry from `start` on whose key is `key`.
pub open spec fn lookup_from(entries: Entries, key: Seq<char>, start: int) -> Option<FieldView>
    decreases entries.len() - start,
{
    if start < 0 || start >= entries.len() {
        None
    } else if entries[start].0 == key {
        Some(entries[start].1)
    } else {
        lookup_from(entries, key, start + 1)
    }
}

/// The value of the first entry whose key is `key`.
pub open spec fn lookup(entries: Entries, key: Seq<char>) -> Option<FieldView> {
    lookup_from(entries, key, 0)
}

/// The error for a field that a signal needs and the frame lacks.
pub open spec fn missing_field(key: Seq<char>) -> ErrorView {
    ErrorView::ParseError("missing field `"@ + key + "`"@)
}

/// The error for a field that is there but holds the wrong kind of value.
pub open spec fn invalid_field(key: Seq<char>) -> ErrorView {
    ErrorView::ParseError("invalid type for field `"@ + key + "`"@)
}

/// The string under `key`: the frame must have the key, and the first entry
/// with it must hold a string.
pub open spec fn text_field(entries: Entries, key: Seq<char>) -> Result<Seq<char>, ErrorView> {
    match lookup(entries, key) {
        None => Err(missing_field(key)),
        Some(FieldView::Text(text)) => Ok(text),
        Some(_) => Err(invalid_field(key)),
    }
}

/// The list of strings under `key`: the frame must have the key, and the
/// first entry with it must hold a list of strings.
pub open spec fn list_field(entries: Entries, key: Seq<char>) -> Result<Seq<Seq<char>>, ErrorView> {
    match lookup(entries, key) {
        None => Err(missing_field(key)),
        Some(FieldView::List(items)) => Ok(items),
        Some(_) => Err(invalid_field(key)),
    }
}

/// The parts joined, with the separator between each two of them.
pub open spec fn joined(parts: Seq<Seq<char>>, separator: Seq<char>) -> Seq<char>
    decreases parts.len(),
{
    if parts.len() == 0 {
        Seq::empty()
    } else if parts.len() == 1 {
        parts[0]
    } else {
        joined(parts.drop_last(), separator) + separator + parts.last()
    }
}

/// The JSON text of a value: a string literal, an array of string literals,
/// or `null`.
pub open spec fn field_text(field: FieldView) -> Seq<char> {
    match field {
        FieldView::Text(text) => json_quote(text),
        FieldView::List(items) => "["@ + joined(
            items.map_values(|item: Seq<char>| json_quote(item)),
            ","@,
        ) + "]"@,
        FieldView::Other => "null"@,
    }
}

/// The JSON text of one entry: the key, a colon, the value.
pub open spec fn entry_text(entry: (Seq<char>, FieldView)) -> Seq<char> {
    json_quote(entry.0) + ":"@ + field_text(entry.1)
}

/// The JSON text of a frame: its entries in order, separated by commas,
/// between braces, with no white space.
pub open spec fn frame_text(entries: Entries) -> Seq<char> {
    "{"@ + joined(entries.map_values(|entry: (Seq<char>, FieldView)| entry_text(entry)), ","@)
        + "}"@
}

/// The entry of a parsed object as an entry of a frame.
fn field_of_value(value: &serde_json::Value) -> (field: Field)
    ensures
        field@ == field_of(json_of(*value)),
{
    match value_text(value) {
        Some(text) => Field::Text(text),
        None => match value_items(value) {
            None => Field::Other,
            Some(items) => {
                let ghost models = crate::json::items_of(items@);
                let mut list: Vec<String> = Vec::new();
                let mut i: usize = 0;
                while i < items.len()
                    invariant
                        i <= items.len(),
                        models == crate::json::items_of(items@),
                        json_of(*value) == Json::List(models),
                        list.len() == i,
                        forall|j: int| 0 <= j < i ==> #[trigger] models[j] == Json::Text(list[j]@),
                    decreases items.len() - i,
                {
                    match value_text(&items[i]) {
                        Some(text) => {
                            list.push(text);
                        },
                        None => {
                            assert(models[i as int] == json_of(items[i as int]));
                            return Field::Other;
                        },
                    }
                    i = i + 1;
                }
                assert(texts(list@) =~= models.map_values(|item: Json| item->Text_0));
                Field::List(list)
            },
        },
    }
}

impl Frame {
    /// The frame that a text holds.
    pub fn parse(text: &str) -> (r: Result<Frame, Error>)
        ensures
            match r {
                Ok(frame) => parsed(text@) == Ok::<Entries, ErrorView>(frame@),
                Err(error) => parsed(text@) == Err::<Entries, ErrorView>(error@),
            },
    {
        match parse_object(text) {
            Err(detail) => Err(Error::ParseError(detail)),
            Ok(values) => {
                let ghost object = json_object(text@)->Ok_0;
                let mut entries: Vec<(String, Field)> = Vec::new();
                let mut i: usize = 0;
                while i < values.len()
                    invariant
                        i <= values.len(),
                        entries.len() == i,
                        object == values@.map_values(
                            |entry: (String, serde_json::Value)| crate::json::entry_of(entry),
                        ),
                        forall|j: int|
                            0 <= j < i ==> (#[trigger] entries[j]).0@ == object[j].0
                                && entries[j].1@ == field_of(object[j].1),
                    decreases values.len() - i,
                {
                    let field = field_of_value(&values[i].1);
                    entries.push((values[i].0.clone(), field));
                    i = i + 1;
                }
                let frame = Frame { entries };
                assert(frame@ =~= object.map_values(
                    |entry: (Seq<char>, Json)| (entry.0, field_of(entry.1)),
                ));
                Ok(frame)
            },
        }
    }

    /// The value of the first entry whose key is `key`.
    pub fn find(&self, key: &str) -> (r: Option<&Field>)
        ensures
            crate::text::option_view(r) == lookup(self@, key@),
    {
        let mut i: usize = 0;
        while i < self.entries.len()
            invariant
                i <= self.entries.len(),
                lookup(self@, key@) == lookup_from(self@, key@, i as int),
            decreases self.entries.len() - i,
        {
            if same_text(self.entries[i].0.as_str(), key) {
                return Some(&self.entries[i].1);
            }
            i = i + 1;
        }
        None
    }

    /// The string under `key`, or why the frame has none.
    pub fn text(&self, key: &str) -> (r: Result<String, Error>)
        ensures
            match r {
                Ok(text) => text_field(self@, key@) == Ok::<Seq<char>, ErrorView>(text@),
                Err(error) => text_field(self@, key@) == Err::<Seq<char>, ErrorView>(error@),
            },
    {
        match self.find(key) {
            None => Err(Error::ParseError(wrap("missing field `", key, "`"))),
            Some(Field::Text(text)) => Ok(text.clone()),
            Some(_) => Err(Error::ParseError(wrap("invalid type for field `", key, "`"))),
        }
    }

    /// The list of strings under `key`, or why the frame has none.
    pub fn list(&self, key: &str) -> (r: Result<Vec<String>, Error>)
        ensures
            match r {
                Ok(items) => list_field(self@, key@) == Ok::<Seq<Seq<char>>, ErrorView>(
                    texts(items@),
                ),
                Err(error) => list_field(self@, key@) == Err::<Seq<Seq<char>>, ErrorView>(error@),
            },
    {
        match self.find(key) {
            None => Err(Error::ParseError(wrap("missing field `", key, "`"))),
            Some(Field::List(items)) => Ok(copy_texts(items)),
            Some(_) => Err(Error::ParseError(wrap("invalid type for field `", key, "`"))),
        }
    }

    /// The JSON text of the frame.
    pub fn print(&self) -> (r: String)
        ensures
            r@ == frame_text(self@),
    {
        let ghost parts = self@.map_values(|entry: (Seq<char>, FieldView)| entry_text(entry));
        let mut out = String::from_str("{");
        let mut i: usize = 0;
        while i < self.entries.len()
            invariant
                i <= self.entries.len(),
                parts == self@.map_values(|entry: (Seq<char>, FieldView)| entry_text(entry)),
                out@ == "{"@ + joined(parts.take(i as int), ","@),
            decreases self.entries.len() - i,
        {
            let key = quote(self.entries[i].0.as_str());
            let value = print_field(&self.entries[i].1);
            proof {
                lemma_joined_step(parts, ","@, i as int);
            }
            if i > 0 {
                out.append(",");
            }
            out.append(key.as_str());
            out.append(":");
            out.append(value.as_str());
            i = i + 1;
        }
        assert(parts.take(i as int) =~= parts);
        out.append("}");
        out
    }
}

/// A copy of a list of strings.
pub fn copy_texts(items: &Vec<String>) -> (r: Vec<String>)
    ensures
        texts(r@) == texts(items@),
{
    let mut out: Vec<String> = Vec::new();
    let mut i: usize = 0;
    while i < items.len()
        invariant
            i <= items.len(),
            out.len() == i,
            forall|j: int| 0 <= j < i ==> (#[trigger] out[j])@ == items[j]@,
        decreases items.len() - i,
    {
        out.push(items[i].clone());
        i = i + 1;
    }
    out
}

/// Joining one part more appends the separator, unless it is the first part,
/// and then the part.
pub proof fn lemma_joined_step(parts: Seq<Seq<char>>, separator: Seq<char>, i: int)
    requires
        0 <= i < parts.len(),
    ensures
        joined(parts.take(i + 1), separator) == if i == 0 {
            parts[i]
        } else {
            joined(parts.take(i), separator) + separator + parts[i]
        },
{
    let longer = parts.take(i + 1);
    assert(longer.drop_last() =~= parts.take(i));
}

/// The JSON text of one value.
fn print_field(field: &Field) -> (r: String)
    ensures
        r@ == field_text(field@),
{
    match field {
        Field::Text(text) => quote(text.as_str()),
        Field::Other => String::from_str("null"),
        Field::List(items) => {
            let ghost parts = texts(items@).map_values(|item: Seq<char>| json_quote(item));
            let mut out = String::from_str("[");
            let mut i: usize = 0;
            while i < items.len()
                invariant
                    i <= items.len(),
                    parts == texts(items@).map_values(|item: Seq<char>| json_quote(item)),
                    out@ == "["@ + joined(parts.take(i as int), ","@),
                decreases items.len() - i,
            {
                let item = quote(items[i].as_str());
                proof {
                    lemma_joined_step(parts, ","@, i as int);
                }
                if i > 0 {
                    out.append(",");
                }
                out.append(item.as_str());
                i = i + 1;
            }
            assert(parts.take(i as int) =~= parts);
            out.append("]");
            out
        },
    }
}

} // verus!
