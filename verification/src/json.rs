use vstd::prelude::*;

verus! {

/// A JSON value as `serde_json` holds it; its contents are not visible to the
/// proofs.
#[verifier::external_type_specification]
#[verifier::external_body]
pub struct ExJsonValue(serde_json::Value);

/// The error `serde_json` reports for text that is not JSON.
#[verifier::external_type_specification]
#[verifier::external_body]
pub struct ExJsonError(serde_json::Error);

/// A JSON document: numbers are kept as their text, objects as their
/// members; read through `serde_json`, an object's members come sorted by
/// name, a name given twice keeping its last value.
#[derive(Debug)]
pub enum JsonDoc {
    Null,
    Bool(bool),
    Number(String),
    Text(String),
    Array(Vec<JsonDoc>),
    Object(Vec<(String, JsonDoc)>),
}

/// A JSON document as plain values.
pub enum JsonView {
    Null,
    Bool(bool),
    Number(Seq<char>),
    Text(Seq<char>),
    Array(Seq<JsonView>),
    Object(Seq<(Seq<char>, JsonView)>),
}

/// The view of a document.
pub open spec fn doc_view(d: JsonDoc) -> JsonView
    decreases d, 0nat,
{
    match d {
        JsonDoc::Null => JsonView::Null,
        JsonDoc::Bool(b) => JsonView::Bool(b),
        JsonDoc::Number(n) => JsonView::Number(n@),
        JsonDoc::Text(t) => JsonView::Text(t@),
        JsonDoc::Array(items) => JsonView::Array(docs_view(items@)),
        JsonDoc::Object(es) => JsonView::Object(entries_view(es@)),
    }
}

/// The views of a sequence of documents.
pub open spec fn docs_view(s: Seq<JsonDoc>) -> Seq<JsonView>
    decreases s, 1nat,
{
    if s.len() == 0 {
        Seq::<JsonView>::empty()
    } else {
        docs_view(s.drop_last()).push(doc_view(s.last()))
    }
}

/// The views of a sequence of object members.
pub open spec fn entries_view(s: Seq<(String, JsonDoc)>) -> Seq<(Seq<char>, JsonView)>
    decreases s, 1nat,
{
    if s.len() == 0 {
        Seq::<(Seq<char>, JsonView)>::empty()
    } else {
        entries_view(s.drop_last()).push((s.last().0@, doc_view(s.last().1)))
    }
}

impl View for JsonDoc {
    type V = JsonView;

    open spec fn view(&self) -> JsonView {
        doc_view(*self)
    }
}

/// The document `serde_json::from_str::<Value>` reads from `text`, if it is
/// JSON.
pub uninterp spec fn json_parsed(text: Seq<char>) -> Option<JsonView>;

/// Converts a `serde_json::Value` into a document, variant by variant.
#[verifier::external_body]
fn doc_from_value(v: serde_json::Value) -> JsonDoc {
    match v {
        serde_json::Value::Null => JsonDoc::Null,
        serde_json::Value::Bool(b) => JsonDoc::Bool(b),
        serde_json::Value::Number(n) => JsonDoc::Number(n.to_string()),
        serde_json::Value::String(s) => JsonDoc::Text(s),
        serde_json::Value::Array(a) => JsonDoc::Array(a.into_iter().map(doc_from_value).collect()),
        serde_json::Value::Object(m) => JsonDoc::Object(
            m.into_iter().map(|(k, x)| (k, doc_from_value(x))).collect(),
        ),
    }
}

/// Parses `text` with `serde_json::from_str::<Value>` and converts the value
/// one for one into a `JsonDoc`. Stated: the parse succeeds exactly when the
/// text is JSON, and the document is the one the text reads as; both depend
/// on the text alone.
#[verifier::external_body]
pub(crate) fn json_parse(text: &str) -> (r: Result<JsonDoc, serde_json::Error>)
    ensures
        r is Ok <==> json_parsed(text@) is Some,
        r matches Ok(d) ==> json_parsed(text@) == Some(d@),
{
    match serde_json::from_str::<serde_json::Value>(text) {
        Ok(v) => Ok(doc_from_value(v)),
        Err(e) => Err(e),
    }
}


/// The value of the member `key` of an object (the first member of that
/// name), `None` for a missing member or a document that is not an object.
pub open spec fn view_member(v: JsonView, key: Seq<char>) -> Option<JsonView> {
    match v {
        JsonView::Object(es) => entry_lookup(es, key),
        _ => None,
    }
}

/// The value of the first member called `key`.
pub open spec fn entry_lookup(es: Seq<(Seq<char>, JsonView)>, key: Seq<char>) -> Option<JsonView>
    decreases es.len(),
{
    if es.len() == 0 {
        None
    } else if es[0].0 == key {
        Some(es[0].1)
    } else {
        entry_lookup(es.drop_first(), key)
    }
}

/// The elements of an array, `None` for any other document.
pub open spec fn view_as_array(v: JsonView) -> Option<Seq<JsonView>> {
    match v {
        JsonView::Array(items) => Some(items),
        _ => None,
    }
}

/// The text of a string, `None` for any other document.
pub open spec fn view_as_text(v: JsonView) -> Option<Seq<char>> {
    match v {
        JsonView::Text(t) => Some(t),
        _ => None,
    }
}

/// The view of an optional document.
pub open spec fn opt_doc_view(d: Option<&JsonDoc>) -> Option<JsonView> {
    match d {
        Some(x) => Some(x@),
        None => None,
    }
}

/// The views of documents keep their number and order.
pub proof fn lemma_docs_view(s: Seq<JsonDoc>)
    ensures
        docs_view(s).len() == s.len(),
        forall|i: int| 0 <= i < s.len() ==> #[trigger] docs_view(s)[i] == doc_view(s[i]),
    decreases s.len(),
{
    if s.len() > 0 {
        lemma_docs_view(s.drop_last());
        assert forall|i: int| 0 <= i < s.len() implies #[trigger] docs_view(s)[i] == doc_view(s[i]) by {
            if i < s.len() - 1 {
                assert(s.drop_last()[i] == s[i]);
            }
        }
    }
}

/// The views of object members keep their number and order.
pub proof fn lemma_entries_view(s: Seq<(String, JsonDoc)>)
    ensures
        entries_view(s).len() == s.len(),
        forall|i: int| 0 <= i < s.len() ==> #[trigger] entries_view(s)[i] == (s[i].0@, doc_view(s[i].1)),
    decreases s.len(),
{
    if s.len() > 0 {
        lemma_entries_view(s.drop_last());
        assert forall|i: int| 0 <= i < s.len() implies #[trigger] entries_view(s)[i] == (
            s[i].0@,
            doc_view(s[i].1),
        ) by {
            if i < s.len() - 1 {
                assert(s.drop_last()[i] == s[i]);
            }
        }
    }
}

impl JsonDoc {
    /// The member `key` of an object.
    pub fn member(&self, key: &str) -> (r: Option<&JsonDoc>)
        ensures
            opt_doc_view(r) == view_member(self@, key@),
    {
        match self {
            JsonDoc::Object(es) => {
                let ghost ev = entries_view(es@);
                assert(self@ == JsonView::Object(ev));
                proof {
                    lemma_entries_view(es@);
                    assert(ev.skip(0) =~= ev);
                }
                let mut i: usize = 0;
                while i < es.len()
                    invariant
                        i <= es@.len(),
                        ev == entries_view(es@),
                        ev.len() == es@.len(),
                        forall|j: int| 0 <= j < es@.len() ==> #[trigger] ev[j] == (es@[j].0@, doc_view(es@[j].1)),
                        entry_lookup(ev, key@) == entry_lookup(ev.skip(i as int), key@),
                        view_member(self@, key@) == entry_lookup(ev, key@),
                    decreases es@.len() - i,
                {
                    let ghost rest = ev.skip(i as int);
                    assert(rest[0] == ev[i as int]);
                    assert(rest.drop_first() =~= ev.skip(i + 1));
                    if crate::text::str_eq(es[i].0.as_str(), key) {
                        assert(rest[0].0 == key@);
                        assert(entry_lookup(rest, key@) == Some(rest[0].1));
                        assert(rest[0].1 == doc_view(es@[i as int].1));
                        let found = &es[i].1;
                        assert(found@ == doc_view(es@[i as int].1));
                        return Some(found);
                    }
                    i = i + 1;
                }
                assert(ev.skip(i as int).len() == 0);
                None
            },
            _ => None,
        }
    }

    /// The elements of an array.
    pub fn as_array(&self) -> (r: Option<&Vec<JsonDoc>>)
        ensures
            match r {
                Some(items) => view_as_array(self@) == Some(docs_view(items@)),
                None => view_as_array(self@) is None,
            },
    {
        match self {
            JsonDoc::Array(items) => Some(items),
            _ => None,
        }
    }

    /// The text of a string.
    pub fn as_text(&self) -> (r: Option<&String>)
        ensures
            match r {
                Some(t) => view_as_text(self@) == Some(t@),
                None => view_as_text(self@) is None,
            },
    {
        match self {
            JsonDoc::Text(t) => Some(t),
            _ => None,
        }
    }
}

} // verus!
