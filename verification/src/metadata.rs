//! Frame metadata as a viewer shows it.
//!
//! Metadata is opaque to the protocol. Producers commonly send a
//! self-describing map; once it has been decoded into a [`MetaValue`], it can
//! be put into words for display with [`format_value`].

use vstd::prelude::*;
use vstd::string::StringExecFns;

verus! {

/// A decoded piece of metadata: a tree of maps, lists and plain values.
/// Numbers are kept as the text they are written with.
#[derive(Debug)]
pub enum MetaValue {
    Null,
    Bool(bool),
    Number(String),
    String(String),
    Array(Vec<MetaValue>),
    Object(Vec<MetaField>),
}

/// One field of a map: a key and what is stored under it.
#[derive(Debug)]
pub struct MetaField {
    pub key: String,
    pub value: MetaValue,
}

/// Metadata as plain values.
pub enum MetaView {
    Null,
    Bool(bool),
    Number(Seq<char>),
    String(Seq<char>),
    Array(Seq<MetaView>),
    Object(Seq<FieldView>),
}

/// One field of a map as plain values.
pub struct FieldView {
    pub key: Seq<char>,
    pub value: MetaView,
}

impl View for MetaValue {
    type V = MetaView;

    open spec fn view(&self) -> MetaView
        decreases self,
    {
        match self {
            MetaValue::Null => MetaView::Null,
            MetaValue::Bool(b) => MetaView::Bool(*b),
            MetaValue::Number(n) => MetaView::Number(n@),
            MetaValue::String(s) => MetaView::String(s@),
            MetaValue::Array(items) => MetaView::Array(
                Seq::new(
                    items.len() as nat,
                    |i: int|
                        if 0 <= i < items.len() {
                            items[i]@
                        } else {
                            MetaView::Null
                        },
                ),
            ),
            MetaValue::Object(fields) => MetaView::Object(
                Seq::new(
                    fields.len() as nat,
                    |i: int|
                        if 0 <= i < fields.len() {
                            FieldView { key: fields[i].key@, value: fields[i].value@ }
                        } else {
                            FieldView { key: Seq::empty(), value: MetaView::Null }
                        },
                ),
            ),
        }
    }
}

/// Texts put one after the other with `separator` between each two.
pub open spec fn joined(parts: Seq<Seq<char>>, separator: Seq<char>) -> Seq<char>
    decreases parts.len(),
{
    if parts.len() == 0 {
        Seq::empty()
    } else if parts.len() == 1 {
        parts[0]
    } else {
        joined(parts.drop_last(), separator) + separator + parts.last()
    }
}

/// The words for the items of a list, each written with `,` between the
/// fields of a map.
pub open spec fn item_texts(items: Seq<MetaView>) -> Seq<Seq<char>>
    decreases items,
{
    Seq::new(
        items.len(),
        |i: int|
            if 0 <= i < items.len() {
                value_text(items[i], ","@)
            } else {
                Seq::empty()
            },
    )
}

/// The words for the fields of a map: each key, a colon, and its value
/// written with `,` between the fields of a map inside it.
pub open spec fn field_texts(fields: Seq<FieldView>) -> Seq<Seq<char>>
    decreases fields,
{
    Seq::new(
        fields.len(),
        |i: int|
            if 0 <= i < fields.len() {
                fields[i].key + ": "@ + value_text(fields[i].value, ","@)
            } else {
                Seq::empty()
            },
    )
}

/// Metadata in words. Plain values stand for themselves; the items of a
/// list are separated by `; `; the fields of a map are written as
/// `key: value` and separated by `join_object`. Inside lists and maps, maps
/// are joined with `,`.
pub open spec fn value_text(value: MetaView, join_object: Seq<char>) -> Seq<char>
    decreases value,
{
    match value {
        MetaView::Null => "null"@,
        MetaView::Bool(b) => if b {
            "true"@
        } else {
            "false"@
        },
        MetaView::Number(n) => n,
        MetaView::String(s) => s,
        MetaView::Array(items) => joined(item_texts(items), "; "@),
        MetaView::Object(fields) => joined(field_texts(fields), join_object),
    }
}

proof fn lemma_joined_next(parts: Seq<Seq<char>>, separator: Seq<char>, i: int)
    requires
        0 <= i < parts.len(),
    ensures
        joined(parts.take(i + 1), separator) == if i == 0 {
            parts[i]
        } else {
            joined(parts.take(i), separator) + separator + parts[i]
        },
{
    assert(parts.take(i + 1).drop_last() =~= parts.take(i));
}

/// Puts metadata into words for display.
#[verifier::loop_isolation(false)]
pub fn format_value(value: &MetaValue, join_object: &str) -> (text: String)
    ensures
        text@ == value_text(value@, join_object@),
    decreases value,
{
    match value {
        MetaValue::Null => String::from_str("null"),
        MetaValue::Bool(b) => if *b {
            String::from_str("true")
        } else {
            String::from_str("false")
        },
        MetaValue::Number(n) => n.clone(),
        MetaValue::String(s) => s.clone(),
        MetaValue::Array(items) => {
            let ghost parts = item_texts(value@->Array_0);
            let mut text = String::new();
            let mut i: usize = 0;
            while i < items.len()
                invariant
                    i <= items.len(),
                    parts.len() == items.len(),
                    text@ == joined(parts.take(i as int), "; "@),
                decreases items.len() - i,
            {
                if i > 0 {
                    text.append("; ");
                }
                let part = format_value(&items[i], ",");
                text.append(part.as_str());
                proof {
                    lemma_joined_next(parts, "; "@, i as int);
                }
                i = i + 1;
            }
            assert(parts.take(i as int) =~= parts);
            text
        },
        MetaValue::Object(fields) => {
            let ghost parts = field_texts(value@->Object_0);
            let mut text = String::new();
            let mut i: usize = 0;
            while i < fields.len()
                invariant
                    i <= fields.len(),
                    parts.len() == fields.len(),
                    text@ == joined(parts.take(i as int), join_object@),
                decreases fields.len() - i,
            {
                if i > 0 {
                    text.append(join_object);
                }
                text.append(fields[i].key.as_str());
                text.append(": ");
                let part = format_value(&fields[i].value, ",");
                text.append(part.as_str());
                proof {
                    lemma_joined_next(parts, join_object@, i as int);
                }
                i = i + 1;
            }
            assert(parts.take(i as int) =~= parts);
            text
        },
    }
}

} // verus!
