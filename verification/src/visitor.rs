//! The fields that a span or an event records, gathered into a JSON object.
use serde_json::Value;
use vstd::prelude::*;

use crate::json::{
    bool_value, empty_fields, fields_of, insert_field, insert_text, signed_value, unsigned_value,
    Json,
};

verus! {

/// Gathers recorded fields. A field that is recorded twice keeps its last value.
#[derive(Debug)]
pub struct JsonVisitor(serde_json::Map<String, Value>);

impl View for JsonVisitor {
    type V = Map<Seq<char>, Json>;

    closed spec fn view(&self) -> Map<Seq<char>, Json> {
        fields_of(self.0)
    }
}

impl JsonVisitor {
    /// A visitor that has seen no field.
    pub fn new() -> (visitor: Self)
        ensures
            visitor@ == Map::<Seq<char>, Json>::empty(),
    {
        JsonVisitor(empty_fields())
    }

    /// Records a value by the text that `{:?}` gives for it.
    pub fn record_debug(&mut self, field: &str, rendered: &str)
        ensures
            final(self)@ == old(self)@.insert(field@, Json::Str(rendered@)),
    {
        insert_text(&mut self.0, field, rendered);
    }

    /// Records a text.
    pub fn record_str(&mut self, field: &str, value: &str)
        ensures
            final(self)@ == old(self)@.insert(field@, Json::Str(value@)),
    {
        insert_text(&mut self.0, field, value);
    }

    /// Records a signed integer.
    pub fn record_i64(&mut self, field: &str, value: i64)
        ensures
            final(self)@ == old(self)@.insert(field@, Json::Number(value as int)),
    {
        insert_field(&mut self.0, field.to_owned(), signed_value(value));
    }

    /// Records an unsigned integer.
    pub fn record_u64(&mut self, field: &str, value: u64)
        ensures
            final(self)@ == old(self)@.insert(field@, Json::Number(value as int)),
    {
        insert_field(&mut self.0, field.to_owned(), unsigned_value(value));
    }

    /// Records a boolean.
    pub fn record_bool(&mut self, field: &str, value: bool)
        ensures
            final(self)@ == old(self)@.insert(field@, Json::Bool(value)),
    {
        insert_field(&mut self.0, field.to_owned(), bool_value(value));
    }

    /// The object of the fields recorded so far.
    pub fn into_metadata(self) -> (metadata: serde_json::Map<String, Value>)
        ensures
            fields_of(metadata) == self@,
    {
        self.0
    }
}

} // verus!
