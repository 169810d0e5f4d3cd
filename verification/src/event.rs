//! An event to capture.

use std::fmt::Display;

use chrono::NaiveDateTime;
use serde_json::Value;
use vstd::prelude::*;
use vstd::string::to_string_from_display_ensures;

use crate::errors::Error;
use crate::properties::{Properties, PropertiesView};

verus! {

/// A date and time of `chrono`, carried through as it is: nothing is said of
/// what it holds.
#[verifier::external_type_specification]
#[verifier::external_body]
pub struct ExNaiveDateTime(NaiveDateTime);

/// Something that happened, to be captured: its name, what is known of it, and
/// when it happened, if that is not now.
#[derive(Debug, PartialEq, Eq)]
pub struct Event {
    pub event: String,
    pub properties: Properties,
    pub timestamp: Option<NaiveDateTime>,
}

impl Event {
    /// The event named `event` about `distinct_id`, with nothing else known
    /// and no time of its own.
    pub fn new(event: &str, distinct_id: &str) -> (made: Self)
        ensures
            made.event@ == event@,
            made.properties@ == (PropertiesView {
                distinct_id: distinct_id@,
                props: Map::<Seq<char>, Value>::empty(),
            }),
            made.timestamp is None,
    {
        Self { event: event.to_owned(), properties: Properties::new(distinct_id), timestamp: None }
    }

    /// Puts `prop` under `key`, in place of what stood there. `prop` is what
    /// turning the property into a JSON value gave: the value, or the
    /// encoder's error.
    ///
    /// Errors if `prop` fails to serialize
    pub fn insert_prop<E: Display>(&mut self, key: &str, prop: Result<Value, E>) -> (done: Result<
        (),
        Error,
    >)
        ensures
            match done {
                Ok(_) => prop matches Ok(value) && final(self).properties@ == (PropertiesView {
                    props: old(self).properties@.props.insert(key@, value),
                    ..old(self).properties@
                }) && final(self).event == old(self).event && final(self).timestamp == old(
                    self,
                ).timestamp,
                Err(e) => prop matches Err(cause) && e matches Error::Serialization(m)
                    && to_string_from_display_ensures::<E>(&cause, m) && *final(self) == *old(
                    self,
                ),
            },
    {
        match prop {
            Ok(as_json) => {
                self.properties.insert(key.to_owned(), as_json);
                Ok(())
            },
            Err(e) => Err(Error::serialization(e)),
        }
    }
}

/// An event together with the key of the project that it is captured for.
pub struct InnerEvent {
    api_key: String,
    event: String,
    properties: Properties,
    timestamp: Option<NaiveDateTime>,
}

impl InnerEvent {
    /// The key of the project.
    pub closed spec fn api_key(self) -> Seq<char> {
        self.api_key@
    }

    /// The event, as it was before the key was put to it.
    pub closed spec fn event(self) -> Event {
        Event { event: self.event, properties: self.properties, timestamp: self.timestamp }
    }

    /// Puts the key of the project to `event`.
    pub fn new(event: Event, api_key: String) -> (inner: Self)
        ensures
            inner.api_key() == api_key@,
            inner.event() == event,
    {
        Self {
            api_key,
            event: event.event,
            properties: event.properties,
            timestamp: event.timestamp,
        }
    }

    /// The key and the event that this was made of.
    pub fn into_parts(self) -> (parts: (String, Event))
        ensures
            parts.0@ == self.api_key(),
            parts.1 == self.event(),
    {
        (
            self.api_key,
            Event { event: self.event, properties: self.properties, timestamp: self.timestamp },
        )
    }
}

} // verus!
