//! The forwardable record and its metadata, and the JSON form in which the
//! metadata sit beside the members of the payload.

use crate::json::{
    as_object_mut, integer_value, json_value, object_insert, text_value, JsonView,
};
use vstd::prelude::*;

verus! {

/// Why a payload could not be shaped into an event.
#[derive(Clone, Copy, Debug, PartialEq, Eq, Structural)]
pub enum BuildError {
    /// The payload is JSON, but its top level is not an object.
    NotAnObject,
}

/// Indexing metadata that accompanies every forwarded event.
#[derive(Debug)]
pub struct EventMetaData {
    time: u64,
    index: String,
    sourcetype: String,
    source: String,
    host: String,
}

/// The mathematical content of an [`EventMetaData`].
pub struct EventMetaDataView {
    pub time: nat,
    pub index: Seq<char>,
    pub sourcetype: Seq<char>,
    pub source: Seq<char>,
    pub host: Seq<char>,
}

impl View for EventMetaData {
    type V = EventMetaDataView;

    closed spec fn view(&self) -> EventMetaDataView {
        EventMetaDataView {
            time: self.time as nat,
            index: self.index@,
            sourcetype: self.sourcetype@,
            source: self.source@,
            host: self.host@,
        }
    }
}

impl EventMetaData {
    /// Metadata stamped with `epoch_time` seconds since the Unix epoch.
    pub fn new(
        epoch_time: usize,
        index: String,
        sourcetype: String,
        source: String,
        host: String,
    ) -> (meta: EventMetaData)
        ensures
            meta@ == (EventMetaDataView {
                time: epoch_time as nat,
                index: index@,
                sourcetype: sourcetype@,
                source: source@,
                host: host@,
            }),
    {
        EventMetaData { time: epoch_time as u64, index, sourcetype, source, host }
    }

    /// Metadata stamped with the reading of a clock that counts in 64 bits.
    pub fn stamped(
        time: u64,
        index: String,
        sourcetype: String,
        source: String,
        host: String,
    ) -> (meta: EventMetaData)
        ensures
            meta@ == (EventMetaDataView {
                time: time as nat,
                index: index@,
                sourcetype: sourcetype@,
                source: source@,
                host: host@,
            }),
    {
        EventMetaData { time, index, sourcetype, source, host }
    }

    /// Seconds since the Unix epoch at which the event was stamped.
    pub fn time(&self) -> (time: u64)
        ensures
            time == self@.time,
    {
        self.time
    }

    /// The index that the event is filed under.
    pub fn index(&self) -> (index: &str)
        ensures
            index@ == self@.index,
    {
        self.index.as_str()
    }

    /// The kind of source that the event is declared to come from.
    pub fn sourcetype(&self) -> (sourcetype: &str)
        ensures
            sourcetype@ == self@.sourcetype,
    {
        self.sourcetype.as_str()
    }

    /// The origin of the event.
    pub fn source(&self) -> (source: &str)
        ensures
            source@ == self@.source,
    {
        self.source.as_str()
    }

    /// The machine that relays the event.
    pub fn host(&self) -> (host: &str)
        ensures
            host@ == self@.host,
    {
        self.host.as_str()
    }
}

/// One forwardable record: an event and the metadata it is indexed by.
#[derive(Debug)]
pub struct HecEvent<D> {
    event: D,
    event_metadata: EventMetaData,
}

impl<D> HecEvent<D> {
    /// The event that the record wraps.
    pub closed spec fn payload(&self) -> D {
        self.event
    }

    /// The metadata that the record is indexed by.
    pub closed spec fn metadata(&self) -> EventMetaDataView {
        self.event_metadata@
    }

    /// Wraps an event together with its metadata.
    pub fn new(event: D, event_metadata: EventMetaData) -> (record: HecEvent<D>)
        ensures
            record.payload() == event,
            record.metadata() == event_metadata@,
    {
        HecEvent { event, event_metadata }
    }

    /// The event that the record wraps.
    pub fn event(&self) -> (event: &D)
        ensures
            *event == self.payload(),
    {
        &self.event
    }

    /// The metadata that the record is indexed by.
    pub fn event_metadata(&self) -> (meta: &EventMetaData)
        ensures
            meta@ == self.metadata(),
    {
        &self.event_metadata
    }
}

/// The members of the JSON form of a record: those of the payload, with the
/// five metadata fields set beside them. Where the payload has a member
/// under one of the five names, the metadata field takes its place.
pub open spec fn flattened(payload: Map<Seq<char>, JsonView>, meta: EventMetaDataView) -> Map<
    Seq<char>,
    JsonView,
> {
    payload.insert("time"@, JsonView::Integer(meta.time as int)).insert(
        "index"@,
        JsonView::Text(meta.index),
    ).insert("sourcetype"@, JsonView::Text(meta.sourcetype)).insert(
        "source"@,
        JsonView::Text(meta.source),
    ).insert("host"@, JsonView::Text(meta.host))
}

impl HecEvent<serde_json::Value> {
    /// The JSON form of the record: one object that holds the members of
    /// the payload and the metadata fields at the same level. A payload
    /// that is not an object has no such form.
    pub fn into_document(self) -> (document: Result<serde_json::Value, BuildError>)
        ensures
            match document {
                Ok(doc) => json_value(self.payload()) matches JsonView::Object(members)
                    && json_value(doc) == JsonView::Object(flattened(members, self.metadata())),
                Err(e) => e == BuildError::NotAnObject && !(json_value(self.payload()) is Object),
            },
    {
        let HecEvent { event, event_metadata } = self;
        let mut doc = event;
        match as_object_mut(&mut doc) {
            None => { return Err(BuildError::NotAnObject); },
            Some(members) => {
                let _ = object_insert(members, "time".to_owned(), integer_value(event_metadata.time));
                let _ = object_insert(members, "index".to_owned(), text_value(event_metadata.index));
                let _ = object_insert(
                    members,
                    "sourcetype".to_owned(),
                    text_value(event_metadata.sourcetype),
                );
                let _ = object_insert(members, "source".to_owned(), text_value(event_metadata.source));
                let _ = object_insert(members, "host".to_owned(), text_value(event_metadata.host));
            },
        }
        Ok(doc)
    }
}

} // verus!
