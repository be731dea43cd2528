//! Lifecycle records of the MCP process. Only constant event names and static
//! tags enter a record: no tool arguments, results, error bodies, URLs,
//! credentials, users, tenants, requests, sessions or source payloads.
//!
//! A record is built here and handed to the logger by the process around the
//! library; each call site attaches its own trace tag and routine id first.

use vstd::prelude::*;

verus! {

/// How severe a lifecycle record is.
#[derive(Clone, Copy, PartialEq, Eq, Structural)]
pub enum Severity {
    Info,
    Error,
}

/// A static trace tag attached to a record.
#[derive(Clone, Copy)]
pub struct TraceTag {
    pub id: &'static str,
    pub sampled: bool,
}

/// A lifecycle record, ready to be sent.
pub struct LifecycleRecord {
    pub severity: Severity,
    /// The single message argument: the constant event name.
    pub message: &'static str,
    pub fields: Vec<(&'static str, &'static str)>,
    pub tags: Vec<&'static str>,
    pub trace: Option<TraceTag>,
    pub routine_id: Option<&'static str>,
}

/// The fields that a record for the event `name` carries.
pub open spec fn metadata_free_fields(name: &'static str) -> Seq<(&'static str, &'static str)> {
    seq![("event.name", name), ("data.classification", "metadata-free")]
}

/// The tags that every record carries.
pub open spec fn record_tags() -> Seq<&'static str> {
    seq!["opto-sync", "mcp"]
}

/// A record that carries the event `name`, at the given severity, with nothing
/// but the constant name, the classification and the static tags.
pub open spec fn is_metadata_free_record(r: &LifecycleRecord, severity: Severity, name: &'static str) -> bool {
    &&& r.severity == severity
    &&& r.message == name
    &&& r.fields@ == metadata_free_fields(name)
    &&& r.tags@ == record_tags()
}

impl LifecycleRecord {
    /// A record at `severity` whose only message argument is `message`.
    pub fn new(severity: Severity, message: &'static str) -> (r: LifecycleRecord)
        ensures
            r.severity == severity,
            r.message == message,
            r.fields@ == Seq::<(&'static str, &'static str)>::empty(),
            r.tags@ == Seq::<&'static str>::empty(),
            r.trace is None,
            r.routine_id is None,
    {
        LifecycleRecord {
            severity,
            message,
            fields: Vec::new(),
            tags: Vec::new(),
            trace: None,
            routine_id: None,
        }
    }

    /// Appends `fields` to the record's fields.
    pub fn add_fields(self, fields: Vec<(&'static str, &'static str)>) -> (r: LifecycleRecord)
        ensures
            r.fields@ == self.fields@ + fields@,
            r.severity == self.severity,
            r.message == self.message,
            r.tags@ == self.tags@,
            r.trace == self.trace,
            r.routine_id == self.routine_id,
    {
        let mut record = self;
        let mut more = fields;
        record.fields.append(&mut more);
        record
    }

    /// Appends `tags` to the record's tags.
    pub fn add_tags(self, tags: Vec<&'static str>) -> (r: LifecycleRecord)
        ensures
            r.tags@ == self.tags@ + tags@,
            r.severity == self.severity,
            r.message == self.message,
            r.fields@ == self.fields@,
            r.trace == self.trace,
            r.routine_id == self.routine_id,
    {
        let mut record = self;
        let mut more = tags;
        record.tags.append(&mut more);
        record
    }

    /// Attaches the trace tag `id`.
    pub fn add_trace(self, id: &'static str, sampled: bool) -> (r: LifecycleRecord)
        ensures
            r.trace == Some(TraceTag { id, sampled }),
            r.severity == self.severity,
            r.message == self.message,
            r.fields@ == self.fields@,
            r.tags@ == self.tags@,
            r.routine_id == self.routine_id,
    {
        let mut record = self;
        record.trace = Some(TraceTag { id, sampled });
        record
    }

    /// Attaches the routine id `id`.
    pub fn add_routine_id(self, id: &'static str) -> (r: LifecycleRecord)
        ensures
            r.routine_id == Some(id),
            r.severity == self.severity,
            r.message == self.message,
            r.fields@ == self.fields@,
            r.tags@ == self.tags@,
            r.trace == self.trace,
    {
        let mut record = self;
        record.routine_id = Some(id);
        record
    }
}

/// An informational lifecycle record carrying only the constant `name`.
pub fn event(name: &'static str) -> (r: LifecycleRecord)
    ensures
        is_metadata_free_record(&r, Severity::Info, name),
        r.trace is None,
        r.routine_id is None,
{
    metadata_free(LifecycleRecord::new(Severity::Info, name), name)
}

/// An error lifecycle record carrying only the constant `name`. The
/// underlying error is not attached: configuration and transport errors can
/// embed argument values or peer details.
pub fn failure(name: &'static str) -> (r: LifecycleRecord)
    ensures
        is_metadata_free_record(&r, Severity::Error, name),
        r.trace is None,
        r.routine_id is None,
{
    metadata_free(LifecycleRecord::new(Severity::Error, name), name)
}

fn metadata_free(record: LifecycleRecord, name: &'static str) -> (r: LifecycleRecord)
    ensures
        r.fields@ == record.fields@ + metadata_free_fields(name),
        r.tags@ == record.tags@ + record_tags(),
        r.severity == record.severity,
        r.message == record.message,
        r.trace == record.trace,
        r.routine_id == record.routine_id,
{
    let fields = vec![("event.name", name), ("data.classification", "metadata-free")];
    let tags = vec!["opto-sync", "mcp"];
    proof {
        assert(fields@ =~= metadata_free_fields(name));
        assert(tags@ =~= record_tags());
    }
    record.add_fields(fields).add_tags(tags)
}

} // verus!
