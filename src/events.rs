//! Event records: a global sequence number, a kind and named text fields,
//! each rendered as one flat record stored under a key of its own.

use vstd::prelude::*;
use vstd::string::*;
use crate::text::{decimal, u64_text};

verus! {

#[derive(Clone, Copy, Debug, PartialEq, Eq, Structural)]
pub enum EventKind {
    IntentCreated,
    GovernanceUpdated,
}

impl EventKind {
    pub open spec fn name_spec(&self) -> Seq<char> {
        match self {
            EventKind::IntentCreated => "IntentCreated"@,
            EventKind::GovernanceUpdated => "GovernanceUpdated"@,
        }
    }

    pub fn name(&self) -> (r: &'static str)
        ensures
            r@ == self.name_spec(),
    {
        match self {
            EventKind::IntentCreated => "IntentCreated",
            EventKind::GovernanceUpdated => "GovernanceUpdated",
        }
    }
}

/// A named field of an event, its value already rendered as text.
#[derive(Clone, Debug)]
pub struct EventField {
    pub name: String,
    pub value: String,
}

impl EventField {
    pub open spec fn view(&self) -> (Seq<char>, Seq<char>) {
        (self.name@, self.value@)
    }

    pub fn new(name: &str, value: String) -> (r: EventField)
        ensures
            r@ == (name@, value@),
    {
        EventField { name: String::from_str(name), value }
    }
}

/// The name/value pairs of a list of fields.
pub open spec fn fields_view(f: Seq<EventField>) -> Seq<(Seq<char>, Seq<char>)> {
    f.map_values(|x: EventField| x@)
}

/// The text `,"name":"value"` of each field, in order.
pub open spec fn fields_text(f: Seq<(Seq<char>, Seq<char>)>) -> Seq<char>
    decreases f.len(),
{
    if f.len() == 0 {
        Seq::empty()
    } else {
        fields_text(f.drop_last()) + ",\""@ + f.last().0 + "\":\""@ + f.last().1 + "\""@
    }
}

/// The flat record `{"event":"Kind","name":"value",...}`.
pub open spec fn record_text(kind: EventKind, f: Seq<(Seq<char>, Seq<char>)>) -> Seq<char> {
    "{\"event\":\""@ + kind.name_spec() + "\""@ + fields_text(f) + "}"@
}

/// The key a record is stored under: `event_<sequence>_<Kind>`.
pub open spec fn record_key(sequence: u64, kind: EventKind) -> Seq<char> {
    "event_"@ + decimal(sequence as nat) + "_"@ + kind.name_spec()
}

/// One entry of the event log.
#[derive(Clone, Debug)]
pub struct EventRecord {
    pub sequence: u64,
    pub kind: EventKind,
    pub fields: Vec<EventField>,
}

impl EventRecord {
    pub open spec fn view(&self) -> (u64, EventKind, Seq<(Seq<char>, Seq<char>)>) {
        (self.sequence, self.kind, fields_view(self.fields@))
    }

    /// The key under which the record is stored.
    pub fn key(&self) -> (r: String)
        ensures
            r@ == record_key(self.sequence, self.kind),
    {
        let mut r = String::from_str("event_");
        let n = u64_text(self.sequence);
        r.append(n.as_str());
        r.append("_");
        r.append(self.kind.name());
        proof {
            assert(r@ =~= record_key(self.sequence, self.kind));
        }
        r
    }

    /// The record rendered as one flat text, every value a string.
    pub fn text(&self) -> (r: String)
        ensures
            r@ == record_text(self.kind, fields_view(self.fields@)),
    {
        let mut r = String::from_str("{\"event\":\"");
        r.append(self.kind.name());
        r.append("\"");
        let ghost head = r@;
        let mut i: usize = 0;
        while i < self.fields.len()
            invariant
                0 <= i <= self.fields@.len(),
                r@ == head + fields_text(fields_view(self.fields@.take(i as int))),
            decreases self.fields@.len() - i,
        {
            let f = &self.fields[i];
            r.append(",\"");
            r.append(f.name.as_str());
            r.append("\":\"");
            r.append(f.value.as_str());
            r.append("\"");
            proof {
                let t = fields_view(self.fields@.take(i + 1));
                assert(t.drop_last() =~= fields_view(self.fields@.take(i as int)));
                assert(t.last() == self.fields@[i as int]@);
                assert(r@ =~= head + fields_text(t));
            }
            i = i + 1;
        }
        r.append("}");
        proof {
            assert(self.fields@.take(i as int) =~= self.fields@);
            assert(r@ =~= record_text(self.kind, fields_view(self.fields@)));
        }
        r
    }
}

} // verus!
