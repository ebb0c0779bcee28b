//! Events that Java plugins ask the server to fire: which requests are
//! answered, and the UUIDs they name.
use vstd::prelude::*;

use crate::events::kinds::EventKind;

verus! {

/// The value of the UUID written as `text`, as `uuid::Uuid::parse_str` reads
/// it (hyphenated, simple, braced or URN form), or `None` when it is not a UUID.
pub uninterp spec fn uuid_parse_spec(text: Seq<char>) -> Option<u128>;

/// Calls `uuid::Uuid::parse_str` and takes the UUID as a `u128`
/// (`Uuid::as_u128`, big-endian). The contract only names the result.
#[verifier::external_body]
pub(crate) fn parse_uuid(text: &str) -> (r: Option<u128>)
    ensures
        r == uuid_parse_spec(text@),
{
    uuid::Uuid::parse_str(text).ok().map(|u| u.as_u128())
}

/// The fields of an event that decide whether it can be fired: its kind, and
/// the texts of the UUID fields its conversion needs, in the order the event
/// lists them (`None` for a field the message leaves out).
#[derive(Debug, Clone, PartialEq, Eq)]
pub struct EventFields {
    pub kind: EventKind,
    pub uuid_fields: Vec<Option<String>>,
}

/// A call-event request from Java: the event's data, when the message carries it.
#[derive(Debug, Clone, PartialEq, Eq)]
pub struct CallEventData {
    pub data: Option<EventFields>,
}

/// What the server fires: the event kind and the parsed UUIDs, in the order of
/// the event's UUID fields.
#[derive(Debug, Clone, PartialEq, Eq)]
pub struct FireRequest {
    pub kind: EventKind,
    pub uuids: Vec<u128>,
}

/// The UUIDs of a list of fields, when every field is present and parses.
pub open spec fn parse_all_spec(fields: Seq<Option<String>>) -> Option<Seq<u128>>
    decreases fields.len(),
{
    if fields.len() == 0 {
        Some(Seq::<u128>::empty())
    } else {
        match (parse_all_spec(fields.drop_last()), fields.last()) {
            (Some(parsed), Some(text)) => match uuid_parse_spec(text@) {
                Some(u) => Some(parsed.push(u)),
                None => None,
            },
            _ => None,
        }
    }
}

/// The event kind and UUIDs fired for a request: none when the request has no
/// event, the event has no data, or a UUID field is missing or does not parse.
pub open spec fn fire_request_spec(req: Option<CallEventData>) -> Option<(EventKind, Seq<u128>)> {
    match req {
        None => None,
        Some(d) => match d.data {
            None => None,
            Some(f) => match parse_all_spec(f.uuid_fields@) {
                None => None,
                Some(u) => Some((f.kind, u)),
            },
        },
    }
}

/// A field is missing or is no UUID.
pub open spec fn bad_uuid_field(field: Option<String>) -> bool {
    match field {
        None => true,
        Some(t) => uuid_parse_spec(t@) is None,
    }
}

/// A field is present and is read as the UUID `u`.
pub open spec fn field_parses_to(field: Option<String>, u: u128) -> bool {
    match field {
        Some(t) => uuid_parse_spec(t@) == Some(u),
        None => false,
    }
}

proof fn lemma_parse_all(fields: Seq<Option<String>>)
    ensures
        parse_all_spec(fields) is None <==> exists|i: int| 0 <= i < fields.len() && bad_uuid_field(
            #[trigger] fields[i],
        ),
        parse_all_spec(fields) matches Some(u) ==> u.len() == fields.len() && forall|i: int|
            0 <= i < fields.len() ==> field_parses_to(fields[i], #[trigger] u[i]),
    decreases fields.len(),
{
    if fields.len() > 0 {
        let init = fields.drop_last();
        lemma_parse_all(init);
        if exists|i: int| 0 <= i < init.len() && bad_uuid_field(#[trigger] init[i]) {
            let i = choose|i: int| 0 <= i < init.len() && bad_uuid_field(#[trigger] init[i]);
            assert(fields[i] == init[i]);
        }
        if exists|i: int| 0 <= i < fields.len() && bad_uuid_field(#[trigger] fields[i]) {
            let i = choose|i: int| 0 <= i < fields.len() && bad_uuid_field(#[trigger] fields[i]);
            if i < init.len() {
                assert(init[i] == fields[i]);
            }
        }
        if parse_all_spec(fields) is Some {
            assert forall|i: int| 0 <= i < fields.len() implies !bad_uuid_field(#[trigger] fields[i]) by {
                if i < init.len() {
                    assert(init[i] == fields[i]);
                }
            }
        }
    }
}

/// A request is refused exactly when it has no event, its event has no data,
/// or one of the UUID fields the event needs is missing or is no UUID; a
/// request that is answered fires the event's kind with one UUID per field,
/// each the value its text is read as.
pub proof fn law_call_event_refused_exactly_when(req: Option<CallEventData>)
    ensures
        fire_request_spec(req) is None <==> match req {
            None => true,
            Some(d) => match d.data {
                None => true,
                Some(f) => exists|i: int|
                    0 <= i < f.uuid_fields@.len() && bad_uuid_field(#[trigger] f.uuid_fields@[i]),
            },
        },
        fire_request_spec(req) matches Some((kind, uuids)) ==> req matches Some(d) && d.data matches Some(
            f,
        ) && kind == f.kind && uuids.len() == f.uuid_fields@.len() && forall|i: int|
            0 <= i < uuids.len() ==> field_parses_to(f.uuid_fields@[i], #[trigger] uuids[i]),
{
    if let Some(d) = req {
        if let Some(f) = d.data {
            lemma_parse_all(f.uuid_fields@);
        }
    }
}

/// The UUID a field is read as: none when the field is missing or is no UUID.
pub open spec fn field_value(field: Option<String>) -> Option<u128> {
    match field {
        Some(t) => uuid_parse_spec(t@),
        None => None,
    }
}

/// All the values, when every one is present.
pub open spec fn all_values(values: Seq<Option<u128>>) -> Option<Seq<u128>>
    decreases values.len(),
{
    if values.len() == 0 {
        Some(Seq::<u128>::empty())
    } else {
        match (all_values(values.drop_last()), values.last()) {
            (Some(prefix), Some(u)) => Some(prefix.push(u)),
            _ => None,
        }
    }
}

proof fn lemma_parse_all_by_values(fields: Seq<Option<String>>)
    ensures
        parse_all_spec(fields) == all_values(fields.map_values(|f: Option<String>| field_value(f))),
    decreases fields.len(),
{
    let values = fields.map_values(|f: Option<String>| field_value(f));
    if fields.len() > 0 {
        lemma_parse_all_by_values(fields.drop_last());
        assert(values.drop_last() =~= fields.drop_last().map_values(
            |f: Option<String>| field_value(f),
        ));
        assert(values.last() == field_value(fields.last()));
    }
}

proof fn lemma_all_values_prefix(values: Seq<Option<u128>>, n: int)
    requires
        0 <= n <= values.len(),
        all_values(values.take(n)) is None,
    ensures
        all_values(values) is None,
    decreases values.len() - n,
{
    if n < values.len() {
        assert(values.take(n + 1).drop_last() =~= values.take(n));
        lemma_all_values_prefix(values, n + 1);
    } else {
        assert(values.take(n) =~= values);
    }
}

/// The event fired for an event kind and the values read from its UUID
/// fields: fired with those values, in order, when every field gave one;
/// `None` when one did not.
pub fn fire_request_from_values(kind: EventKind, values: Vec<Option<u128>>) -> (r: Option<FireRequest>)
    ensures
        match r {
            Some(fr) => fr.kind == kind && all_values(values@) == Some(fr.uuids@),
            None => all_values(values@) is None,
        },
{
    let mut out: Vec<u128> = Vec::new();
    let mut i: usize = 0;
    assert(values@.take(0) =~= Seq::<Option<u128>>::empty());
    while i < values.len()
        invariant
            i <= values@.len(),
            all_values(values@.take(i as int)) == Some(out@),
        decreases values@.len() - i,
    {
        assert(values@.take(i + 1).drop_last() =~= values@.take(i as int));
        assert(values@.take(i + 1).last() == values@[i as int]);
        match values[i] {
            None => {
                proof {
                    lemma_all_values_prefix(values@, i + 1);
                }
                return None;
            },
            Some(u) => {
                out.push(u);
            },
        }
        i += 1;
    }
    assert(values@.take(values@.len() as int) =~= values@);
    Some(FireRequest { kind, uuids: out })
}

/// The UUID each field is read as, in order.
fn field_values(fields: &Vec<Option<String>>) -> (r: Vec<Option<u128>>)
    ensures
        r@ == fields@.map_values(|f: Option<String>| field_value(f)),
{
    let mut r: Vec<Option<u128>> = Vec::new();
    let mut i: usize = 0;
    while i < fields.len()
        invariant
            i <= fields@.len(),
            r@ == fields@.take(i as int).map_values(|f: Option<String>| field_value(f)),
        decreases fields@.len() - i,
    {
        let value = match &fields[i] {
            None => None,
            Some(text) => parse_uuid(text.as_str()),
        };
        r.push(value);
        assert(r@ =~= fields@.take(i + 1).map_values(|f: Option<String>| field_value(f)));
        i += 1;
    }
    assert(fields@.take(fields@.len() as int) =~= fields@);
    r
}

/// Decides whether the server fires the event of a call-event request, and
/// with which UUIDs.
pub fn call_event_decision(req: Option<CallEventData>) -> (r: Option<FireRequest>)
    ensures
        match r {
            Some(fr) => fire_request_spec(req) == Some((fr.kind, fr.uuids@)),
            None => fire_request_spec(req) is None,
        },
{
    let d = match req {
        None => return None,
        Some(d) => d,
    };
    let f = match d.data {
        None => return None,
        Some(f) => f,
    };
    let values = field_values(&f.uuid_fields);
    proof {
        lemma_parse_all_by_values(f.uuid_fields@);
    }
    fire_request_from_values(f.kind, values)
}

} // verus!
