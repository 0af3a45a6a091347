//! The document map of a submission row: which stored object fills which role.
//!
//! The map is stored as a JSON object with one member per role, named by the
//! role; each member is an object whose `documentName` is the name of the
//! stored object and whose `documentReference` is the document's handle.

use vstd::prelude::*;
use crate::json::{spec_first_with_key, JsonMember, JsonValue};
use crate::submissions::dto::presigned_urls_response::{DocumentRecord, SubmissionData};
use crate::submissions::vocabulary::{lemma_roles_distinct, DocumentRole};

verus! {

/// The member of a document record that holds the stored object's name.
pub open spec fn spec_name_key() -> Seq<char> {
    "documentName"@
}

/// The member of a document record that holds the document's handle.
pub open spec fn spec_reference_key() -> Seq<char> {
    "documentReference"@
}

/// The stored-object name recorded for `role` in a decoded document map.
/// `None` where the map has no member for the role or the member names no
/// object; a name that is no text counts as the empty name.
pub open spec fn spec_document_name(map: JsonValue, role: Seq<char>) -> Option<Seq<char>> {
    match map.spec_member(role) {
        None => None,
        Some(record) => match record.spec_member(spec_name_key()) {
            None => None,
            Some(name) => Some(
                match name.spec_text() {
                    Some(text) => text,
                    None => Seq::empty(),
                },
            ),
        },
    }
}

/// Whether what was read back of a row's document map is well-formed: it
/// must have decoded, and to an object. A row that holds no map, or a text
/// that is no JSON, has no well-formed map.
pub open spec fn spec_map_usable(stored: Option<JsonValue>) -> bool {
    match stored {
        None => false,
        Some(map) => map.spec_is_object(),
    }
}

/// The stored-object name recorded for `role` in what was read back of a row.
pub open spec fn spec_recorded_name(stored: Option<JsonValue>, role: Seq<char>) -> Option<
    Seq<char>,
> {
    match stored {
        None => None,
        Some(map) => spec_document_name(map, role),
    }
}

/// Whether what was read back of a row's document map is well-formed.
pub fn map_usable(stored: &Option<JsonValue>) -> (r: bool)
    ensures
        r == spec_map_usable(*stored),
{
    match stored {
        None => false,
        Some(map) => map.is_object(),
    }
}

/// Reads the stored-object name recorded for `role`.
pub fn document_name(map: &JsonValue, role: DocumentRole) -> (r: Option<String>)
    ensures
        match r {
            Some(name) => spec_document_name(*map, role.spec_name()) == Some(name@),
            None => spec_document_name(*map, role.spec_name()) is None,
        },
{
    match map.member(role.name()) {
        None => None,
        Some(record) => match record.member("documentName") {
            None => None,
            Some(name) => match name.as_text() {
                Some(text) => Some(text.clone()),
                None => Some(String::new()),
            },
        },
    }
}

/// Reads the stored-object name recorded for `role` in what was read back of a row.
pub fn recorded_name(stored: &Option<JsonValue>, role: DocumentRole) -> (r: Option<String>)
    ensures
        match r {
            Some(name) => spec_recorded_name(*stored, role.spec_name()) == Some(name@),
            None => spec_recorded_name(*stored, role.spec_name()) is None,
        },
{
    match stored {
        None => None,
        Some(map) => document_name(map, role),
    }
}

/// Whether `value` is the JSON form of one document record.
pub open spec fn spec_is_record_json(value: JsonValue, name: Seq<char>, reference: Seq<char>) -> bool {
    &&& value matches JsonValue::Object(members)
    &&& members@.len() == 2
    &&& members@[0].key@ == spec_name_key()
    &&& members@[0].value.spec_text() == Some(name)
    &&& members@[1].key@ == spec_reference_key()
    &&& members@[1].value.spec_text() == Some(reference)
}

/// Whether `value` is the JSON form of a list of document records: an object
/// with one member per record, in order, named by the record's role.
pub open spec fn spec_is_map_json(value: JsonValue, records: Seq<DocumentRecord>) -> bool {
    &&& value matches JsonValue::Object(members)
    &&& members@.len() == records.len()
    &&& forall|i: int|
        0 <= i < records.len() ==> {
            &&& (#[trigger] members@[i]).key@ == records[i].role.spec_name()
            &&& spec_is_record_json(
                members@[i].value,
                records[i].data.document_name@,
                records[i].data.document_reference@,
            )
        }
}

/// The JSON form of one document record.
pub fn record_json(data: &SubmissionData) -> (r: JsonValue)
    ensures
        spec_is_record_json(r, data.document_name@, data.document_reference@),
{
    let mut members: Vec<JsonMember> = Vec::new();
    members.push(
        JsonMember {
            key: "documentName".to_owned(),
            value: JsonValue::text(data.document_name.as_str()),
        },
    );
    members.push(
        JsonMember {
            key: "documentReference".to_owned(),
            value: JsonValue::text(data.document_reference.as_str()),
        },
    );
    JsonValue::Object(members)
}

/// The JSON form of a submission's document map, as it is stored with the row.
pub fn document_map_json(records: &Vec<DocumentRecord>) -> (r: JsonValue)
    ensures
        spec_is_map_json(r, records@),
{
    let mut members: Vec<JsonMember> = Vec::new();
    let mut i: usize = 0;
    while i < records.len()
        invariant
            i <= records@.len(),
            members@.len() == i,
            forall|j: int|
                0 <= j < i ==> {
                    &&& (#[trigger] members@[j]).key@ == records@[j].role.spec_name()
                    &&& spec_is_record_json(
                        members@[j].value,
                        records@[j].data.document_name@,
                        records@[j].data.document_reference@,
                    )
                },
        decreases records@.len() - i,
    {
        let member = JsonMember {
            key: records[i].role.name().to_owned(),
            value: record_json(&records[i].data),
        };
        members.push(member);
        i += 1;
    }
    JsonValue::Object(members)
}

/// What is written is what is read: in the JSON form of a list of records
/// whose roles are all different, the name read for the role of a record is the
/// name of that record, and no name is read for a role without a record.
pub proof fn lemma_document_map_round_trip(
    value: JsonValue,
    records: Seq<DocumentRecord>,
    role: DocumentRole,
)
    requires
        spec_is_map_json(value, records),
        forall|i: int, j: int|
            0 <= i < j < records.len() ==> (#[trigger] records[i]).role != (#[trigger] records[j]).role,
    ensures
        forall|i: int|
            0 <= i < records.len() && (#[trigger] records[i]).role == role ==> spec_document_name(
                value,
                role.spec_name(),
            ) == Some(records[i].data.document_name@),
        (forall|i: int| 0 <= i < records.len() ==> (#[trigger] records[i]).role != role)
            ==> spec_document_name(value, role.spec_name()) is None,
{
    let members = value->Object_0@;
    let key = role.spec_name();
    crate::json::lemma_first_with_key(members, key);
    assert forall|i: int| 0 <= i < records.len() implies ((#[trigger] members[i]).key@ == key
        <==> records[i].role == role) by {
        lemma_roles_distinct(records[i].role, role);
    }
    match spec_first_with_key(members, key) {
        Some(v) => {
            let k = choose|k: int|
                0 <= k < members.len() && (#[trigger] members[k]).key@ == key && members[k].value
                    == v;
            assert(records[k].role == role);
            assert forall|i: int|
                0 <= i < records.len() && (#[trigger] records[i]).role
                    == role implies spec_document_name(value, key) == Some(
                records[i].data.document_name@,
            ) by {
                assert(i == k) by {
                    if i < k {
                        assert(records[i].role != records[k].role);
                    } else if k < i {
                        assert(records[k].role != records[i].role);
                    }
                }
                let inner = v->Object_0@;
                reveal_with_fuel(spec_first_with_key, 2);
                assert(spec_first_with_key(inner, spec_name_key()) == Some(inner[0].value));
            }
        },
        None => {
            assert forall|i: int| 0 <= i < records.len() implies (#[trigger] records[i]).role
                != role by {
                assert(members[i].key@ != key);
            }
        },
    }
}

} // verus!
