use crate::error::{Family, NodeError};
use crate::float::Float;
use crate::registry::{is_value_family, lemma_tag_isolation, registered, same_text};
use vstd::prelude::*;

verus! {

/// A structured record: what a tree is written to and read back from.
#[derive(Debug)]
pub enum Record {
    Bool(bool),
    Int(i64),
    Float(Float),
    Text(String),
    List(Vec<Record>),
    Node(Node),
}

/// A record that stands for one node: its kind's tag and its own fields.
#[derive(Debug)]
pub struct Node {
    pub tag: String,
    pub fields: Vec<Entry>,
}

/// One named field of a node.
#[derive(Debug)]
pub struct Entry {
    pub key: String,
    pub value: Record,
}

/// The first field named `key`.
pub open spec fn field_of(entries: Seq<Entry>, key: Seq<char>) -> Option<Record>
    decreases entries.len(),
{
    if entries.len() == 0 {
        None
    } else if entries[0].key@ == key {
        Some(entries[0].value)
    } else {
        field_of(entries.drop_first(), key)
    }
}

/// The tag of a node record.
pub open spec fn tag(rec: Record) -> Option<Seq<char>> {
    match rec {
        Record::Node(n) => Some(n.tag@),
        _ => None,
    }
}

/// The field named `key` of a node record.
pub open spec fn field(rec: Record, key: Seq<char>) -> Option<Record> {
    match rec {
        Record::Node(n) => field_of(n.fields@, key),
        _ => None,
    }
}

/// The record is a node whose tag the family does not register.
pub open spec fn unknown_in(rec: Record, family: Family) -> bool {
    match tag(rec) {
        Some(t) => !registered(family, t),
        None => false,
    }
}

/// Reading `rec` as a node of `family` fails with `UnknownKind`, naming that
/// family and that tag, whenever the record's tag is not registered there.
pub open spec fn reports_unknown<T>(r: Result<T, NodeError>, rec: Record, family: Family) -> bool {
    unknown_in(rec, family) ==> (r is Err && r->Err_0 is UnknownKind
        && r->Err_0->UnknownKind_family == family && tag(rec) == Some(r->Err_0->UnknownKind_tag@))
}

/// A record tagged with a condition kind is unknown to every value family, and
/// one tagged with a value kind is unknown to the condition family; readers
/// refuse such records with `UnknownKind` (see `reports_unknown`).
pub proof fn lemma_records_isolated(rec: Record, family: Family)
    requires
        is_value_family(family),
    ensures
        (tag(rec) matches Some(t) && registered(Family::Condition, t)) ==> unknown_in(rec, family),
        (tag(rec) matches Some(t) && registered(family, t)) ==> unknown_in(rec, Family::Condition),
{
    if let Some(t) = tag(rec) {
        lemma_tag_isolation(t, family);
    }
}

/// Where the first field named `key` stands.
pub proof fn lemma_field_position(entries: Seq<Entry>, key: Seq<char>) -> (i: int)
    requires
        field_of(entries, key) is Some,
    ensures
        0 <= i < entries.len(),
        field_of(entries, key) == Some(entries[i].value),
    decreases entries.len(),
{
    if entries[0].key@ == key {
        0
    } else {
        let j = lemma_field_position(entries.drop_first(), key);
        j + 1
    }
}

/// A field of a record is smaller than the record.
pub proof fn lemma_field_smaller(rec: Record, key: Seq<char>)
    requires
        field(rec, key) is Some,
    ensures
        decreases_to!(rec => field(rec, key)->Some_0),
{
    if let Record::Node(n) = rec {
        let i = lemma_field_position(n.fields@, key);
        assert(decreases_to!(n.fields => n.fields[i]));
        assert(decreases_to!(rec => n.fields[i].value));
    }
}

/// Finds the first field named `key`.
pub fn find_field<'a>(entries: &'a Vec<Entry>, key: &str) -> (r: Option<&'a Record>)
    ensures
        r.is_none() == field_of(entries@, key@).is_none(),
        r matches Some(x) ==> field_of(entries@, key@) == Some(*x),
{
    let mut i: usize = 0;
    proof {
        assert(entries@.subrange(0, entries@.len() as int) =~= entries@);
    }
    while i < entries.len()
        invariant
            i <= entries.len(),
            field_of(entries@, key@) == field_of(entries@.subrange(i as int, entries@.len() as int), key@),
        decreases entries.len() - i,
    {
        let ghost rest = entries@.subrange(i as int, entries@.len() as int);
        proof {
            assert(rest.drop_first() =~= entries@.subrange(i as int + 1, entries@.len() as int));
        }
        if same_text(entries[i].key.as_str(), key) {
            return Some(&entries[i].value);
        }
        i = i + 1;
    }
    None
}

/// A record that the reader refuses, naming the field at fault.
fn malformed(field: &str) -> (r: NodeError)
    ensures
        r matches NodeError::MalformedRecord { field: f } && f@ == field@,
{
    NodeError::MalformedRecord { field: field.to_owned() }
}

/// The field named `key` of a node record, or the error that names it.
pub fn required_field<'a>(rec: &'a Record, key: &str) -> (r: Result<&'a Record, NodeError>)
    ensures
        r matches Ok(x) ==> field(*rec, key@) == Some(*x),
        r is Err <==> field(*rec, key@).is_none(),
        r matches Err(e) ==> e is MalformedRecord,
{
    match rec {
        Record::Node(n) => match find_field(&n.fields, key) {
            Some(x) => Ok(x),
            None => Err(malformed(key)),
        },
        _ => Err(malformed(key)),
    }
}

/// Whether the record is a node tagged `t`.
pub fn has_tag(rec: &Record, t: &str) -> (r: bool)
    ensures
        r == (tag(*rec) == Some(t@)),
{
    match rec {
        Record::Node(n) => same_text(n.tag.as_str(), t),
        _ => false,
    }
}

/// The error for a record that is no node, or whose tag `family` does not register.
pub fn unknown_or_malformed(rec: &Record, family: Family) -> (r: NodeError)
    ensures
        rec is Node ==> (r matches NodeError::UnknownKind { family: f, tag: t } && f == family
            && tag(*rec) == Some(t@)),
        !(rec is Node) ==> r is MalformedRecord,
{
    match rec {
        Record::Node(n) => NodeError::UnknownKind { family, tag: n.tag.clone() },
        _ => malformed("type"),
    }
}

pub fn entry(key: &str, value: Record) -> (r: Entry)
    ensures
        r.key@ == key@,
        r.value == value,
{
    Entry { key: key.to_owned(), value }
}

/// A node record with one field.
pub fn node1(t: &str, k: &str, v: Record) -> (r: Record)
    ensures
        tag(r) == Some(t@),
        field(r, k@) == Some(v),
{
    let fields = vec![entry(k, v)];
    Record::Node(Node { tag: t.to_owned(), fields })
}

/// A node record with two fields under different names.
pub fn node2(t: &str, k1: &str, v1: Record, k2: &str, v2: Record) -> (r: Record)
    requires
        k1@ != k2@,
    ensures
        tag(r) == Some(t@),
        field(r, k1@) == Some(v1),
        field(r, k2@) == Some(v2),
{
    let fields = vec![entry(k1, v1), entry(k2, v2)];
    proof {
        assert(fields@.drop_first() =~= seq![fields@[1]]);
        assert(field_of(fields@.drop_first(), k2@) == Some(v2));
    }
    Record::Node(Node { tag: t.to_owned(), fields })
}

} // verus!
