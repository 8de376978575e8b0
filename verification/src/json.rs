//! The library's own JSON document tree.
//!
//! The outside parser hands every parsed body over as a [`JsonValue`]: a
//! plain tree the library owns, so that every lookup and every kind test
//! the decoder makes is verified code. [`JsonData`] is the tree's
//! mathematical value; object keys are compared by their UTF-8 bytes.

use vstd::prelude::*;
use vstd::string::StringSliceAdditionalSpecFns;
use vstd::utf8::encode_utf8;

verus! {

/// A number node: the value as the bit pattern of an IEEE 754
/// double-precision number, and, where the wire carried an unsigned
/// integer, that integer exactly.
#[derive(Clone, Copy, PartialEq, Eq, Structural, Debug)]
pub struct JsonNum {
    pub bits: u64,
    pub uint: Option<u64>,
}

/// One node of a parsed JSON document.
pub enum JsonValue {
    Null,
    Bool(bool),
    Num(JsonNum),
    Text(String),
    Array(Vec<JsonValue>),
    Object(Vec<(String, JsonValue)>),
}

/// The mathematical value of a [`JsonValue`]: strings as character
/// sequences, object keys as their UTF-8 bytes, entries in wire order.
pub ghost enum JsonData {
    Null,
    Bool(bool),
    Num(JsonNum),
    Text(Seq<char>),
    Array(Seq<JsonData>),
    Object(Seq<(Seq<u8>, JsonData)>),
}

impl JsonValue {
    pub open spec fn model(self) -> JsonData
        decreases self,
    {
        match self {
            JsonValue::Null => JsonData::Null,
            JsonValue::Bool(b) => JsonData::Bool(b),
            JsonValue::Num(n) => JsonData::Num(n),
            JsonValue::Text(s) => JsonData::Text(s@),
            JsonValue::Array(items) => JsonData::Array(model_items(items@)),
            JsonValue::Object(entries) => JsonData::Object(model_entries(entries@)),
        }
    }
}

pub open spec fn model_items(items: Seq<JsonValue>) -> Seq<JsonData>
    decreases items,
{
    if items.len() == 0 {
        Seq::empty()
    } else {
        seq![items.first().model()] + model_items(items.drop_first())
    }
}

pub open spec fn model_entries(entries: Seq<(String, JsonValue)>) -> Seq<(Seq<u8>, JsonData)>
    decreases entries,
{
    if entries.len() == 0 {
        Seq::empty()
    } else {
        seq![(encode_utf8(entries.first().0@), entries.first().1.model())] + model_entries(
            entries.drop_first(),
        )
    }
}

/// The first entry under this key, by UTF-8 byte comparison.
pub open spec fn spec_lookup(entries: Seq<(Seq<u8>, JsonData)>, key: Seq<u8>) -> Option<JsonData>
    decreases entries.len(),
{
    if entries.len() == 0 {
        None
    } else if entries.first().0 == key {
        Some(entries.first().1)
    } else {
        spec_lookup(entries.drop_first(), key)
    }
}

/// The value under this key when the node is an object that has it.
pub open spec fn spec_get(doc: JsonData, key: Seq<u8>) -> Option<JsonData> {
    match doc {
        JsonData::Object(entries) => spec_lookup(entries, key),
        _ => None,
    }
}

fn eq_bytes(a: &[u8], b: &[u8]) -> (r: bool)
    ensures
        r == (a@ == b@),
{
    let n = a.len();
    if n != b.len() {
        assert(a@ != b@) by {
            assert(a@.len() != b@.len());
        }
        return false;
    }
    let mut i: usize = 0;
    while i < n
        invariant
            n == a@.len() == b@.len(),
            0 <= i <= n,
            forall|j: int| 0 <= j < i ==> a@[j] == b@[j],
        decreases n - i,
    {
        if a[i] != b[i] {
            return false;
        }
        i += 1;
    }
    assert(a@ =~= b@);
    true
}

impl JsonValue {
    /// The child under this key, when this node is an object holding it.
    pub fn get_key<'a>(&'a self, key: &str) -> (r: Option<&'a JsonValue>)
        ensures
            match r {
                Some(child) => spec_get(self.model(), key.spec_bytes()) == Some(child.model()),
                None => spec_get(self.model(), key.spec_bytes()) is None,
            },
    {
        match self {
            JsonValue::Object(entries) => {
                let ghost kb = key.spec_bytes();
                let n = entries.len();
                proof {
                    assert(entries@.skip(0) =~= entries@);
                }
                let mut i: usize = 0;
                while i < n
                    invariant
                        n == entries@.len(),
                        0 <= i <= n,
                        self.model() == JsonData::Object(model_entries(entries@)),
                        spec_lookup(model_entries(entries@), kb) == spec_lookup(
                            model_entries(entries@.skip(i as int)),
                            kb,
                        ),
                        kb == key.spec_bytes(),
                    decreases n - i,
                {
                    proof {
                        assert(entries@.skip(i as int).first() == entries@[i as int]);
                    }
                    if eq_bytes(entries[i].0.as_str().as_bytes(), key.as_bytes()) {
                        proof {
                            let ms = model_entries(entries@.skip(i as int));
                            assert(ms.first() == (
                                encode_utf8(entries@[i as int].0@),
                                entries@[i as int].1.model(),
                            ));
                            assert(ms.len() != 0);
                            assert(ms.first().0 == kb);
                            assert(spec_lookup(ms, kb) == Some(entries@[i as int].1.model()));
                            assert(spec_get(self.model(), kb) == Some(
                                entries@[i as int].1.model(),
                            ));
                        }
                        return Some(&entries[i].1);
                    }
                    proof {
                        assert(model_entries(entries@.skip(i as int)).first() == (
                            encode_utf8(entries@[i as int].0@),
                            entries@[i as int].1.model(),
                        ));
                        assert(entries@.skip(i as int).drop_first() =~= entries@.skip(
                            i as int + 1,
                        ));
                        assert(model_entries(entries@.skip(i as int)).drop_first()
                            =~= model_entries(entries@.skip(i as int).drop_first()));
                    }
                    i += 1;
                }
                proof {
                    assert(entries@.skip(n as int) =~= Seq::<(String, JsonValue)>::empty());
                }
                None
            },
            _ => None,
        }
    }

    /// The boolean this node holds, when it is a boolean node.
    pub fn as_bool(&self) -> (r: Option<bool>)
        ensures
            r == (match self.model() {
                JsonData::Bool(b) => Some(b),
                _ => None::<bool>,
            }),
    {
        match self {
            JsonValue::Bool(b) => Some(*b),
            _ => None,
        }
    }

    /// The number this node holds, as double-precision bits.
    pub fn as_num_bits(&self) -> (r: Option<u64>)
        ensures
            r == (match self.model() {
                JsonData::Num(n) => Some(n.bits),
                _ => None::<u64>,
            }),
    {
        match self {
            JsonValue::Num(n) => Some(n.bits),
            _ => None,
        }
    }

    /// The unsigned integer this node holds exactly, if it is one.
    pub fn as_uint(&self) -> (r: Option<u64>)
        ensures
            r == (match self.model() {
                JsonData::Num(n) => n.uint,
                _ => None::<u64>,
            }),
    {
        match self {
            JsonValue::Num(n) => n.uint,
            _ => None,
        }
    }

    /// The text this node holds, when it is a string node.
    pub fn as_text(&self) -> (r: Option<String>)
        ensures
            match self.model() {
                JsonData::Text(t) => r matches Some(s) && s@ == t,
                _ => r is None,
            },
    {
        match self {
            JsonValue::Text(s) => Some(s.as_str().to_owned()),
            _ => None,
        }
    }

    /// Whether this node is a null.
    pub fn is_null(&self) -> (r: bool)
        ensures
            r == (self.model() is Null),
    {
        match self {
            JsonValue::Null => true,
            _ => false,
        }
    }
}

} // verus!
