//! A model of the host's dynamically typed call values.
//!
//! The host exchanges JSON-object-like values: absent/null, booleans,
//! unsigned numbers, strings, and objects with string keys. [`WireValue`]
//! holds exactly those shapes; any host value outside them is carried as
//! [`WireValue::Opaque`], which no record decodes from. [`WireVal`] is the
//! spec-level image of a wire value, with strings as `Seq<char>` and
//! objects as sequences of key/value pairs.

use vstd::prelude::*;

verus! {

/// A dynamically typed value as it crosses the host boundary.
pub enum WireValue {
    /// The host's empty sentinel: a missing, null or undefined value.
    Absent,
    Bool(bool),
    Uint(u64),
    Str(String),
    /// An object: string keys paired with wire values, in key order of
    /// construction.
    Object(Vec<(String, WireValue)>),
    /// A host value of any shape this model does not represent.
    Opaque,
}

/// Spec-level image of a wire value.
#[verifier::ext_equal]
pub ghost enum WireVal {
    Absent,
    Bool(bool),
    Uint(u64),
    Str(Seq<char>),
    Object(Seq<(Seq<char>, WireVal)>),
    Opaque,
}

/// The spec-level image of an exec wire value.
pub open spec fn wire_val_of(v: WireValue) -> WireVal
    decreases v, 0int,
{
    match v {
        WireValue::Absent => WireVal::Absent,
        WireValue::Bool(b) => WireVal::Bool(b),
        WireValue::Uint(n) => WireVal::Uint(n),
        WireValue::Str(s) => WireVal::Str(s@),
        WireValue::Object(fields) => WireVal::Object(fields_view(fields@)),
        WireValue::Opaque => WireVal::Opaque,
    }
}

/// The spec-level image of an object's field list.
pub open spec fn fields_view(fs: Seq<(String, WireValue)>) -> Seq<(Seq<char>, WireVal)>
    decreases fs, 1int,
{
    Seq::new(
        fs.len(),
        |i: int|
            if 0 <= i < fs.len() {
                (fs[i].0@, wire_val_of(fs[i].1))
            } else {
                (Seq::empty(), WireVal::Absent)
            },
    )
}

impl View for WireValue {
    type V = WireVal;

    open spec fn view(&self) -> WireVal {
        wire_val_of(*self)
    }
}

/// The value bound to `key` in an object's field list: the first binding
/// where the key matches, or `None` where no key matches.
pub open spec fn wire_lookup(fs: Seq<(Seq<char>, WireVal)>, key: Seq<char>) -> Option<WireVal>
    decreases fs.len(),
{
    if fs.len() == 0 {
        None
    } else if fs[0].0 == key {
        Some(fs[0].1)
    } else {
        wire_lookup(fs.drop_first(), key)
    }
}

/// A lookup skips every leading binding whose key differs.
pub proof fn lemma_lookup_skip(fs: Seq<(Seq<char>, WireVal)>, key: Seq<char>, i: int)
    requires
        0 <= i <= fs.len(),
        forall|j: int| 0 <= j < i ==> fs[j].0 != key,
    ensures
        wire_lookup(fs, key) == wire_lookup(fs.skip(i), key),
    decreases i,
{
    if i == 0 {
        assert(fs.skip(0) =~= fs);
    } else {
        let rest = fs.drop_first();
        assert(rest =~= fs.skip(1));
        assert(forall|j: int| 0 <= j < i - 1 ==> rest[j] == fs[j + 1]);
        lemma_lookup_skip(rest, key, i - 1);
        assert(rest.skip(i - 1) =~= fs.skip(i));
    }
}

/// A lookup finds the value at the first position whose key matches.
pub proof fn lemma_lookup_at(fs: Seq<(Seq<char>, WireVal)>, key: Seq<char>, i: int)
    requires
        0 <= i < fs.len(),
        fs[i].0 == key,
        forall|j: int| 0 <= j < i ==> fs[j].0 != key,
    ensures
        wire_lookup(fs, key) == Some(fs[i].1),
{
    lemma_lookup_skip(fs, key, i);
    assert(fs.skip(i)[0] == fs[i]);
    assert(fs.skip(i).len() > 0);
}

/// Finds the first binding of `key` in an object's field list.
pub fn lookup_field<'a>(fields: &'a Vec<(String, WireValue)>, key: &String) -> (r: Option<
    &'a WireValue,
>)
    ensures
        match r {
            Some(v) => wire_lookup(fields_view(fields@), key@) == Some(v@),
            None => wire_lookup(fields_view(fields@), key@) is None,
        },
{
    let ghost fsv = fields_view(fields@);
    let mut i: usize = 0;
    while i < fields.len()
        invariant
            0 <= i <= fields.len(),
            fsv == fields_view(fields@),
            fsv.len() == fields@.len(),
            forall|j: int| 0 <= j < i ==> fsv[j].0 != key@,
        decreases fields.len() - i,
    {
        if fields[i].0 == *key {
            proof {
                lemma_lookup_skip(fsv, key@, i as int);
                assert(fsv.skip(i as int)[0] == fsv[i as int]);
            }
            return Some(&fields[i].1);
        }
        i += 1;
    }
    proof {
        lemma_lookup_skip(fsv, key@, fields@.len() as int);
        assert(fsv.skip(fields@.len() as int).len() == 0);
    }
    None
}

} // verus!
