//! Values as they cross the boundary between the user interface and the host.

use vstd::prelude::*;

verus! {

/// One value of a JSON-like payload.
#[derive(Clone, Debug, PartialEq, Eq)]
pub enum WireValue {
    Null,
    Bool(bool),
    /// A whole number that fits in 64 bits.
    Int(i64),
    Str(String),
    /// A value whose contents no command reads: a fractional or oversized
    /// number, an array or an object.
    Other,
}

/// One named field of an invocation's argument object.
#[derive(Clone, Debug, PartialEq, Eq)]
pub struct ArgField {
    pub key: String,
    pub value: WireValue,
}

/// The text held by a value, if it is a string.
pub open spec fn text_of(v: WireValue) -> Option<Seq<char>> {
    match v {
        WireValue::Str(s) => Some(s@),
        _ => None,
    }
}

/// The value of the first field named `key`, if there is one.
pub open spec fn field_value(args: Seq<ArgField>, key: Seq<char>) -> Option<WireValue>
    decreases args.len(),
{
    if args.len() == 0 {
        None
    } else if args[0].key@ == key {
        Some(args[0].value)
    } else {
        field_value(args.drop_first(), key)
    }
}

/// The text of the first field named `key`, if that field exists and holds a
/// string.
pub open spec fn text_field(args: Seq<ArgField>, key: Seq<char>) -> Option<Seq<char>> {
    match field_value(args, key) {
        Some(v) => text_of(v),
        None => None,
    }
}

impl ArgField {
    /// A field named `key` holding `value`.
    pub fn new(key: &str, value: WireValue) -> (r: ArgField)
        ensures
            r.key@ == key@,
            r.value == value,
    {
        ArgField { key: key.to_owned(), value }
    }
}

/// Wraps a command's text result for the wire.
pub fn encode_text(s: String) -> (r: WireValue)
    ensures
        text_of(r) == Some(s@),
{
    WireValue::Str(s)
}

/// Reads the string argument named `key`: fails with `ArgumentDecodeError`
/// when the field is missing or holds anything but a string.
pub fn decode_text_arg(args: &[ArgField], key: &str) -> (r: Result<String, crate::error::BridgeError>)
    ensures
        match text_field(args@, key@) {
            Some(t) => r is Ok && r->Ok_0@ == t,
            None => r == Err::<String, crate::error::BridgeError>(crate::error::BridgeError::ArgumentDecodeError),
        },
{
    let wanted = key.to_owned();
    let mut i: usize = 0;
    assert(args@.subrange(0, args@.len() as int) =~= args@);
    while i < args.len()
        invariant
            0 <= i <= args@.len(),
            wanted@ == key@,
            field_value(args@, key@) == field_value(args@.subrange(i as int, args@.len() as int), key@),
        decreases args@.len() - i,
    {
        let ghost rest = args@.subrange(i as int, args@.len() as int);
        assert(rest.drop_first() =~= args@.subrange(i + 1, args@.len() as int));
        if args[i].key == wanted {
            return match &args[i].value {
                WireValue::Str(s) => Ok(s.clone()),
                _ => Err(crate::error::BridgeError::ArgumentDecodeError),
            };
        }
        i = i + 1;
    }
    Err(crate::error::BridgeError::ArgumentDecodeError)
}

} // verus!
