//! Presence checks on the optional fields of a request.
use vstd::prelude::*;

verus! {

/// A field that an operation requires was absent.
#[derive(Debug, Clone)]
pub struct MissingField {
    pub field: String,
}

pub open spec fn missing_message(field: Seq<char>) -> Seq<char> {
    "Field `"@ + field + "` is empty, but is required"@
}

impl MissingField {
    pub fn new(fieldname: &str) -> (r: MissingField)
        ensures
            r.field@ == fieldname@,
    {
        MissingField { field: String::from_str(fieldname) }
    }

    /// The text that names the missing field.
    pub fn message(&self) -> (r: String)
        ensures
            r@ == missing_message(self.field@),
    {
        let mut r = String::from_str("Field `");
        r.append(self.field.as_str());
        r.append("` is empty, but is required");
        r
    }
}

/// Hands back the value of a field that must be present, or the error that
/// names it.
pub fn get_or_err<'a, T>(field: Option<&'a T>, fieldname: &str) -> (r: Result<&'a T, MissingField>)
    ensures
        match field {
            Some(v) => r == Ok::<&'a T, MissingField>(v),
            None => r is Err && r->Err_0.field@ == fieldname@,
        },
{
    match field {
        Some(val) => Ok(val),
        None => Err(MissingField::new(fieldname)),
    }
}

/// Succeeds exactly when the field holds a value.
pub fn err_if_none<T>(field: &Option<T>, fieldname: &str) -> (r: Result<(), MissingField>)
    ensures
        r is Ok <==> field is Some,
        r is Err ==> r->Err_0.field@ == fieldname@,
{
    match field {
        Some(_) => Ok(()),
        None => Err(MissingField::new(fieldname)),
    }
}

} // verus!
