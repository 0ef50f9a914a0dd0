//! The request-validation gate and the translation of repository and
//! validation outcomes into transport-level status codes.

use vstd::prelude::*;
use vstd::string::{StrSliceExecFns, StringExecFns};
use crate::repositories::{CreateItem, Item, ItemRepository, RepositoryError, UpdateItem};

verus! {

/// The transport-level result codes the translator produces.
#[derive(Debug, Clone, Copy, PartialEq, Eq)]
pub enum StatusCode {
    Okay,
    Created,
    NoContent,
    BadRequest,
    NotFound,
    InternalServerError,
}

/// Greatest number of characters a record name may have.
pub const NAME_MAX_LEN: usize = 100;

/// A declared field constraint that an input payload can violate.
#[derive(Debug, Clone, Copy, PartialEq, Eq)]
pub enum ValidationRule {
    NameEmpty,
    NameTooLong,
}

/// A name satisfies its declared rules: at least one and at most
/// [`NAME_MAX_LEN`] characters.
pub open spec fn valid_name(name: Seq<char>) -> bool {
    1 <= name.len() <= NAME_MAX_LEN
}

/// The rules a name violates, in declaration order.
pub open spec fn name_violations(name: Seq<char>) -> Seq<ValidationRule> {
    if name.len() < 1 {
        seq![ValidationRule::NameEmpty]
    } else if name.len() > NAME_MAX_LEN {
        seq![ValidationRule::NameTooLong]
    } else {
        Seq::empty()
    }
}

/// What it means for an input payload to satisfy its declared field rules,
/// with an executable check that decides it.
pub trait Validate: Sized {
    /// The payload satisfies every declared rule.
    spec fn valid(&self) -> bool;

    /// The rules the payload violates, in declaration order.
    spec fn violations(&self) -> Seq<ValidationRule>;

    /// Decides `valid`; on failure reports exactly the violated rules.
    fn validate(&self) -> (r: Result<(), Vec<ValidationRule>>)
        ensures
            r is Ok <==> self.valid(),
            r matches Err(v) ==> v@ == self.violations() && v@.len() > 0,
    ;
}

impl Validate for CreateItem {
    open spec fn valid(&self) -> bool {
        valid_name(self.name@)
    }

    open spec fn violations(&self) -> Seq<ValidationRule> {
        name_violations(self.name@)
    }

    fn validate(&self) -> (r: Result<(), Vec<ValidationRule>>) {
        let len = self.name.as_str().unicode_len();
        if len < 1 {
            Err(vec![ValidationRule::NameEmpty])
        } else if len > NAME_MAX_LEN {
            Err(vec![ValidationRule::NameTooLong])
        } else {
            Ok(())
        }
    }
}

impl Validate for UpdateItem {
    open spec fn valid(&self) -> bool {
        self.name matches Some(n) ==> valid_name(n@)
    }

    open spec fn violations(&self) -> Seq<ValidationRule> {
        match self.name {
            Some(n) => name_violations(n@),
            None => Seq::empty(),
        }
    }

    fn validate(&self) -> (r: Result<(), Vec<ValidationRule>>) {
        match &self.name {
            Some(name) => {
                let len = name.as_str().unicode_len();
                if len < 1 {
                    Err(vec![ValidationRule::NameEmpty])
                } else if len > NAME_MAX_LEN {
                    Err(vec![ValidationRule::NameTooLong])
                } else {
                    Ok(())
                }
            },
            None => Ok(()),
        }
    }
}

/// The message a violated rule carries.
pub open spec fn spec_rule_message(rule: ValidationRule) -> Seq<char> {
    match rule {
        ValidationRule::NameEmpty => "Can not be empty"@,
        ValidationRule::NameTooLong => "Over text length"@,
    }
}

/// The messages of the violated rules, joined by a single delimiter.
pub open spec fn spec_violations_message(rules: Seq<ValidationRule>) -> Seq<char>
    decreases rules.len(),
{
    if rules.len() == 0 {
        Seq::empty()
    } else if rules.len() == 1 {
        spec_rule_message(rules[0])
    } else {
        spec_violations_message(rules.drop_last()) + ","@ + spec_rule_message(rules.last())
    }
}

/// The rejection message of an unparsable payload.
pub open spec fn spec_parse_error_message(parse_error: Seq<char>) -> Seq<char> {
    "Json parse error: ["@ + parse_error + "]"@
}

/// The rejection message of a parsable payload that violates its rules.
pub open spec fn spec_validation_error_message(rules: Seq<ValidationRule>) -> Seq<char> {
    "Validation error ["@ + spec_violations_message(rules) + "]"@
}

fn rule_message(rule: &ValidationRule) -> (r: &'static str)
    ensures
        r@ == spec_rule_message(*rule),
{
    match rule {
        ValidationRule::NameEmpty => "Can not be empty",
        ValidationRule::NameTooLong => "Over text length",
    }
}

fn violations_message(rules: &Vec<ValidationRule>) -> (r: String)
    ensures
        r@ == spec_violations_message(rules@),
{
    let mut out = String::new();
    for i in it: 0..rules.len()
        invariant
            out@ == spec_violations_message(rules@.take(i as int)),
    {
        if i > 0 {
            out.append(",");
        }
        out.append(rule_message(&rules[i]));
        proof {
            assert(rules@.take(i + 1int).drop_last() =~= rules@.take(i as int));
            assert(rules@.take(i + 1int).last() == rules@[i as int]);
        }
    }
    proof {
        assert(rules@.take(rules@.len() as int) =~= rules@);
    }
    out
}

/// A request payload that the two-stage decoder admitted: it parsed as the
/// expected shape and satisfies every declared validation rule. Values of
/// this type exist only through [`ValidatedJson::from_request`], so a
/// repository operation is reachable only with validated input.
#[derive(Debug)]
pub struct ValidatedJson<T: Validate>(T);

impl<T: Validate> ValidatedJson<T> {
    /// The payload the decoder admitted.
    pub closed spec fn payload(self) -> T {
        self.0
    }

    #[verifier::type_invariant]
    spec fn admitted(self) -> bool {
        self.0.valid()
    }

    /// The two-stage decoder. `parsed` is the outcome of parsing the
    /// raw request body as the expected shape: the parsed payload, or the
    /// parse error's text. A payload that fails to parse, or parses but
    /// violates a declared rule, is rejected as a bad request before any
    /// repository operation is reachable; the two failures carry distinct
    /// messages.
    pub fn from_request(parsed: Result<T, String>) -> (r: Result<
        ValidatedJson<T>,
        (StatusCode, String),
    >)
        ensures
            match parsed {
                Ok(value) => {
                    &&& value.valid() ==> (r matches Ok(vj) && vj.payload() == value)
                    &&& !value.valid() ==> (r matches Err(rej) && rej.0 == StatusCode::BadRequest
                        && rej.1@ == spec_validation_error_message(value.violations()))
                },
                Err(parse_error) => r matches Err(rej) && rej.0 == StatusCode::BadRequest
                    && rej.1@ == spec_parse_error_message(parse_error@),
            },
    {
        match parsed {
            Ok(value) => match value.validate() {
                Ok(()) => Ok(ValidatedJson(value)),
                Err(rules) => {
                    let message = String::from_str("Validation error [").concat(
                        violations_message(&rules).as_str(),
                    ).concat("]");
                    Err((StatusCode::BadRequest, message))
                },
            },
            Err(parse_error) => {
                let message = String::from_str("Json parse error: [").concat(
                    parse_error.as_str(),
                ).concat("]");
                Err((StatusCode::BadRequest, message))
            },
        }
    }

    /// Hands the admitted payload on; it is known to satisfy its rules.
    pub fn into_inner(self) -> (r: T)
        ensures
            r == self.payload(),
            r.valid(),
    {
        proof {
            use_type_invariant(&self);
        }
        self.0
    }
}

/// The status a repository failure translates to: only `NotFound` is a
/// client-visible "not found"; every other failure is an opaque server
/// fault.
pub open spec fn spec_error_status(e: RepositoryError) -> StatusCode {
    match e {
        RepositoryError::NotFound(_) => StatusCode::NotFound,
        RepositoryError::Unexpected(_) => StatusCode::InternalServerError,
    }
}

fn error_status(e: &RepositoryError) -> (r: StatusCode)
    ensures
        r == spec_error_status(*e),
{
    match e {
        RepositoryError::NotFound(_) => StatusCode::NotFound,
        RepositoryError::Unexpected(_) => StatusCode::InternalServerError,
    }
}

/// Translates a creation outcome: "created" with the stored record, or the
/// failure's status with no record.
pub fn translate_create(r: Result<Item, RepositoryError>) -> (t: (StatusCode, Option<Item>))
    ensures
        match r {
            Ok(item) => t == (StatusCode::Created, Some(item)),
            Err(e) => t == (spec_error_status(e), None::<Item>),
        },
{
    match r {
        Ok(item) => (StatusCode::Created, Some(item)),
        Err(e) => (error_status(&e), None),
    }
}

/// Translates a look-up outcome: "ok" with the record, or the failure's
/// status with no record.
pub fn translate_find(r: Result<Item, RepositoryError>) -> (t: (StatusCode, Option<Item>))
    ensures
        match r {
            Ok(item) => t == (StatusCode::Okay, Some(item)),
            Err(e) => t == (spec_error_status(e), None::<Item>),
        },
{
    match r {
        Ok(item) => (StatusCode::Okay, Some(item)),
        Err(e) => (error_status(&e), None),
    }
}

/// Translates a listing outcome: "ok" with the records, or the failure's
/// status with none.
pub fn translate_all(r: Result<Vec<Item>, RepositoryError>) -> (t: (
    StatusCode,
    Option<Vec<Item>>,
))
    ensures
        match r {
            Ok(items) => t == (StatusCode::Okay, Some(items)),
            Err(e) => t == (spec_error_status(e), None::<Vec<Item>>),
        },
{
    match r {
        Ok(items) => (StatusCode::Okay, Some(items)),
        Err(e) => (error_status(&e), None),
    }
}

/// Translates an update outcome: on success the code mirrors creation, as
/// the surrounding system expects, with the merged record; otherwise the
/// failure's status with no record.
pub fn translate_update(r: Result<Item, RepositoryError>) -> (t: (StatusCode, Option<Item>))
    ensures
        match r {
            Ok(item) => t == (StatusCode::Created, Some(item)),
            Err(e) => t == (spec_error_status(e), None::<Item>),
        },
{
    match r {
        Ok(item) => (StatusCode::Created, Some(item)),
        Err(e) => (error_status(&e), None),
    }
}

/// Translates a removal outcome: "no content", or the failure's status.
pub fn translate_delete(r: Result<(), RepositoryError>) -> (t: StatusCode)
    ensures
        match r {
            Ok(()) => t == StatusCode::NoContent,
            Err(e) => t == spec_error_status(e),
        },
{
    match r {
        Ok(()) => StatusCode::NoContent,
        Err(e) => error_status(&e),
    }
}

/// Stores a new record built from the validated payload: "created" with the
/// stored record on success, a server fault otherwise (creation never fails
/// with "not found").
pub fn create_item<T: ItemRepository>(
    repository: &T,
    payload: ValidatedJson<CreateItem>,
) -> (r: (StatusCode, Option<Item>))
    ensures
        r.1 matches Some(item) ==> ({
            &&& r.0 == StatusCode::Created
            &&& item.id >= 1
            &&& item.name == payload.payload().name
            &&& item.price == payload.payload().price
            &&& item.date == payload.payload().date
            &&& item.store_name == payload.payload().store_name
            &&& valid_name(item.name@)
        }),
        r.1 is None ==> r.0 == StatusCode::InternalServerError,
{
    let value = payload.into_inner();
    translate_create(repository.create(value))
}

/// Looks a record up by id: "ok" with the record, or "not found".
pub fn find_item<T: ItemRepository>(repository: &T, id: i32) -> (r: (StatusCode, Option<Item>))
    ensures
        r.1 matches Some(item) ==> r.0 == StatusCode::Okay && item.id == id,
        r.1 is None ==> r.0 == StatusCode::NotFound || r.0 == StatusCode::InternalServerError,
{
    translate_find(repository.find(id))
}

/// Lists all current records: "ok" with the records, or a server fault.
pub fn all_item<T: ItemRepository>(repository: &T) -> (r: (StatusCode, Option<Vec<Item>>))
    ensures
        r.1 is Some ==> r.0 == StatusCode::Okay,
        r.1 is None ==> r.0 == StatusCode::InternalServerError,
{
    translate_all(repository.all())
}

/// Applies a validated patch to the record stored under `id`: "created" with
/// the merged record on success (the success code mirrors creation), or
/// "not found".
pub fn update_item<T: ItemRepository>(
    repository: &T,
    id: i32,
    payload: ValidatedJson<UpdateItem>,
) -> (r: (StatusCode, Option<Item>))
    ensures
        r.1 matches Some(item) ==> ({
            &&& r.0 == StatusCode::Created
            &&& item.id == id
            &&& (payload.payload().name matches Some(n) ==> item.name == n && valid_name(n@))
            &&& (payload.payload().price matches Some(p) ==> item.price == p)
            &&& (payload.payload().date matches Some(d) ==> item.date == d)
            &&& (payload.payload().store_name matches Some(s) ==> item.store_name == s)
        }),
        r.1 is None ==> r.0 == StatusCode::NotFound || r.0 == StatusCode::InternalServerError,
{
    let value = payload.into_inner();
    translate_update(repository.update(id, value))
}

/// Removes the record stored under `id`: "no content" on success, or
/// "not found".
pub fn delete_item<T: ItemRepository>(repository: &T, id: i32) -> (r: StatusCode)
    ensures
        r == StatusCode::NoContent || r == StatusCode::NotFound || r
            == StatusCode::InternalServerError,
{
    translate_delete(repository.delete(id))
}

} // verus!
