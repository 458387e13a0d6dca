//! The rules that a request must meet before the lifecycle sees it, and the
//! record of those it fails.

use vstd::prelude::*;
use vstd::string::StrSliceExecFns;

use crate::text::{concat, join, joined, str_eq, text_of, texts};

verus! {

/// One failed rule: its code and the message for the caller, if any.
#[derive(Debug)]
pub struct ValidationError {
    pub code: String,
    pub message: Option<String>,
}

/// What a failed rule holds.
pub struct RuleView {
    pub code: Seq<char>,
    pub message: Option<Seq<char>>,
}

impl View for ValidationError {
    type V = RuleView;

    open spec fn view(&self) -> RuleView {
        RuleView { code: self.code@, message: text_of(self.message) }
    }
}

impl ValidationError {
    /// A failed rule without a message.
    pub fn new(code: &str) -> (error: Self)
        ensures
            error@ == (RuleView { code: code@, message: None }),
    {
        ValidationError { code: code.to_owned(), message: None }
    }

    /// This failed rule with `message` for the caller.
    pub fn with_message(self, message: &str) -> (error: Self)
        ensures
            error@ == (RuleView { code: self@.code, message: Some(message@) }),
    {
        ValidationError { code: self.code, message: Some(message.to_owned()) }
    }
}

/// The failed rules of one field.
#[derive(Debug)]
pub struct FieldErrors {
    pub field: String,
    pub errors: Vec<ValidationError>,
}

/// What the failed rules of one field hold.
pub struct FieldView {
    pub field: Seq<char>,
    pub errors: Seq<RuleView>,
}

impl View for FieldErrors {
    type V = FieldView;

    open spec fn view(&self) -> FieldView {
        FieldView {
            field: self.field@,
            errors: self.errors@.map_values(|error: ValidationError| error@),
        }
    }
}

/// The failed rules of a request, field by field in the order in which the
/// fields first failed.
#[derive(Debug)]
pub struct ValidationErrors {
    pub fields: Vec<FieldErrors>,
}

impl View for ValidationErrors {
    type V = Seq<FieldView>;

    open spec fn view(&self) -> Seq<FieldView> {
        self.fields@.map_values(|field: FieldErrors| field@)
    }
}

/// The place of the field `field` among `fields`, or their number where it
/// is not among them.
pub open spec fn field_place(fields: Seq<FieldView>, field: Seq<char>) -> int
    decreases fields.len(),
{
    if fields.len() == 0 {
        0
    } else if fields[0].field == field {
        0
    } else {
        1 + field_place(fields.drop_first(), field)
    }
}

/// The record `fields` with one more failed rule of the field `field`.
pub open spec fn with_failure(fields: Seq<FieldView>, field: Seq<char>, rule: RuleView) -> Seq<
    FieldView,
> {
    let i = field_place(fields, field);
    if i < fields.len() {
        fields.update(i, FieldView { field, errors: fields[i].errors.push(rule) })
    } else {
        fields.push(FieldView { field, errors: seq![rule] })
    }
}

/// The place of `field` is at most the number of fields, and the field at
/// that place is the first of that name.
pub proof fn lemma_field_place(fields: Seq<FieldView>, field: Seq<char>)
    ensures
        0 <= field_place(fields, field) <= fields.len(),
        field_place(fields, field) < fields.len() ==> fields[field_place(fields, field)].field
            == field,
        forall|j: int| 0 <= j < field_place(fields, field) ==> (#[trigger] fields[j]).field != field,
    decreases fields.len(),
{
    if fields.len() > 0 && fields[0].field != field {
        let rest = fields.drop_first();
        lemma_field_place(rest, field);
        assert forall|j: int| 0 <= j < field_place(fields, field) implies (
        #[trigger] fields[j]).field != field by {
            if j > 0 {
                assert(fields[j] == rest[j - 1]);
            }
        }
    }
}

/// The first place with a given property is the place of the field.
pub proof fn lemma_field_place_is(fields: Seq<FieldView>, field: Seq<char>, i: int)
    requires
        0 <= i <= fields.len(),
        i < fields.len() ==> fields[i].field == field,
        forall|j: int| 0 <= j < i ==> (#[trigger] fields[j]).field != field,
    ensures
        field_place(fields, field) == i,
{
    lemma_field_place(fields, field);
    let p = field_place(fields, field);
    if p < i {
        assert(fields[p].field != field);
    } else if i < p {
        assert(fields[i].field != field);
    }
}

impl ValidationErrors {
    /// A record without a failed rule.
    pub fn new() -> (errors: Self)
        ensures
            errors@ == Seq::<FieldView>::empty(),
    {
        let errors = ValidationErrors { fields: Vec::new() };
        assert(errors@ =~= Seq::<FieldView>::empty());
        errors
    }

    /// Whether no rule failed.
    pub fn is_empty(&self) -> (b: bool)
        ensures
            b == (self@.len() == 0),
    {
        self.fields.len() == 0
    }

    /// The place of the field `field`, or the number of fields where it has
    /// no failed rule yet.
    fn place_of(&self, field: &str) -> (i: usize)
        ensures
            i == field_place(self@, field@),
            i <= self.fields.len(),
    {
        let mut i: usize = 0;
        while i < self.fields.len()
            invariant
                i <= self.fields.len(),
                forall|j: int| 0 <= j < i ==> (#[trigger] self@[j]).field != field@,
            decreases self.fields.len() - i,
        {
            if str_eq(self.fields[i].field.as_str(), field) {
                proof {
                    lemma_field_place_is(self@, field@, i as int);
                }
                return i;
            }
            i += 1;
        }
        proof {
            lemma_field_place_is(self@, field@, i as int);
        }
        i
    }

    /// Records one more failed rule of the field `field`.
    pub fn add(&mut self, field: &str, error: ValidationError)
        ensures
            final(self)@ == with_failure(old(self)@, field@, error@),
    {
        let i = self.place_of(field);
        if i < self.fields.len() {
            let FieldErrors { field: name, errors } = self.fields.remove(i);
            let mut errors = errors;
            errors.push(error);
            self.fields.insert(i, FieldErrors { field: name, errors });
            proof {
                lemma_field_place(old(self)@, field@);
                let expected = with_failure(old(self)@, field@, error@);
                assert(self@[i as int].errors =~= old(self)@[i as int].errors.push(error@));
                assert(self@[i as int] == expected[i as int]);
                assert forall|j: int| 0 <= j < self@.len() implies self@[j] == expected[j] by {
                    if j != i {
                        assert(self.fields@[j] == old(self).fields@[j]);
                    }
                }
                assert(self@ =~= expected);
            }
        } else {
            let mut errors: Vec<ValidationError> = Vec::new();
            errors.push(error);
            self.fields.push(FieldErrors { field: field.to_owned(), errors });
            assert(self@ =~= with_failure(old(self)@, field@, error@)) by {
                assert(self@[i as int].errors =~= seq![error@]);
            }
        }
    }

    /// Records the first failed rule of the field `field`.
    pub fn add_first(&mut self, field: &str, error: ValidationError)
        requires
            forall|j: int| 0 <= j < old(self)@.len() ==> (#[trigger] old(self)@[j]).field != field@,
        ensures
            final(self)@ == old(self)@.push(FieldView { field: field@, errors: seq![error@] }),
    {
        proof {
            lemma_field_place_is(self@, field@, self@.len() as int);
        }
        self.add(field, error);
    }

    /// The record as one line for the caller: for every field its failed
    /// rules, each as the field's name, a colon and the rule's message,
    /// separated by commas; the fields separated by semicolons.
    pub fn message(&self) -> (text: String)
        ensures
            text@ == validation_message(self@),
    {
        let mut lines: Vec<String> = Vec::new();
        let mut i: usize = 0;
        while i < self.fields.len()
            invariant
                i <= self.fields.len(),
                lines.len() == i,
                forall|j: int| 0 <= j < i ==> (#[trigger] lines[j])@ == field_message(self@[j]),
            decreases self.fields.len() - i,
        {
            let field = &self.fields[i];
            let mut parts: Vec<String> = Vec::new();
            let mut k: usize = 0;
            while k < field.errors.len()
                invariant
                    k <= field.errors.len(),
                    parts.len() == k,
                    forall|j: int|
                        0 <= j < k ==> (#[trigger] parts[j])@ == rule_message(
                            field@.field,
                            field@.errors[j],
                        ),
                decreases field.errors.len() - k,
            {
                let start = concat(field.field.as_str(), ": ");
                let part = match &field.errors[k].message {
                    Some(message) => concat(start.as_str(), message.as_str()),
                    None => concat(start.as_str(), "validation failed"),
                };
                parts.push(part);
                k += 1;
            }
            assert(texts(parts@) =~= rule_messages(field@));
            lines.push(join(&parts, ", "));
            i += 1;
        }
        assert(texts(lines@) =~= self@.map_values(|field: FieldView| field_message(field)));
        join(&lines, "; ")
    }
}

/// One failed rule as text: the field's name, a colon and the rule's
/// message, or `validation failed` where it has none.
pub open spec fn rule_message(field: Seq<char>, rule: RuleView) -> Seq<char> {
    field + ": "@ + match rule.message {
        Some(message) => message,
        None => "validation failed"@,
    }
}

/// The failed rules of one field as texts, in their order.
pub open spec fn rule_messages(field: FieldView) -> Seq<Seq<char>> {
    field.errors.map_values(|rule: RuleView| rule_message(field.field, rule))
}

/// The failed rules of one field as text, separated by commas.
pub open spec fn field_message(field: FieldView) -> Seq<char> {
    joined(rule_messages(field), ", "@)
}

/// A record of failed rules as one line.
pub open spec fn validation_message(fields: Seq<FieldView>) -> Seq<char> {
    joined(fields.map_values(|field: FieldView| field_message(field)), "; "@)
}

/// The record of one failed rule with a message.
pub open spec fn failure(field: Seq<char>, code: Seq<char>, message: Seq<char>) -> FieldView {
    FieldView { field, errors: seq![RuleView { code, message: Some(message) }] }
}

/// The record of the rule `rule` where it failed; nothing where it held.
pub open spec fn failure_if(failed: bool, rule: FieldView) -> Seq<FieldView> {
    if failed {
        seq![rule]
    } else {
        Seq::empty()
    }
}

/// What `validator::ValidateEmail::validate_email` says of `text`: whether
/// it reads as an email address.
pub uninterp spec fn email_syntax_ok(text: Seq<char>) -> bool;

/// Asks `validator::ValidateEmail::validate_email` whether `text` reads as
/// an email address. The answer depends on the text alone and is named by
/// `email_syntax_ok`.
#[verifier::external_body]
pub(crate) fn validate_email(text: &str) -> (ok: bool)
    ensures
        ok == email_syntax_ok(text@),
{
    validator::ValidateEmail::validate_email(&text)
}

/// Whether `text` has between `min` and `max` characters.
pub fn validate_length(text: &str, min: usize, max: usize) -> (ok: bool)
    ensures
        ok == (min <= text@.len() <= max),
{
    let n = text.unicode_len();
    min <= n && n <= max
}

} // verus!
