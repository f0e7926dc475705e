//! Input rules.

use crate::error::AppError;
use vstd::prelude::*;

verus! {

/// A rule that a value broke: the field it is about and what to tell.
#[derive(Debug)]
pub struct FieldError {
    pub field: String,
    pub message: String,
}

/// The rules that a value broke, in the order of its fields.
#[derive(Debug)]
pub struct ValidationErrors {
    pub errors: Vec<FieldError>,
}

/// The line that tells of one broken rule.
pub open spec fn line_of(error: (Seq<char>, Seq<char>)) -> Seq<char> {
    error.0 + ": "@ + error.1
}

/// The lines of all broken rules, a line break between each two.
pub open spec fn listing(errors: Seq<(Seq<char>, Seq<char>)>) -> Seq<char>
    decreases errors.len(),
{
    if errors.len() == 0 {
        Seq::empty()
    } else if errors.len() == 1 {
        line_of(errors[0])
    } else {
        listing(errors.drop_last()) + "\n"@ + line_of(errors.last())
    }
}

impl View for ValidationErrors {
    type V = Seq<(Seq<char>, Seq<char>)>;

    open spec fn view(&self) -> Seq<(Seq<char>, Seq<char>)> {
        Seq::new(self.errors@.len(), |i: int| (self.errors@[i].field@, self.errors@[i].message@))
    }
}

impl ValidationErrors {
    /// The broken rules as text, one per line.
    pub fn to_text(&self) -> (text: String)
        ensures
            text@ == listing(self@),
    {
        let mut text = String::new();
        let mut i: usize = 0;
        while i < self.errors.len()
            invariant
                i <= self.errors.len(),
                text@ == listing(self@.take(i as int)),
            decreases self.errors.len() - i,
        {
            let ghost done = self@.take(i as int);
            let ghost next = self@.take(i + 1);
            assert(next.drop_last() =~= done);
            if i > 0 {
                text.append("\n");
            }
            text.append(self.errors[i].field.as_str());
            text.append(": ");
            text.append(self.errors[i].message.as_str());
            assert(text@ =~= listing(next));
            i += 1;
        }
        assert(self@.take(i as int) =~= self@);
        text
    }
}

/// A value with rules of its own.
pub trait Validate {
    /// The rules the value breaks, each with its field and what to tell, in
    /// the order of the fields.
    spec fn violations(&self) -> Seq<(Seq<char>, Seq<char>)>;

    /// Holds the value against its rules.
    fn validate(&self) -> (checked: Result<(), ValidationErrors>)
        ensures
            match checked {
                Ok(_) => self.violations().len() == 0,
                Err(errors) => errors@ == self.violations() && errors@.len() > 0,
            },
    ;
}

/// What an extractor yields for a body that was read as `parsed`: the value
/// if it was read and keeps its rules, else the error to answer with.
pub open spec fn extracted<T: Validate>(
    parsed: Result<T, String>,
    rejection: spec_fn(String) -> AppError,
    out: Result<T, AppError>,
) -> bool {
    match parsed {
        Err(why) => out == Err::<T, AppError>(rejection(why)),
        Ok(value) => if value.violations().len() == 0 {
            out == Ok::<T, AppError>(value)
        } else {
            out matches Err(AppError::ValidationError(text)) && text@ == listing(
                value.violations(),
            )
        },
    }
}

/// A form that was read and keeps its rules.
#[derive(Debug, Clone, Copy, Default)]
pub struct ValidatedForm<T>(pub T);

/// A JSON body that was read and keeps its rules.
#[derive(Debug, Clone, Copy, Default)]
pub struct ValidatedJson<T>(pub T);

impl<T: Validate> ValidatedForm<T> {
    /// Accepts a form that was read, if it keeps its rules. `parsed` holds
    /// the form, or the reason why it could not be read.
    pub fn from_request(parsed: Result<T, String>) -> (out: Result<Self, AppError>)
        ensures
            extracted(
                parsed,
                |why: String| AppError::AxumFormRejection(why),
                match out {
                    Ok(form) => Ok(form.0),
                    Err(e) => Err(e),
                },
            ),
    {
        match parsed {
            Err(why) => Err(AppError::AxumFormRejection(why)),
            Ok(value) => match value.validate() {
                Ok(_) => Ok(ValidatedForm(value)),
                Err(errors) => Err(AppError::ValidationError(errors.to_text())),
            },
        }
    }
}

impl<T: Validate> ValidatedJson<T> {
    /// Accepts a JSON body that was read, if it keeps its rules. `parsed`
    /// holds the value, or the reason why the body could not be read.
    pub fn from_request(parsed: Result<T, String>) -> (out: Result<Self, AppError>)
        ensures
            extracted(
                parsed,
                |why: String| AppError::AxumJsonRejection(why),
                match out {
                    Ok(json) => Ok(json.0),
                    Err(e) => Err(e),
                },
            ),
    {
        match parsed {
            Err(why) => Err(AppError::AxumJsonRejection(why)),
            Ok(value) => match value.validate() {
                Ok(_) => Ok(ValidatedJson(value)),
                Err(errors) => Err(AppError::ValidationError(errors.to_text())),
            },
        }
    }
}

/// A letter of the Latin alphabet or a decimal digit.
pub open spec fn is_alnum(c: char) -> bool {
    ('a' <= c && c <= 'z') || ('A' <= c && c <= 'Z') || ('0' <= c && c <= '9')
}

/// A character that may stand before the `@` of an address.
pub open spec fn is_local_char(c: char) -> bool {
    is_alnum(c) || c == '_' || c == '.' || c == '+' || c == '-'
}

/// A character that may stand between the `@` and the first dot after it.
pub open spec fn is_label_char(c: char) -> bool {
    is_alnum(c) || c == '-'
}

/// A character that may stand behind the first dot after the `@`.
pub open spec fn is_domain_char(c: char) -> bool {
    is_alnum(c) || c == '-' || c == '.'
}

/// The text has the shape of an e-mail address with `@` at place `at` and
/// the dot that ends the first label of the domain at place `dot`.
pub open spec fn email_split(s: Seq<char>, at: int, dot: int) -> bool {
    &&& 0 < at
    &&& at + 1 < dot
    &&& dot + 1 < s.len()
    &&& s[at] == '@'
    &&& s[dot] == '.'
    &&& forall|i: int| 0 <= i < at ==> is_local_char(#[trigger] s[i])
    &&& forall|i: int| at < i < dot ==> is_label_char(#[trigger] s[i])
    &&& forall|i: int| dot < i < s.len() ==> is_domain_char(#[trigger] s[i])
}

/// The text has the shape of an e-mail address: one or more local
/// characters, `@`, one or more label characters, a dot, and one or more
/// domain characters up to the end.
pub open spec fn email_shaped(s: Seq<char>) -> bool {
    exists|at: int, dot: int| email_split(s, at, dot)
}

/// The byte of an ASCII character is a local character.
fn is_local_byte(b: u8) -> (r: bool)
    ensures
        r == (b < 128 && is_local_char(b as char)),
{
    is_alnum_byte(b) || b == 95 || b == 46 || b == 43 || b == 45
}

/// The byte of an ASCII character is a label character.
fn is_label_byte(b: u8) -> (r: bool)
    ensures
        r == (b < 128 && is_label_char(b as char)),
{
    is_alnum_byte(b) || b == 45
}

/// The byte of an ASCII character is a domain character.
fn is_domain_byte(b: u8) -> (r: bool)
    ensures
        r == (b < 128 && is_domain_char(b as char)),
{
    is_alnum_byte(b) || b == 45 || b == 46
}

/// The byte of an ASCII character is a letter or a digit.
fn is_alnum_byte(b: u8) -> (r: bool)
    ensures
        r == (b < 128 && is_alnum(b as char)),
{
    (97 <= b && b <= 122) || (65 <= b && b <= 90) || (48 <= b && b <= 57)
}

/// Tells whether `text` has the shape of an e-mail address.
pub fn is_email(text: &str) -> (ok: bool)
    ensures
        ok == email_shaped(text@),
{
    broadcast use vstd::string::is_ascii_spec_bytes;

    if !text.is_ascii() {
        // Every character of an address is one of the ASCII characters above.
        assert(!email_shaped(text@)) by {
            if email_shaped(text@) {
                let (at, dot) = choose|at: int, dot: int| email_split(text@, at, dot);
                assert(email_split(text@, at, dot));
                assert(vstd::utf8::is_ascii_chars(text@));
            }
        }
        return false;
    }
    let bytes = text.as_bytes();
    let n = bytes.len();
    let ghost s = text@;
    let mut at: usize = 0;
    while at < n && is_local_byte(bytes[at])
        invariant
            at <= n,
            n == bytes@.len(),
            n == s.len(),
            forall|i: int| 0 <= i < n ==> (#[trigger] bytes@[i]) as char == s[i],
            forall|i: int| 0 <= i < at ==> is_local_char(#[trigger] s[i]),
        decreases n - at,
    {
        at += 1;
    }
    if at == 0 || at >= n || bytes[at] != 64 {
        // The `@` of an address is the first character that is not a local
        // one, and it is not the first character.
        assert(!email_shaped(s)) by {
            if email_shaped(s) {
                let (a, d) = choose|a: int, d: int| email_split(s, a, d);
                assert(email_split(s, a, d));
            }
        }
        return false;
    }
    let mut dot: usize = at + 1;
    while dot < n && is_label_byte(bytes[dot])
        invariant
            at < dot <= n,
            n == bytes@.len(),
            n == s.len(),
            forall|i: int| 0 <= i < n ==> (#[trigger] bytes@[i]) as char == s[i],
            forall|i: int| at < i < dot ==> is_label_char(#[trigger] s[i]),
        decreases n - dot,
    {
        dot += 1;
    }
    // The `@` cannot stand anywhere else: nothing before it is one, and no
    // local character is one.
    assert(forall|a: int, d: int| email_split(s, a, d) ==> a == at);
    if dot == at + 1 || dot >= n || bytes[dot] != 46 {
        // The dot that ends the first label is the first character behind
        // the `@` that is not a label character, and the label is not empty.
        assert(!email_shaped(s)) by {
            if email_shaped(s) {
                let (a, d) = choose|a: int, d: int| email_split(s, a, d);
                assert(email_split(s, a, d));
            }
        }
        return false;
    }
    let mut end: usize = dot + 1;
    while end < n && is_domain_byte(bytes[end])
        invariant
            dot < end <= n,
            n == bytes@.len(),
            n == s.len(),
            forall|i: int| 0 <= i < n ==> (#[trigger] bytes@[i]) as char == s[i],
            forall|i: int| dot < i < end ==> is_domain_char(#[trigger] s[i]),
        decreases n - end,
    {
        end += 1;
    }
    if end == n && end > dot + 1 {
        assert(email_split(s, at as int, dot as int));
        true
    } else {
        // Behind that dot there must be domain characters up to the end,
        // one at least.
        assert(!email_shaped(s)) by {
            if email_shaped(s) {
                let (a, d) = choose|a: int, d: int| email_split(s, a, d);
                assert(email_split(s, a, d));
            }
        }
        false
    }
}

} // verus!
