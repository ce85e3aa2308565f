//! The errors of the service, and how a failed validation becomes one.

use vstd::prelude::*;
use crate::text::{
    debug_quoted, is_substring, join, joined, lemma_part_in_joined, quote, texts,
};
use crate::validation::{FieldErrorView, ValidationErrors};

verus! {

/// Why the service could not do what was asked.
#[derive(Debug, Clone, PartialEq, Eq)]
pub enum UsersServiceError {
    /// No such user, or an empty page.
    NotFound,
    /// The request was at fault; the text says how, and may be shown.
    WrongCredentials(String),
    /// The store failed, or a token could not be made.
    DatabaseError(String),
    /// A password could not be checked.
    VerificationError(String),
}

/// The mathematical content of a [`UsersServiceError`].
pub ghost enum ServiceErrorView {
    NotFound,
    WrongCredentials(Seq<char>),
    DatabaseError(Seq<char>),
    VerificationError(Seq<char>),
}

impl View for UsersServiceError {
    type V = ServiceErrorView;

    open spec fn view(&self) -> ServiceErrorView {
        match self {
            UsersServiceError::NotFound => ServiceErrorView::NotFound,
            UsersServiceError::WrongCredentials(m) => ServiceErrorView::WrongCredentials(m@),
            UsersServiceError::DatabaseError(m) => ServiceErrorView::DatabaseError(m@),
            UsersServiceError::VerificationError(m) => ServiceErrorView::VerificationError(m@),
        }
    }
}

/// The line that reports one failure: the name of its field, a colon, and
/// what the failure reads as, which is its message where it has one and a
/// text that gives the code of the failed rule where it has none.
pub open spec fn line_of(failure: FieldErrorView) -> Seq<char> {
    failure.field + ": "@ + failure.error.rendered()
}

/// The messages of a validation report: one line for each failure, in the
/// order of the report.
pub open spec fn messages(errors: Seq<FieldErrorView>) -> Seq<Seq<char>> {
    errors.map_values(|failure: FieldErrorView| line_of(failure))
}

/// The error that a failed validation is answered with: the messages of the
/// report, joined by semicolons.
pub open spec fn rejection(errors: Seq<FieldErrorView>) -> ServiceErrorView {
    ServiceErrorView::WrongCredentials(joined(messages(errors), ";"@))
}

/// The name of a kind of error, then its message in quotes and brackets.
pub open spec fn bracketed(kind: Seq<char>, message: Seq<char>) -> Seq<char> {
    kind + "("@ + debug_quoted(message) + ")"@
}

/// The status code for "not found".
pub const STATUS_NOT_FOUND: u16 = 404;

/// The status code for a request that was at fault.
pub const STATUS_BAD_REQUEST: u16 = 400;

/// The status code for a failure on the server's side.
pub const STATUS_INTERNAL_SERVER_ERROR: u16 = 500;

impl ServiceErrorView {
    /// The error as a line of text: the name of its kind and, in brackets,
    /// its message in quotes.
    pub open spec fn rendered(self) -> Seq<char> {
        match self {
            ServiceErrorView::NotFound => "NotFound"@,
            ServiceErrorView::WrongCredentials(m) => bracketed("WrongCredentials"@, m),
            ServiceErrorView::DatabaseError(m) => bracketed("DatabaseError"@, m),
            ServiceErrorView::VerificationError(m) => bracketed("VerificationError"@, m),
        }
    }

    /// The status code that the error is answered with.
    pub open spec fn status(self) -> u16 {
        match self {
            ServiceErrorView::NotFound => STATUS_NOT_FOUND,
            ServiceErrorView::WrongCredentials(_) => STATUS_BAD_REQUEST,
            _ => STATUS_INTERNAL_SERVER_ERROR,
        }
    }

    /// The text that the client is shown: the message of a request at
    /// fault, and nothing of any other error.
    pub open spec fn body(self) -> Seq<char> {
        match self {
            ServiceErrorView::WrongCredentials(m) => m,
            _ => Seq::empty(),
        }
    }
}

/// Every failure of a report is named in the error that the report is
/// answered with: the line of each failure occurs in the text of the error.
/// So the text of a report that holds a failure is never empty.
pub proof fn every_failure_is_in_the_rejection(errors: Seq<FieldErrorView>, k: int)
    requires
        0 <= k < errors.len(),
    ensures
        rejection(errors) == ServiceErrorView::WrongCredentials(joined(messages(errors), ";"@)),
        is_substring(line_of(errors[k]), joined(messages(errors), ";"@)),
        joined(messages(errors), ";"@).len() >= errors[k].field.len() + 2,
{
    lemma_part_in_joined(messages(errors), ";"@, k);
    reveal_strlit(": ");
}

/// Only a request at fault is told what was wrong. Every other error is
/// answered with a bare status: nothing of the store or of the inside of
/// the service is shown.
pub proof fn only_faults_of_the_request_are_explained(error: ServiceErrorView)
    ensures
        error.status() == STATUS_BAD_REQUEST <==> error is WrongCredentials,
        !(error is WrongCredentials) ==> error.body().len() == 0,
        error is NotFound ==> error.status() == STATUS_NOT_FOUND,
        error is DatabaseError || error is VerificationError ==> error.status()
            == STATUS_INTERNAL_SERVER_ERROR,
{
}

/// `kind`, an opening bracket, the quoted message and a closing bracket.
fn render(kind: &str, message: &str) -> (s: String)
    ensures
        s@ == bracketed(kind@, message@),
{
    let mut s = String::from_str(kind);
    s.append("(");
    let quoted = quote(message);
    s.append(quoted.as_str());
    s.append(")");
    s
}

impl UsersServiceError {
    /// The error that a failed validation is answered with.
    pub fn from(value: ValidationErrors) -> (e: Self)
        ensures
            e@ == rejection(value@),
    {
        let mut res: Vec<String> = Vec::new();
        let mut i: usize = 0;
        while i < value.entries.len()
            invariant
                i <= value.entries.len(),
                texts(res@) =~= messages(value@.take(i as int)),
            decreases value.entries.len() - i,
        {
            let ghost before = texts(res@);
            let entry = &value.entries[i];
            let mut m = entry.field.clone();
            m.append(": ");
            let shown = entry.error.to_string();
            m.append(shown.as_str());
            res.push(m);
            proof {
                let wanted = messages(value@.take(i + 1));
                assert(value@.take(i + 1)[i as int] == entry@);
                assert(m@ == line_of(entry@));
                assert(texts(res@) =~= before.push(m@));
                assert forall|j: int| 0 <= j < wanted.len() implies texts(res@)[j] == wanted[j] by {
                    if j < i {
                        assert(value@.take(i + 1)[j] == value@.take(i as int)[j]);
                    }
                }
            }
            i = i + 1;
        }
        assert(value@.take(value.entries.len() as int) =~= value@);
        let s = join(&res, ";");
        UsersServiceError::WrongCredentials(s)
    }

    /// The error as a line of text.
    pub fn to_string(&self) -> (s: String)
        ensures
            s@ == self@.rendered(),
    {
        match self {
            UsersServiceError::NotFound => String::from_str("NotFound"),
            UsersServiceError::WrongCredentials(m) => render("WrongCredentials", m.as_str()),
            UsersServiceError::DatabaseError(m) => render("DatabaseError", m.as_str()),
            UsersServiceError::VerificationError(m) => render("VerificationError", m.as_str()),
        }
    }

    /// The status code and the text that the error is answered with. Only a
    /// request at fault is told why; nothing of the inside is shown.
    pub fn into_response(self) -> (response: (u16, String))
        ensures
            response.0 == self@.status(),
            response.1@ == self@.body(),
    {
        match self {
            UsersServiceError::NotFound => (STATUS_NOT_FOUND, String::new()),
            UsersServiceError::WrongCredentials(err) => (STATUS_BAD_REQUEST, err),
            _ => (STATUS_INTERNAL_SERVER_ERROR, String::new()),
        }
    }
}

} // verus!
