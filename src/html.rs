use vstd::prelude::*;

use crate::login::{LoginError, LoginErrorView};

verus! {

/// What the first element that matches `selector` in the HTML document `doc`
/// holds under attribute `attr`: `None` where no element matches (or the
/// selector does not parse), `Some(None)` where the element lacks the attribute.
pub uninterp spec fn first_attr(doc: Seq<char>, selector: Seq<char>, attr: Seq<char>) -> Option<
    Option<Seq<char>>,
>;

pub open spec fn lookup_view(r: Option<Option<String>>) -> Option<Option<Seq<char>>> {
    match r {
        None => None,
        Some(None) => Some(None),
        Some(Some(v)) => Some(Some(v@)),
    }
}

/// Relies on scraper's `Html::parse_document`, `Selector::parse`, `Html::select`
/// and `ElementRef::attr`: the first match in document order, and the value of
/// one of its attributes.
#[verifier::external_body]
fn find_first_attr(doc: &str, selector: &str, attr: &str) -> (r: Option<Option<String>>)
    ensures
        lookup_view(r) == first_attr(doc@, selector@, attr@),
{
    let html = scraper::Html::parse_document(doc);
    let sel = scraper::Selector::parse(selector).ok()?;
    let found = html.select(&sel).next()?;
    Some(found.attr(attr).map(|v| v.to_string()))
}

/// The elements that the login flow looks for.
#[derive(Clone, Copy, Debug, PartialEq, Eq, Structural)]
pub enum Target {
    /// The first `form` element.
    Form,
    /// The first `input` element.
    Input,
    /// The first element named `authenticity_token`.
    AuthenticityToken,
    /// The element with id `created-personal-access-token`.
    CreatedToken,
}

/// The attributes that the login flow reads.
#[derive(Clone, Copy, Debug, PartialEq, Eq, Structural)]
pub enum Attr {
    Action,
    Value,
}

impl Target {
    pub open spec fn selector_spec(self) -> Seq<char> {
        match self {
            Target::Form => "form"@,
            Target::Input => "input"@,
            Target::AuthenticityToken => "[name=\"authenticity_token\"]"@,
            Target::CreatedToken => "#created-personal-access-token"@,
        }
    }

    /// The CSS selector of this element.
    pub fn selector(self) -> (r: &'static str)
        ensures
            r@ == self.selector_spec(),
    {
        match self {
            Target::Form => "form",
            Target::Input => "input",
            Target::AuthenticityToken => "[name=\"authenticity_token\"]",
            Target::CreatedToken => "#created-personal-access-token",
        }
    }
}

impl Attr {
    pub open spec fn name_spec(self) -> Seq<char> {
        match self {
            Attr::Action => "action"@,
            Attr::Value => "value"@,
        }
    }

    /// The attribute's name in HTML.
    pub fn name(self) -> (r: &'static str)
        ensures
            r@ == self.name_spec(),
    {
        match self {
            Attr::Action => "action",
            Attr::Value => "value",
        }
    }
}

/// The value found for `target` and `attr`, or the error for its absence; an
/// empty value counts as an absent attribute.
pub open spec fn extracted(found: Option<Option<Seq<char>>>, target: Target, attr: Attr) -> Result<
    Seq<char>,
    LoginErrorView,
> {
    match found {
        None => Err(LoginErrorView::MissingElement(target)),
        Some(None) => Err(LoginErrorView::MissingAttribute(target, attr)),
        Some(Some(v)) => if v.len() == 0 {
            Err(LoginErrorView::MissingAttribute(target, attr))
        } else {
            Ok(v)
        },
    }
}

/// `extracted` of the value that `target` and `attr` have in `doc`.
pub open spec fn extract_spec(doc: Seq<char>, target: Target, attr: Attr) -> Result<
    Seq<char>,
    LoginErrorView,
> {
    extracted(first_attr(doc, target.selector_spec(), attr.name_spec()), target, attr)
}

pub open spec fn value_view(r: Result<String, LoginError>) -> Result<Seq<char>, LoginErrorView> {
    match r {
        Ok(v) => Ok(v@),
        Err(e) => Err(e@),
    }
}

/// Turns the outcome of a lookup into the value or the error that stands for
/// its absence.
pub fn from_lookup(found: Option<Option<String>>, target: Target, attr: Attr) -> (r: Result<
    String,
    LoginError,
>)
    ensures
        value_view(r) == extracted(lookup_view(found), target, attr),
{
    match found {
        None => Err(LoginError::MissingElement(target)),
        Some(None) => Err(LoginError::MissingAttribute(target, attr)),
        Some(Some(v)) => {
            if v.as_str().is_empty() {
                Err(LoginError::MissingAttribute(target, attr))
            } else {
                Ok(v)
            }
        },
    }
}

/// The non-empty value of `attr` on the first element of `doc` that matches `target`.
pub fn extract(doc: &str, target: Target, attr: Attr) -> (r: Result<String, LoginError>)
    ensures
        value_view(r) == extract_spec(doc@, target, attr),
{
    let found = find_first_attr(doc, target.selector(), attr.name());
    from_lookup(found, target, attr)
}

} // verus!
