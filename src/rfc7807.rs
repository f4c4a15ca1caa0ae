use vstd::prelude::*;

verus! {

/// The abstract content of a problem report.
pub struct ProblemDetailsView {
    pub type_uri: Seq<char>,
    pub title: Seq<char>,
    pub status: u16,
    pub detail: Option<Seq<char>>,
}

/// Problem details as RFC 7807 describes them: a type URI, a title, an HTTP
/// status and an optional detail.
#[derive(Debug)]
pub struct ProblemDetails {
    type_uri: String,
    title: String,
    status: u16,
    detail: Option<String>,
}

impl View for ProblemDetails {
    type V = ProblemDetailsView;

    closed spec fn view(&self) -> ProblemDetailsView {
        ProblemDetailsView {
            type_uri: self.type_uri@,
            title: self.title@,
            status: self.status,
            detail: match self.detail {
                Some(d) => Some(d@),
                None => None,
            },
        }
    }
}

/// The type URI of a problem type.
pub open spec fn problem_type_uri(problem_type: Seq<char>) -> Seq<char> {
    "/problem/"@ + problem_type
}

impl ProblemDetails {
    /// A report of `problem_type` with a title and a status, without detail.
    pub fn new(problem_type: &str, title: &str, status: u16) -> (r: ProblemDetails)
        ensures
            r@ == (ProblemDetailsView {
                type_uri: problem_type_uri(problem_type@),
                title: title@,
                status,
                detail: None,
            }),
    {
        let mut type_uri = "/problem/".to_owned();
        type_uri.append(problem_type);
        ProblemDetails { type_uri, title: title.to_owned(), status, detail: None }
    }

    /// The same report with `detail` added.
    pub fn with_detail(self, detail: &str) -> (r: ProblemDetails)
        ensures
            r@ == (ProblemDetailsView { detail: Some(detail@), ..self@ }),
    {
        ProblemDetails { detail: Some(detail.to_owned()), ..self }
    }

    pub fn type_uri(&self) -> (r: &str)
        ensures
            r@ == self@.type_uri,
    {
        self.type_uri.as_str()
    }

    pub fn title(&self) -> (r: &str)
        ensures
            r@ == self@.title,
    {
        self.title.as_str()
    }

    pub fn status(&self) -> (r: u16)
        ensures
            r == self@.status,
    {
        self.status
    }

    pub fn detail(&self) -> (r: Option<&str>)
        ensures
            match r {
                Some(d) => self@.detail == Some(d@),
                None => self@.detail is None,
            },
    {
        match &self.detail {
            Some(d) => Some(d.as_str()),
            None => None,
        }
    }
}

/// The report for a configuration that could not be loaded.
pub fn problem_invalid_config() -> (r: ProblemDetails)
    ensures
        r@ == (ProblemDetailsView {
            type_uri: problem_type_uri("config-invalid"@),
            title: "static configuration is invalid"@,
            status: 500,
            detail: None,
        }),
{
    ProblemDetails::new("config-invalid", "static configuration is invalid", 500)
}

} // verus!
