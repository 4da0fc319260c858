use vstd::prelude::*;

verus! {

// An artifact reference names where guest or provider bytes come from:
// a `file://` URL for the local filesystem, a `bindle://` id for a
// content-addressed package, or a bare string read as an OCI image
// reference.  Classification only inspects the string; resolution (the
// actual file, registry, or package I/O) is the caller's business.

/// A classified artifact reference.
#[derive(Clone, Debug, PartialEq, Eq)]
pub enum ResourceRef {
    /// A local filesystem path, from a `file://` URL.
    File(String),
    /// A content-addressed package id, from a `bindle://` reference.
    Bindle(String),
    /// A bare OCI image reference.
    Oci(String),
}

/// Mathematical image of [`ResourceRef`].
pub enum ResourceRefView {
    File(Seq<char>),
    Bindle(Seq<char>),
    Oci(Seq<char>),
}

impl View for ResourceRef {
    type V = ResourceRefView;

    open spec fn view(&self) -> ResourceRefView {
        match self {
            ResourceRef::File(p) => ResourceRefView::File(p@),
            ResourceRef::Bindle(b) => ResourceRefView::Bindle(b@),
            ResourceRef::Oci(o) => ResourceRefView::Oci(o@),
        }
    }
}

/// Why a reference string was rejected.
#[derive(Clone, Debug, PartialEq, Eq)]
pub enum RefError {
    /// A `file://` URL that does not convert to a local path.
    InvalidFilePath,
    /// A `bindle:` URL not of the `bindle://<id>` form.
    InvalidBindle,
    /// An absolute URL whose scheme is neither `file` nor `bindle`.
    UnsupportedScheme(String),
    /// A string that is neither an absolute URL nor a relative reference.
    Parse(String),
}

/// Mathematical image of [`RefError`].
pub enum RefErrorView {
    InvalidFilePath,
    InvalidBindle,
    UnsupportedScheme(Seq<char>),
    Parse(Seq<char>),
}

impl View for RefError {
    type V = RefErrorView;

    open spec fn view(&self) -> RefErrorView {
        match self {
            RefError::InvalidFilePath => RefErrorView::InvalidFilePath,
            RefError::InvalidBindle => RefErrorView::InvalidBindle,
            RefError::UnsupportedScheme(s) => RefErrorView::UnsupportedScheme(s@),
            RefError::Parse(m) => RefErrorView::Parse(m@),
        }
    }
}

/// What URL parsing makes of a reference string.
#[derive(Clone, Debug, PartialEq, Eq)]
pub enum UrlOutcome {
    /// An absolute URL: its scheme, and its local path where the URL
    /// converts to one.
    Parsed {
        /// The URL's scheme.
        scheme: String,
        /// The local path, for a URL that converts to one.
        file_path: Option<String>,
    },
    /// A relative reference without a base.
    Relative,
    /// Not a URL at all.
    Invalid(String),
}

/// Mathematical image of [`UrlOutcome`].
pub enum UrlOutcomeView {
    Parsed { scheme: Seq<char>, file_path: Option<Seq<char>> },
    Relative,
    Invalid(Seq<char>),
}

impl View for UrlOutcome {
    type V = UrlOutcomeView;

    open spec fn view(&self) -> UrlOutcomeView {
        match self {
            UrlOutcome::Parsed { scheme, file_path } => UrlOutcomeView::Parsed {
                scheme: scheme@,
                file_path: file_path.deep_view(),
            },
            UrlOutcome::Relative => UrlOutcomeView::Relative,
            UrlOutcome::Invalid(m) => UrlOutcomeView::Invalid(m@),
        }
    }
}

/// What URL parsing makes of a string: a function of the string alone
/// on any one target (the file-path conversion differs between Unix and
/// Windows, so the outcome is named per target).  Applied by
/// [`parse_url`].
pub uninterp spec fn url_outcome_of(s: Seq<char>) -> UrlOutcomeView;

/// Relies on `url::Url::{parse, scheme, to_file_path}`: classifies the
/// string as an absolute URL (with scheme and, where the URL converts,
/// a local path), a relative reference, or not a URL.
#[verifier::external_body]
fn parse_url(s: &String) -> (r: UrlOutcome)
    ensures
        r@ == url_outcome_of(s@),
{
    match url::Url::parse(s.as_str()) {
        Ok(u) => {
            let file_path = u.to_file_path().ok().and_then(|p| p.into_os_string().into_string().ok());
            UrlOutcome::Parsed { scheme: String::from(u.scheme()), file_path }
        },
        Err(url::ParseError::RelativeUrlWithoutBase) => UrlOutcome::Relative,
        Err(e) => UrlOutcome::Invalid(format!("{e}")),
    }
}

/// Relies on `str::strip_prefix`: the remainder after `p`, exactly when
/// `s` starts with `p`.
#[verifier::external_body]
fn strip_prefix_str(s: &String, p: &str) -> (r: Option<String>)
    ensures
        match r {
            Some(t) => s@ == p@ + t@,
            None => !(s@.len() >= p@.len() && s@.subrange(0, p@.len() as int) == p@),
        },
{
    s.strip_prefix(p).map(String::from)
}

/// How a reference string classifies, over the URL parse outcome.
pub open spec fn ref_classification(s: Seq<char>) -> Result<ResourceRefView, RefErrorView> {
    match url_outcome_of(s) {
        UrlOutcomeView::Relative => Ok(ResourceRefView::Oci(s)),
        UrlOutcomeView::Invalid(m) => Err(RefErrorView::Parse(m)),
        UrlOutcomeView::Parsed { scheme, file_path } => if scheme == "file"@ {
            match file_path {
                Some(p) => Ok(ResourceRefView::File(p)),
                None => Err(RefErrorView::InvalidFilePath),
            }
        } else if scheme == "bindle"@ {
            if s.len() >= 9 && s.subrange(0, 9) == "bindle://"@ {
                Ok(ResourceRefView::Bindle(s.subrange(9, s.len() as int)))
            } else {
                Err(RefErrorView::InvalidBindle)
            }
        } else {
            Err(RefErrorView::UnsupportedScheme(scheme))
        },
    }
}

impl ResourceRef {
    /// Classifies a reference string: a `file://` URL becomes a local
    /// path, a `bindle://` reference its package id, a relative string an
    /// OCI reference; any other scheme, unconvertible file URL, or
    /// unparseable string is rejected with the matching error.
    pub fn try_from(s: &String) -> (r: Result<ResourceRef, RefError>)
        ensures
            match r {
                Ok(rr) => ref_classification(s@) == Ok::<ResourceRefView, RefErrorView>(rr@),
                Err(e) => ref_classification(s@) == Err::<ResourceRefView, RefErrorView>(e@),
            },
    {
        match parse_url(s) {
            UrlOutcome::Relative => Ok(ResourceRef::Oci(s.clone())),
            UrlOutcome::Invalid(m) => Err(RefError::Parse(m)),
            UrlOutcome::Parsed { scheme, file_path } => {
                if scheme == "file".to_owned() {
                    match file_path {
                        Some(p) => Ok(ResourceRef::File(p)),
                        None => Err(RefError::InvalidFilePath),
                    }
                } else if scheme == "bindle".to_owned() {
                    match strip_prefix_str(s, "bindle://") {
                        Some(t) => {
                            proof {
                                reveal_strlit("bindle://");
                                assert(("bindle://"@ + t@).subrange(0, 9) =~= "bindle://"@);
                                assert(("bindle://"@ + t@).subrange(9, s@.len() as int) =~= t@);
                            }
                            Ok(ResourceRef::Bindle(t))
                        },
                        None => {
                            proof {
                                reveal_strlit("bindle://");
                            }
                            Err(RefError::InvalidBindle)
                        },
                    }
                } else {
                    Err(RefError::UnsupportedScheme(scheme))
                }
            },
        }
    }
}

} // verus!
