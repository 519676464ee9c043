use vstd::prelude::*;

verus! {

/// Why a document could not be decoded. Any failure anywhere in a document
/// fails the whole load: there is no partial result.
#[derive(Debug, PartialEq, Eq, Clone)]
pub enum TiledError {
    /// The text is not JSON.
    Syntax,
    /// A field is missing or does not have the shape that is expected of it.
    /// Carries the key of the innermost such field.
    Format(String),
    /// A file that the document refers to is not among the sources.
    /// Carries the path as the document wrote it.
    Reference(String),
    /// A tile set or an object is neither a full inline record nor a
    /// reference to another file.
    AmbiguousShape,
}

/// The mathematical value of a [`TiledError`].
pub enum TiledErrorView {
    Syntax,
    Format(Seq<char>),
    Reference(Seq<char>),
    AmbiguousShape,
}

impl DeepView for TiledError {
    type V = TiledErrorView;

    open spec fn deep_view(&self) -> TiledErrorView {
        match self {
            TiledError::Syntax => TiledErrorView::Syntax,
            TiledError::Format(field) => TiledErrorView::Format(field@),
            TiledError::Reference(path) => TiledErrorView::Reference(path@),
            TiledError::AmbiguousShape => TiledErrorView::AmbiguousShape,
        }
    }
}

impl View for TiledError {
    type V = TiledErrorView;

    open spec fn view(&self) -> TiledErrorView {
        self.deep_view()
    }
}

/// The mathematical value of a decoder's result.
pub open spec fn outcome<T: DeepView>(r: Result<T, TiledError>) -> Result<T::V, TiledErrorView> {
    match r {
        Ok(value) => Ok(value.deep_view()),
        Err(error) => Err(error.deep_view()),
    }
}

/// The failure that names `key` as the offending field.
pub open spec fn malformed<T>(key: Seq<char>) -> Result<T, TiledErrorView> {
    Err(TiledErrorView::Format(key))
}

impl TiledError {
    /// The error for a field `key` that is missing or malformed.
    pub fn format(key: &str) -> (e: TiledError)
        ensures
            e@ == TiledErrorView::Format(key@),
    {
        TiledError::Format(key.to_owned())
    }

    /// The error for a file `path` that is not among the sources.
    pub fn reference(path: &str) -> (e: TiledError)
        ensures
            e@ == TiledErrorView::Reference(path@),
    {
        TiledError::Reference(path.to_owned())
    }

    /// A one-line description for people.
    pub fn message(&self) -> (text: String)
        ensures
            text@ == self@.message(),
    {
        match self {
            TiledError::Syntax => "the text is not JSON".to_owned(),
            TiledError::Format(field) => "missing or malformed field: ".to_owned().concat(field.as_str()),
            TiledError::Reference(path) => "file not available: ".to_owned().concat(path.as_str()),
            TiledError::AmbiguousShape => "neither an inline record nor a reference".to_owned(),
        }
    }
}

impl TiledErrorView {
    /// What [`TiledError::message`] returns.
    pub open spec fn message(self) -> Seq<char> {
        match self {
            TiledErrorView::Syntax => "the text is not JSON"@,
            TiledErrorView::Format(field) => "missing or malformed field: "@ + field,
            TiledErrorView::Reference(path) => "file not available: "@ + path,
            TiledErrorView::AmbiguousShape => "neither an inline record nor a reference"@,
        }
    }
}

} // verus!
