use vstd::prelude::*;

verus! {

/// Why a call gave no response.
#[derive(Debug, PartialEq, Eq)]
pub enum ClientError {
    /// The service answered and refused; the text is the service's own.
    APIError(String),
    /// No well-formed answer came back: the request could not be sent, or
    /// the answer could not be read to its end.
    NetworkError(String),
    /// A local fault: the request could not be written, or the answer could
    /// not be read as either of the two shapes.
    OtherError(String),
}

/// The mathematical value of a [`ClientError`].
pub enum ClientFault {
    APIError(Seq<char>),
    NetworkError(Seq<char>),
    OtherError(Seq<char>),
}

impl DeepView for ClientError {
    type V = ClientFault;

    open spec fn deep_view(&self) -> ClientFault {
        match self {
            ClientError::APIError(text) => ClientFault::APIError(text@),
            ClientError::NetworkError(text) => ClientFault::NetworkError(text@),
            ClientError::OtherError(text) => ClientFault::OtherError(text@),
        }
    }
}

impl View for ClientError {
    type V = ClientFault;

    open spec fn view(&self) -> ClientFault {
        self.deep_view()
    }
}

impl ClientFault {
    /// The text that the error carries.
    pub open spec fn detail(self) -> Seq<char> {
        match self {
            ClientFault::APIError(text) => text,
            ClientFault::NetworkError(text) => text,
            ClientFault::OtherError(text) => text,
        }
    }

    /// What stands before the detail in the error's message.
    pub open spec fn heading(self) -> Seq<char> {
        match self {
            ClientFault::APIError(_) => "OpenAI API error: `"@,
            ClientFault::NetworkError(_) => "Network error: `"@,
            ClientFault::OtherError(_) => "Other error: `"@,
        }
    }

    /// The error's message: the heading of its kind, then the detail between
    /// backticks.
    pub open spec fn message(self) -> Seq<char> {
        self.heading() + self.detail() + "`"@
    }
}

impl ClientError {
    /// The error as one line of text, for a reader.
    pub fn message(&self) -> (text: String)
        ensures
            text@ == self@.message(),
    {
        let (heading, detail) = match self {
            ClientError::APIError(detail) => ("OpenAI API error: `", detail),
            ClientError::NetworkError(detail) => ("Network error: `", detail),
            ClientError::OtherError(detail) => ("Other error: `", detail),
        };
        let mut text = String::from_str(heading);
        text.append(detail.as_str());
        text.append("`");
        text
    }
}

/// Why a document does not have a shape.
#[derive(Debug, PartialEq, Eq)]
pub enum ShapeError {
    /// Where an object must stand, something else does.
    NotObject,
    /// The object has no member of this name, and the shape requires one.
    Missing(&'static str),
    /// The member of this name does not hold what the shape asks for.
    Mismatch(&'static str),
}

/// The mathematical value of a [`ShapeError`].
pub enum ShapeFault {
    NotObject,
    Missing(Seq<char>),
    Mismatch(Seq<char>),
}

impl DeepView for ShapeError {
    type V = ShapeFault;

    open spec fn deep_view(&self) -> ShapeFault {
        match self {
            ShapeError::NotObject => ShapeFault::NotObject,
            ShapeError::Missing(name) => ShapeFault::Missing(name@),
            ShapeError::Mismatch(name) => ShapeFault::Mismatch(name@),
        }
    }
}

impl View for ShapeError {
    type V = ShapeFault;

    open spec fn view(&self) -> ShapeFault {
        self.deep_view()
    }
}

impl ShapeFault {
    /// The fault in words.
    pub open spec fn described(self) -> Seq<char> {
        match self {
            ShapeFault::NotObject => "expected an object"@,
            ShapeFault::Missing(name) => "missing field `"@ + name + "`"@,
            ShapeFault::Mismatch(name) => "unexpected value in field `"@ + name + "`"@,
        }
    }
}

impl ShapeError {
    /// The fault in words.
    pub fn describe(&self) -> (text: String)
        ensures
            text@ == self@.described(),
    {
        match self {
            ShapeError::NotObject => String::from_str("expected an object"),
            ShapeError::Missing(name) => {
                let mut text = String::from_str("missing field `");
                text.append(name);
                text.append("`");
                text
            },
            ShapeError::Mismatch(name) => {
                let mut text = String::from_str("unexpected value in field `");
                text.append(name);
                text.append("`");
                text
            },
        }
    }
}

} // verus!
