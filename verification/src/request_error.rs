//! The error taxonomy of the request pipeline.  Every stage is terminal on
//! failure; each variant carries what its message needs.

use vstd::prelude::*;

verus! {

/// What can go wrong between reading a configuration and receiving a
/// response.
///
/// `CouldNotReadFile`: the primary configuration file could not be read.
/// `TomlParserError`: the configuration text is not valid, with the parser's
/// diagnostic.  `BuildError`: the merged descriptor lacks a required field,
/// named by `property_name`.  `HttpError`: the network call failed or its
/// body could not be decoded, with the transport's diagnostic.
#[derive(Debug)]
pub enum RequestError {
    CouldNotReadFile,
    TomlParserError { message: String },
    BuildError { property_name: String },
    HttpError { message: String },
}

impl RequestError {
    /// The human-readable message for each variant.
    pub open spec fn spec_render(self) -> Seq<char> {
        match self {
            RequestError::CouldNotReadFile => "could not read the file"@,
            RequestError::TomlParserError { message } => "could not parse the file "@ + message@,
            RequestError::BuildError { property_name } => "missing "@ + property_name@
                + " information"@,
            RequestError::HttpError { message } => message@,
        }
    }

    /// Renders the error for the terminal, exactly as [`Self::spec_render`]
    /// states.
    pub fn render(&self) -> (r: String)
        ensures
            r@ == self.spec_render(),
    {
        match self {
            RequestError::CouldNotReadFile => String::from_str("could not read the file"),
            RequestError::TomlParserError { message } => String::from_str(
                "could not parse the file ",
            ).concat(message.as_str()),
            RequestError::BuildError { property_name } => {
                let mut s = String::from_str("missing ");
                s.append(property_name.as_str());
                s.append(" information");
                s
            },
            RequestError::HttpError { message } => message.clone(),
        }
    }
}

} // verus!
