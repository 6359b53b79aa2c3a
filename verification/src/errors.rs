use vstd::prelude::*;
use vstd::string::StringExecFns;

verus! {

/// Why one extraction attempt, or one of its stages, failed.
#[derive(Debug)]
pub enum ExtractError {
    /// The source file was gone by the time it was read.
    InputNotFound,
    /// The buffer holds no embedded-store signature anywhere.
    SignatureNotFound,
    /// The disposable store copy could not be written or opened.
    StoreOpenError(String),
    /// No candidate table held a binary column above the size threshold.
    NoPreviewFound,
    /// The selected blob is not a valid image.
    DecodeError(String),
    /// Writing one of the output images failed; the text names which.
    WriteError(String),
}

impl ExtractError {
    /// The diagnostic text that this failure carries.
    pub open spec fn spec_message(&self) -> Seq<char> {
        match self {
            ExtractError::InputNotFound => "Input file not found"@,
            ExtractError::SignatureNotFound => "SQLite header not found in .clip file"@,
            ExtractError::StoreOpenError(m) => "Failed to open embedded store: "@ + m@,
            ExtractError::NoPreviewFound => "No thumbnail data found in any known tables"@,
            ExtractError::DecodeError(m) => "Failed to decode image: "@ + m@,
            ExtractError::WriteError(m) => "Failed to save "@ + m@,
        }
    }

    /// A human-readable description of the failure.
    pub fn message(&self) -> (r: String)
        ensures
            r@ == self.spec_message(),
    {
        match self {
            ExtractError::InputNotFound => "Input file not found".to_owned(),
            ExtractError::SignatureNotFound => "SQLite header not found in .clip file".to_owned(),
            ExtractError::StoreOpenError(m) => {
                let mut s = "Failed to open embedded store: ".to_owned();
                s.append(m.as_str());
                s
            },
            ExtractError::NoPreviewFound => "No thumbnail data found in any known tables".to_owned(),
            ExtractError::DecodeError(m) => {
                let mut s = "Failed to decode image: ".to_owned();
                s.append(m.as_str());
                s
            },
            ExtractError::WriteError(m) => {
                let mut s = "Failed to save ".to_owned();
                s.append(m.as_str());
                s
            },
        }
    }
}

} // verus!
