use vstd::prelude::*;

verus! {

/// The categories of failure the file-sync tool distinguishes.
#[derive(Clone, Copy, Debug, PartialEq, Eq, Structural)]
pub enum ErrorKind {
    DownloadError,
    SkipDownload,
    UnknownServiceError,
    MissingArgumentError,
    InvalidArgumentError,
    IoError,
    XmlParserError,
    UnknownError,
}

/// An error of the file-sync tool around the library: a category and a
/// human-readable description.
#[derive(Clone, Debug, PartialEq)]
pub struct Error {
    kind: ErrorKind,
    message: String,
}

impl Error {
    /// The error's category.
    pub closed spec fn spec_kind(&self) -> ErrorKind {
        self.kind
    }

    /// The error's description.
    pub closed spec fn spec_message(&self) -> Seq<char> {
        self.message@
    }

    fn new(kind: ErrorKind, description: &str) -> (r: Self)
        ensures
            r.spec_kind() == kind,
            r.spec_message() == description@,
    {
        Error { kind, message: description.to_owned() }
    }

    /// An error while downloading files or file information.
    pub fn download_error(description: &str) -> (r: Self)
        ensures
            r.spec_kind() == ErrorKind::DownloadError,
            r.spec_message() == description@,
    {
        Error::new(ErrorKind::DownloadError, description)
    }

    /// The reason a download was skipped; not a failure in substance.
    pub fn skip_download(description: &str) -> (r: Self)
        ensures
            r.spec_kind() == ErrorKind::SkipDownload,
            r.spec_message() == description@,
    {
        Error::new(ErrorKind::SkipDownload, description)
    }

    /// A required argument is missing.
    pub fn missing_argument_error(description: &str) -> (r: Self)
        ensures
            r.spec_kind() == ErrorKind::MissingArgumentError,
            r.spec_message() == description@,
    {
        Error::new(ErrorKind::MissingArgumentError, description)
    }

    /// An argument's value cannot be used.
    pub fn invalid_argument_error(description: &str) -> (r: Self)
        ensures
            r.spec_kind() == ErrorKind::InvalidArgumentError,
            r.spec_message() == description@,
    {
        Error::new(ErrorKind::InvalidArgumentError, description)
    }

    /// An unknown online service was requested.
    pub fn unknown_service_error(description: &str) -> (r: Self)
        ensures
            r.spec_kind() == ErrorKind::UnknownServiceError,
            r.spec_message() == description@,
    {
        Error::new(ErrorKind::UnknownServiceError, description)
    }

    /// A failure during file input or output.
    pub fn io_error(description: &str) -> (r: Self)
        ensures
            r.spec_kind() == ErrorKind::IoError,
            r.spec_message() == description@,
    {
        Error::new(ErrorKind::IoError, description)
    }

    /// A failure while reading an XML listing.
    pub fn xml_parser_error(description: &str) -> (r: Self)
        ensures
            r.spec_kind() == ErrorKind::XmlParserError,
            r.spec_message() == description@,
    {
        Error::new(ErrorKind::XmlParserError, description)
    }

    /// Wrap a foreign error's rendered description without classifying
    /// it.
    pub fn from_error(description: &str) -> (r: Self)
        ensures
            r.spec_kind() == ErrorKind::UnknownError,
            r.spec_message() == description@,
    {
        Error::new(ErrorKind::UnknownError, description)
    }

    /// The error's category.
    pub fn kind(&self) -> (r: ErrorKind)
        ensures
            r == self.spec_kind(),
    {
        self.kind
    }

    /// The error's description.
    pub fn message(&self) -> (r: &str)
        ensures
            r@ == self.spec_message(),
    {
        self.message.as_str()
    }
}

/// The API key to use: the command-line value wins, the environment is
/// the fallback, and without either the download cannot start.
pub fn get_api_key(cli_value: Option<String>, env_value: Option<String>) -> (r: Result<
    String,
    Error,
>)
    ensures
        match (r, cli_value, env_value) {
            (Ok(v), Some(c), _) => v@ == c@,
            (Ok(v), None, Some(e)) => v@ == e@,
            (Err(e), None, None) => e.spec_kind() == ErrorKind::MissingArgumentError
                && e.spec_message() == "No API token provided"@,
            _ => false,
        },
{
    match cli_value {
        Some(t) => Ok(t),
        None => match env_value {
            Some(v) => Ok(v),
            None => Err(Error::missing_argument_error("No API token provided")),
        },
    }
}

/// The entry-point URL: required on the command line.
pub fn get_url(cli_value: Option<String>) -> (r: Result<String, Error>)
    ensures
        match (r, cli_value) {
            (Ok(v), Some(c)) => v@ == c@,
            (Err(e), None) => e.spec_kind() == ErrorKind::MissingArgumentError
                && e.spec_message() == "No URL provided"@,
            _ => false,
        },
{
    match cli_value {
        Some(v) => Ok(v),
        None => Err(Error::missing_argument_error("No URL provided")),
    }
}

/// The user name: required on the command line.
pub fn get_username(cli_value: Option<String>) -> (r: Result<String, Error>)
    ensures
        match (r, cli_value) {
            (Ok(v), Some(c)) => v@ == c@,
            (Err(e), None) => e.spec_kind() == ErrorKind::MissingArgumentError
                && e.spec_message() == "No username provided"@,
            _ => false,
        },
{
    match cli_value {
        Some(v) => Ok(v),
        None => Err(Error::missing_argument_error("No username provided")),
    }
}

/// The remote directory to list: required on the command line.
pub fn get_remote_directory(cli_value: Option<String>) -> (r: Result<String, Error>)
    ensures
        match (r, cli_value) {
            (Ok(v), Some(c)) => v@ == c@,
            (Err(e), None) => e.spec_kind() == ErrorKind::MissingArgumentError
                && e.spec_message() == "No remote-directory provided"@,
            _ => false,
        },
{
    match cli_value {
        Some(v) => Ok(v),
        None => Err(Error::missing_argument_error("No remote-directory provided")),
    }
}

/// The password: the command-line value wins, the environment is the
/// fallback.
pub fn get_password(cli_value: Option<String>, env_value: Option<String>) -> (r: Result<
    String,
    Error,
>)
    ensures
        match (r, cli_value, env_value) {
            (Ok(v), Some(c), _) => v@ == c@,
            (Ok(v), None, Some(e)) => v@ == e@,
            (Err(e), None, None) => e.spec_kind() == ErrorKind::MissingArgumentError
                && e.spec_message() == "No password provided"@,
            _ => false,
        },
{
    match cli_value {
        Some(t) => Ok(t),
        None => match env_value {
            Some(v) => Ok(v),
            None => Err(Error::missing_argument_error("No password provided")),
        },
    }
}

/// Judge the output path from what the file system reported of it: only
/// an existing directory is usable, and each other state has its own
/// description. The caller performs the file-system probes and hands in
/// their outcome.
pub fn get_local_directory(path: &str, is_dir: bool, is_file: bool, exists: bool) -> (r: Result<
    String,
    Error,
>)
    ensures
        match r {
            Ok(v) => is_dir && v@ == path@,
            Err(e) => !is_dir && e.spec_kind() == ErrorKind::IoError && e.spec_message()
                == "Output path "@ + path@ + (if is_file {
                " is not a directory"@
            } else if !exists {
                " does not exist"@
            } else {
                " is not a path"@
            }),
        },
{
    if is_dir {
        Ok(path.to_owned())
    } else {
        let mut message = "Output path ".to_owned();
        message.append(path);
        if is_file {
            message.append(" is not a directory");
        } else if !exists {
            message.append(" does not exist");
        } else {
            message.append(" is not a path");
        }
        Err(Error::io_error(message.as_str()))
    }
}

/// The verbosity levels the logging setup distinguishes.
#[derive(Clone, Copy, Debug, PartialEq, Eq, Structural)]
pub enum LogLevel {
    Warn,
    Info,
    Debug,
    Trace,
}

/// The log level a verbosity count selects: once for informational,
/// twice for debugging, three times for tracing, anything else for
/// warnings only.
pub fn log_level_for_verbosity(occurrences: u64) -> (r: LogLevel)
    ensures
        occurrences == 1 ==> r == LogLevel::Info,
        occurrences == 2 ==> r == LogLevel::Debug,
        occurrences == 3 ==> r == LogLevel::Trace,
        !(1 <= occurrences <= 3) ==> r == LogLevel::Warn,
{
    match occurrences {
        1 => LogLevel::Info,
        2 => LogLevel::Debug,
        3 => LogLevel::Trace,
        _ => LogLevel::Warn,
    }
}

} // verus!
