//! The TLS section of a server's configuration.
use vstd::prelude::*;

verus! {

/// How far a server insists on TLS. Used when the MySQL and PostgreSQL servers
/// start up.
#[derive(Debug, Clone, Copy, PartialEq, Eq, Structural)]
pub enum TlsMode {
    Disable,
    Prefer,
    Require,
    VerifyCa,
    VerifyFull,
}

/// The error of a text that names no mode.
#[derive(Debug, Clone, Copy, PartialEq, Eq, Structural)]
pub enum ParseTlsModeError {
    VariantNotFound,
}

/// Where the certificate and the key are, and how they are used.
#[derive(Debug, PartialEq, Eq)]
pub struct TlsOption {
    pub mode: TlsMode,
    pub cert_path: String,
    pub key_path: String,
    pub watch: bool,
}

/// A `TlsOption` with its texts as sequences of characters.
pub ghost struct TlsOptionView {
    pub mode: TlsMode,
    pub cert_path: Seq<char>,
    pub key_path: Seq<char>,
    pub watch: bool,
}

impl View for TlsOption {
    type V = TlsOptionView;

    open spec fn view(&self) -> TlsOptionView {
        TlsOptionView {
            mode: self.mode,
            cert_path: self.cert_path@,
            key_path: self.key_path@,
            watch: self.watch,
        }
    }
}

/// Whether two texts are the same.
fn same_text(left: &str, right: &str) -> (same: bool)
    ensures
        same == (left@ == right@),
{
    left.to_owned() == right.to_owned()
}

impl TlsMode {
    /// The spelling of a mode on the command line.
    pub open spec fn name(self) -> Seq<char> {
        match self {
            TlsMode::Disable => "disable"@,
            TlsMode::Prefer => "prefer"@,
            TlsMode::Require => "require"@,
            TlsMode::VerifyCa => "verify-ca"@,
            TlsMode::VerifyFull => "verify-full"@,
        }
    }

    /// The spelling of a mode in a configuration file.
    pub open spec fn config_name(self) -> Seq<char> {
        match self {
            TlsMode::Disable => "disable"@,
            TlsMode::Prefer => "prefer"@,
            TlsMode::Require => "require"@,
            TlsMode::VerifyCa => "verify_ca"@,
            TlsMode::VerifyFull => "verify_full"@,
        }
    }

    /// Reads a mode as it is spelled on the command line.
    pub fn parse(text: &str) -> (res: Result<TlsMode, ParseTlsModeError>)
        ensures
            match res {
                Ok(mode) => text@ == mode.name(),
                Err(_) => forall|mode: TlsMode| text@ != #[trigger] mode.name(),
            },
    {
        if same_text(text, "disable") {
            Ok(TlsMode::Disable)
        } else if same_text(text, "prefer") {
            Ok(TlsMode::Prefer)
        } else if same_text(text, "require") {
            Ok(TlsMode::Require)
        } else if same_text(text, "verify-ca") {
            Ok(TlsMode::VerifyCa)
        } else if same_text(text, "verify-full") {
            Ok(TlsMode::VerifyFull)
        } else {
            Err(ParseTlsModeError::VariantNotFound)
        }
    }

    /// Reads a mode as it is spelled in a configuration file.
    pub fn from_config_name(text: &str) -> (res: Result<TlsMode, ParseTlsModeError>)
        ensures
            match res {
                Ok(mode) => text@ == mode.config_name(),
                Err(_) => forall|mode: TlsMode| text@ != #[trigger] mode.config_name(),
            },
    {
        if same_text(text, "disable") {
            Ok(TlsMode::Disable)
        } else if same_text(text, "prefer") {
            Ok(TlsMode::Prefer)
        } else if same_text(text, "require") {
            Ok(TlsMode::Require)
        } else if same_text(text, "verify_ca") {
            Ok(TlsMode::VerifyCa)
        } else if same_text(text, "verify_full") {
            Ok(TlsMode::VerifyFull)
        } else {
            Err(ParseTlsModeError::VariantNotFound)
        }
    }

    /// Writes a mode as it is spelled in a configuration file.
    pub fn to_config_name(&self) -> (text: &'static str)
        ensures
            text@ == self.config_name(),
    {
        match self {
            TlsMode::Disable => "disable",
            TlsMode::Prefer => "prefer",
            TlsMode::Require => "require",
            TlsMode::VerifyCa => "verify_ca",
            TlsMode::VerifyFull => "verify_full",
        }
    }
}

impl std::str::FromStr for TlsMode {
    type Err = ParseTlsModeError;

    fn from_str(text: &str) -> (res: Result<TlsMode, ParseTlsModeError>)
        ensures
            match res {
                Ok(mode) => text@ == mode.name(),
                Err(_) => forall|mode: TlsMode| text@ != #[trigger] mode.name(),
            },
    {
        TlsMode::parse(text)
    }
}

impl Default for TlsMode {
    fn default() -> (mode: TlsMode)
        ensures
            mode == TlsMode::Disable,
    {
        TlsMode::Disable
    }
}

impl Default for TlsOption {
    fn default() -> (option: TlsOption)
        ensures
            option@ == TlsOptionView::empty(),
    {
        TlsOption {
            mode: TlsMode::Disable,
            cert_path: String::new(),
            key_path: String::new(),
            watch: false,
        }
    }
}

impl Clone for TlsOption {
    fn clone(&self) -> (option: TlsOption)
        ensures
            option == *self,
    {
        TlsOption {
            mode: self.mode,
            cert_path: self.cert_path.clone(),
            key_path: self.key_path.clone(),
            watch: self.watch,
        }
    }
}

impl TlsOptionView {
    /// The option of a server without TLS settings.
    pub open spec fn empty() -> TlsOptionView {
        TlsOptionView {
            mode: TlsMode::Disable,
            cert_path: Seq::empty(),
            key_path: Seq::empty(),
            watch: false,
        }
    }

    /// The option with the given settings, the default ones where none is given.
    pub open spec fn given(
        mode: Option<TlsMode>,
        cert_path: Option<String>,
        key_path: Option<String>,
    ) -> TlsOptionView {
        TlsOptionView {
            mode: match mode {
                Some(mode) => mode,
                None => TlsMode::Disable,
            },
            cert_path: text_or_empty(cert_path),
            key_path: text_or_empty(key_path),
            watch: false,
        }
    }

    /// The option of a section of a configuration file, each setting but the mode with
    /// its default where it is left out.
    pub open spec fn of_section(
        mode: TlsMode,
        cert_path: Option<String>,
        key_path: Option<String>,
        watch: Option<bool>,
    ) -> TlsOptionView {
        TlsOptionView {
            mode,
            cert_path: text_or_empty(cert_path),
            key_path: text_or_empty(key_path),
            watch: watch == Some(true),
        }
    }

    /// Whether connections without TLS are turned away.
    pub open spec fn forces_tls(self) -> bool {
        self.mode != TlsMode::Disable && self.mode != TlsMode::Prefer
    }

    /// Whether the certificate files are watched for changes.
    pub open spec fn watches(self) -> bool {
        self.mode != TlsMode::Disable && self.watch
    }
}

/// A text that may be absent, with the empty text as its default.
pub open spec fn text_or_empty(text: Option<String>) -> Seq<char> {
    match text {
        Some(text) => text@,
        None => Seq::empty(),
    }
}

impl TlsOption {
    /// An option with the given settings, the default ones where none is given.
    pub fn new(mode: Option<TlsMode>, cert_path: Option<String>, key_path: Option<String>) -> (option:
        Self)
        ensures
            option@ == (TlsOptionView {
                mode: match mode {
                    Some(mode) => mode,
                    None => TlsMode::Disable,
                },
                cert_path: text_or_empty(cert_path),
                key_path: text_or_empty(key_path),
                watch: false,
            }),
            option@ == TlsOptionView::given(mode, cert_path, key_path),
    {
        let mut tls_option = TlsOption::default();

        if let Some(mode) = mode {
            tls_option.mode = mode;
        }
        if let Some(cert_path) = cert_path {
            tls_option.cert_path = cert_path;
        }
        if let Some(key_path) = key_path {
            tls_option.key_path = key_path;
        }
        tls_option
    }

    /// An option from the fields of a configuration file. The mode has to be
    /// there, each of the others has a default.
    pub fn from_config(
        mode: &str,
        cert_path: Option<String>,
        key_path: Option<String>,
        watch: Option<bool>,
    ) -> (res: Result<Self, ParseTlsModeError>)
        ensures
            match res {
                Ok(option) => {
                    &&& mode@ == option.mode.config_name()
                    &&& option@.cert_path == text_or_empty(cert_path)
                    &&& option@.key_path == text_or_empty(key_path)
                    &&& option@.watch == (watch == Some(true))
                    &&& option@ == TlsOptionView::of_section(
                        option.mode,
                        cert_path,
                        key_path,
                        watch,
                    )
                },
                Err(_) => forall|m: TlsMode| mode@ != #[trigger] m.config_name(),
            },
    {
        match TlsMode::from_config_name(mode) {
            Ok(mode) => {
                let mut option = TlsOption::new(Some(mode), cert_path, key_path);
                option.watch = match watch {
                    Some(watch) => watch,
                    None => false,
                };
                Ok(option)
            },
            Err(err) => Err(err),
        }
    }

    /// Whether connections without TLS are turned away.
    pub fn should_force_tls(&self) -> (force: bool)
        ensures
            force == self@.forces_tls(),
    {
        !matches!(self.mode, TlsMode::Disable | TlsMode::Prefer)
    }

    /// The path of the certificate file.
    pub fn cert_path(&self) -> (path: &str)
        ensures
            path@ == self@.cert_path,
    {
        self.cert_path.as_str()
    }

    /// The path of the key file.
    pub fn key_path(&self) -> (path: &str)
        ensures
            path@ == self@.key_path,
    {
        self.key_path.as_str()
    }

    /// Whether the certificate files are watched for changes.
    pub fn watch_enabled(&self) -> (enabled: bool)
        ensures
            enabled == self@.watches(),
    {
        self.mode != TlsMode::Disable && self.watch
    }
}

} // verus!
