use vstd::prelude::*;

verus! {

/// An error of one of the commands, with a message for the user and the kind
/// of failure.
#[derive(Debug, Clone)]
pub enum LpnlError {
    SetupError { message: String, kind: SetupErrorKind },
    DirInitError { message: String, kind: DirInitErrorKind },
    ValidationError { message: String, kind: ValidationErrorKind },
    CommandError { message: String, kind: CommandErrorKind },
    BackupError { message: String, kind: BackupErrorKind },
    InitError { message: String, kind: InitErrorKind },
    StateError { message: String, kind: StateErrorKind },
    RemoveError { message: String, kind: RemoveErrorKind },
    ListError { message: String, kind: ListErrorKind },
    AddLocError { message: String, kind: AddLocErrorKind },
    RemoveLocError { message: String, kind: RemoveLocErrorKind },
}

#[derive(Debug, Clone)]
pub enum SetupErrorKind {
    FsFailure,
    ReadError,
    NotFound,
    ConvertionFailure,
}

impl SetupErrorKind {
    /// The name of the kind, as the report shows it.
    pub open spec fn name_text(self) -> Seq<char> {
        match self {
            SetupErrorKind::FsFailure => "FsFailure"@,
            SetupErrorKind::ReadError => "ReadError"@,
            SetupErrorKind::NotFound => "NotFound"@,
            SetupErrorKind::ConvertionFailure => "ConvertionFailure"@,
        }
    }

    /// The name of the kind, as the report shows it.
    pub fn name(&self) -> (r: String)
        ensures
            r@ == self.name_text(),
    {
        match self {
            SetupErrorKind::FsFailure => String::from_str("FsFailure"),
            SetupErrorKind::ReadError => String::from_str("ReadError"),
            SetupErrorKind::NotFound => String::from_str("NotFound"),
            SetupErrorKind::ConvertionFailure => String::from_str("ConvertionFailure"),
        }
    }
}

#[derive(Debug, Clone)]
pub enum DirInitErrorKind {
    LpnlCreationFailure,
    BackupCreationFailure,
    RootCreationFailure,
}

impl DirInitErrorKind {
    /// The name of the kind, as the report shows it.
    pub open spec fn name_text(self) -> Seq<char> {
        match self {
            DirInitErrorKind::LpnlCreationFailure => "LpnlCreationFailure"@,
            DirInitErrorKind::BackupCreationFailure => "BackupCreationFailure"@,
            DirInitErrorKind::RootCreationFailure => "RootCreationFailure"@,
        }
    }

    /// The name of the kind, as the report shows it.
    pub fn name(&self) -> (r: String)
        ensures
            r@ == self.name_text(),
    {
        match self {
            DirInitErrorKind::LpnlCreationFailure => String::from_str("LpnlCreationFailure"),
            DirInitErrorKind::BackupCreationFailure => String::from_str("BackupCreationFailure"),
            DirInitErrorKind::RootCreationFailure => String::from_str("RootCreationFailure"),
        }
    }
}

#[derive(Debug, Clone)]
pub enum ValidationErrorKind {
    IoFailure,
    InvalidDomain,
    InvalidRoot,
    InvalidPort,
    InvalidProxy,
    InvalidLocation,
}

impl ValidationErrorKind {
    /// The name of the kind, as the report shows it.
    pub open spec fn name_text(self) -> Seq<char> {
        match self {
            ValidationErrorKind::IoFailure => "IoFailure"@,
            ValidationErrorKind::InvalidDomain => "InvalidDomain"@,
            ValidationErrorKind::InvalidRoot => "InvalidRoot"@,
            ValidationErrorKind::InvalidPort => "InvalidPort"@,
            ValidationErrorKind::InvalidProxy => "InvalidProxy"@,
            ValidationErrorKind::InvalidLocation => "InvalidLocation"@,
        }
    }

    /// The name of the kind, as the report shows it.
    pub fn name(&self) -> (r: String)
        ensures
            r@ == self.name_text(),
    {
        match self {
            ValidationErrorKind::IoFailure => String::from_str("IoFailure"),
            ValidationErrorKind::InvalidDomain => String::from_str("InvalidDomain"),
            ValidationErrorKind::InvalidRoot => String::from_str("InvalidRoot"),
            ValidationErrorKind::InvalidPort => String::from_str("InvalidPort"),
            ValidationErrorKind::InvalidProxy => String::from_str("InvalidProxy"),
            ValidationErrorKind::InvalidLocation => String::from_str("InvalidLocation"),
        }
    }
}

#[derive(Debug, Clone)]
pub enum CommandErrorKind {
    InvalidCmdResult,
    FsFailure,
}

impl CommandErrorKind {
    /// The name of the kind, as the report shows it.
    pub open spec fn name_text(self) -> Seq<char> {
        match self {
            CommandErrorKind::InvalidCmdResult => "InvalidCmdResult"@,
            CommandErrorKind::FsFailure => "FsFailure"@,
        }
    }

    /// The name of the kind, as the report shows it.
    pub fn name(&self) -> (r: String)
        ensures
            r@ == self.name_text(),
    {
        match self {
            CommandErrorKind::InvalidCmdResult => String::from_str("InvalidCmdResult"),
            CommandErrorKind::FsFailure => String::from_str("FsFailure"),
        }
    }
}

#[derive(Debug, Clone)]
pub enum BackupErrorKind {
    FsFailure,
    NotFound,
}

impl BackupErrorKind {
    /// The name of the kind, as the report shows it.
    pub open spec fn name_text(self) -> Seq<char> {
        match self {
            BackupErrorKind::FsFailure => "FsFailure"@,
            BackupErrorKind::NotFound => "NotFound"@,
        }
    }

    /// The name of the kind, as the report shows it.
    pub fn name(&self) -> (r: String)
        ensures
            r@ == self.name_text(),
    {
        match self {
            BackupErrorKind::FsFailure => String::from_str("FsFailure"),
            BackupErrorKind::NotFound => String::from_str("NotFound"),
        }
    }
}

#[derive(Debug, Clone)]
pub enum InitErrorKind {
    FsFailure,
    AlreadyExists,
}

impl InitErrorKind {
    /// The name of the kind, as the report shows it.
    pub open spec fn name_text(self) -> Seq<char> {
        match self {
            InitErrorKind::FsFailure => "FsFailure"@,
            InitErrorKind::AlreadyExists => "AlreadyExists"@,
        }
    }

    /// The name of the kind, as the report shows it.
    pub fn name(&self) -> (r: String)
        ensures
            r@ == self.name_text(),
    {
        match self {
            InitErrorKind::FsFailure => String::from_str("FsFailure"),
            InitErrorKind::AlreadyExists => String::from_str("AlreadyExists"),
        }
    }
}

#[derive(Debug, Clone)]
pub enum StateErrorKind {
    FsFailure,
    NotFound,
}

impl StateErrorKind {
    /// The name of the kind, as the report shows it.
    pub open spec fn name_text(self) -> Seq<char> {
        match self {
            StateErrorKind::FsFailure => "FsFailure"@,
            StateErrorKind::NotFound => "NotFound"@,
        }
    }

    /// The name of the kind, as the report shows it.
    pub fn name(&self) -> (r: String)
        ensures
            r@ == self.name_text(),
    {
        match self {
            StateErrorKind::FsFailure => String::from_str("FsFailure"),
            StateErrorKind::NotFound => String::from_str("NotFound"),
        }
    }
}

#[derive(Debug, Clone)]
pub enum RemoveErrorKind {
    FsFailure,
}

impl RemoveErrorKind {
    /// The name of the kind, as the report shows it.
    pub open spec fn name_text(self) -> Seq<char> {
        match self {
            RemoveErrorKind::FsFailure => "FsFailure"@,
        }
    }

    /// The name of the kind, as the report shows it.
    pub fn name(&self) -> (r: String)
        ensures
            r@ == self.name_text(),
    {
        match self {
            RemoveErrorKind::FsFailure => String::from_str("FsFailure"),
        }
    }
}

#[derive(Debug, Clone)]
pub enum ListErrorKind {
    FsFailure,
}

impl ListErrorKind {
    /// The name of the kind, as the report shows it.
    pub open spec fn name_text(self) -> Seq<char> {
        match self {
            ListErrorKind::FsFailure => "FsFailure"@,
        }
    }

    /// The name of the kind, as the report shows it.
    pub fn name(&self) -> (r: String)
        ensures
            r@ == self.name_text(),
    {
        match self {
            ListErrorKind::FsFailure => String::from_str("FsFailure"),
        }
    }
}

#[derive(Debug, Clone)]
pub enum AddLocErrorKind {
    FsFailure,
    IoFailure,
    InvalidInput,
    NotFound,
    AlreadyExists,
}

impl AddLocErrorKind {
    /// The name of the kind, as the report shows it.
    pub open spec fn name_text(self) -> Seq<char> {
        match self {
            AddLocErrorKind::FsFailure => "FsFailure"@,
            AddLocErrorKind::IoFailure => "IoFailure"@,
            AddLocErrorKind::InvalidInput => "InvalidInput"@,
            AddLocErrorKind::NotFound => "NotFound"@,
            AddLocErrorKind::AlreadyExists => "AlreadyExists"@,
        }
    }

    /// The name of the kind, as the report shows it.
    pub fn name(&self) -> (r: String)
        ensures
            r@ == self.name_text(),
    {
        match self {
            AddLocErrorKind::FsFailure => String::from_str("FsFailure"),
            AddLocErrorKind::IoFailure => String::from_str("IoFailure"),
            AddLocErrorKind::InvalidInput => String::from_str("InvalidInput"),
            AddLocErrorKind::NotFound => String::from_str("NotFound"),
            AddLocErrorKind::AlreadyExists => String::from_str("AlreadyExists"),
        }
    }
}

#[derive(Debug, Clone)]
pub enum RemoveLocErrorKind {
    FsFailure,
    NotFound,
    AlreadyExists,
}

impl RemoveLocErrorKind {
    /// The name of the kind, as the report shows it.
    pub open spec fn name_text(self) -> Seq<char> {
        match self {
            RemoveLocErrorKind::FsFailure => "FsFailure"@,
            RemoveLocErrorKind::NotFound => "NotFound"@,
            RemoveLocErrorKind::AlreadyExists => "AlreadyExists"@,
        }
    }

    /// The name of the kind, as the report shows it.
    pub fn name(&self) -> (r: String)
        ensures
            r@ == self.name_text(),
    {
        match self {
            RemoveLocErrorKind::FsFailure => String::from_str("FsFailure"),
            RemoveLocErrorKind::NotFound => String::from_str("NotFound"),
            RemoveLocErrorKind::AlreadyExists => String::from_str("AlreadyExists"),
        }
    }
}

impl LpnlError {
    /// The message of the error.
    pub open spec fn msg(self) -> Seq<char> {
        match self {
            LpnlError::SetupError { message, .. } => message@,
            LpnlError::DirInitError { message, .. } => message@,
            LpnlError::ValidationError { message, .. } => message@,
            LpnlError::CommandError { message, .. } => message@,
            LpnlError::BackupError { message, .. } => message@,
            LpnlError::InitError { message, .. } => message@,
            LpnlError::StateError { message, .. } => message@,
            LpnlError::RemoveError { message, .. } => message@,
            LpnlError::ListError { message, .. } => message@,
            LpnlError::AddLocError { message, .. } => message@,
            LpnlError::RemoveLocError { message, .. } => message@,
        }
    }

    /// The name of the error's kind.
    pub open spec fn kind_text(self) -> Seq<char> {
        match self {
            LpnlError::SetupError { kind, .. } => kind.name_text(),
            LpnlError::DirInitError { kind, .. } => kind.name_text(),
            LpnlError::ValidationError { kind, .. } => kind.name_text(),
            LpnlError::CommandError { kind, .. } => kind.name_text(),
            LpnlError::BackupError { kind, .. } => kind.name_text(),
            LpnlError::InitError { kind, .. } => kind.name_text(),
            LpnlError::StateError { kind, .. } => kind.name_text(),
            LpnlError::RemoveError { kind, .. } => kind.name_text(),
            LpnlError::ListError { kind, .. } => kind.name_text(),
            LpnlError::AddLocError { kind, .. } => kind.name_text(),
            LpnlError::RemoveLocError { kind, .. } => kind.name_text(),
        }
    }

    /// The exit status that reports the error: one per command family.
    pub open spec fn code(self) -> i32 {
        match self {
            LpnlError::SetupError { .. } => 1,
            LpnlError::DirInitError { .. } => 2,
            LpnlError::ValidationError { .. } => 3,
            LpnlError::CommandError { .. } => 4,
            LpnlError::BackupError { .. } => 5,
            LpnlError::InitError { .. } => 6,
            LpnlError::StateError { .. } => 7,
            LpnlError::RemoveError { .. } => 8,
            LpnlError::ListError { .. } => 9,
            LpnlError::AddLocError { .. } => 10,
            LpnlError::RemoveLocError { .. } => 11,
        }
    }

    /// The exit status that reports the error.
    pub fn exit_code(&self) -> (c: i32)
        ensures
            c == self.code(),
    {
        match self {
            LpnlError::SetupError { .. } => 1,
            LpnlError::DirInitError { .. } => 2,
            LpnlError::ValidationError { .. } => 3,
            LpnlError::CommandError { .. } => 4,
            LpnlError::BackupError { .. } => 5,
            LpnlError::InitError { .. } => 6,
            LpnlError::StateError { .. } => 7,
            LpnlError::RemoveError { .. } => 8,
            LpnlError::ListError { .. } => 9,
            LpnlError::AddLocError { .. } => 10,
            LpnlError::RemoveLocError { .. } => 11,
        }
    }

    /// The message of the error.
    pub fn message(&self) -> (r: String)
        ensures
            r@ == self.msg(),
    {
        match self {
            LpnlError::SetupError { message, .. } => message.clone(),
            LpnlError::DirInitError { message, .. } => message.clone(),
            LpnlError::ValidationError { message, .. } => message.clone(),
            LpnlError::CommandError { message, .. } => message.clone(),
            LpnlError::BackupError { message, .. } => message.clone(),
            LpnlError::InitError { message, .. } => message.clone(),
            LpnlError::StateError { message, .. } => message.clone(),
            LpnlError::RemoveError { message, .. } => message.clone(),
            LpnlError::ListError { message, .. } => message.clone(),
            LpnlError::AddLocError { message, .. } => message.clone(),
            LpnlError::RemoveLocError { message, .. } => message.clone(),
        }
    }

    /// The name of the error's kind.
    pub fn kind_name(&self) -> (r: String)
        ensures
            r@ == self.kind_text(),
    {
        match self {
            LpnlError::SetupError { kind, .. } => kind.name(),
            LpnlError::DirInitError { kind, .. } => kind.name(),
            LpnlError::ValidationError { kind, .. } => kind.name(),
            LpnlError::CommandError { kind, .. } => kind.name(),
            LpnlError::BackupError { kind, .. } => kind.name(),
            LpnlError::InitError { kind, .. } => kind.name(),
            LpnlError::StateError { kind, .. } => kind.name(),
            LpnlError::RemoveError { kind, .. } => kind.name(),
            LpnlError::ListError { kind, .. } => kind.name(),
            LpnlError::AddLocError { kind, .. } => kind.name(),
            LpnlError::RemoveLocError { kind, .. } => kind.name(),
        }
    }

    /// The line that reports the error: `[kind] message`.
    pub open spec fn report_text(self) -> Seq<char> {
        "["@ + self.kind_text() + "] "@ + self.msg()
    }

    /// The line that reports the error: `[kind] message`.
    pub fn report_line(&self) -> (r: String)
        ensures
            r@ == self.report_text(),
    {
        let mut r = String::from_str("[");
        r.append(self.kind_name().as_str());
        r.append("] ");
        r.append(self.message().as_str());
        r
    }
}

/// An error built from a literal message.
pub fn text(s: &str) -> (r: String)
    ensures
        r@ == s@,
{
    String::from_str(s)
}

} // verus!
