//! The errors of the local backend, and the errors that its callers see.
use crate::text::join2;
use vstd::prelude::*;
use vstd::string::*;

verus! {

/// What can go wrong in the local backend.
#[derive(Debug)]
pub enum LocalError {
    TmuxError { message: String },
    WeaverNotFound { id: String },
    WeaverExists { id: String },
    /// An operation on the file system failed, for the given reason.
    Io(String),
    PtyError { message: String },
    MetadataError { message: String },
    ProcessError { message: String },
    InvalidWeaverId { id: String },
}

pub type LocalResult<T> = Result<T, LocalError>;

/// A [`LocalError`] as text.
pub enum LocalErrorView {
    TmuxError { message: Seq<char> },
    WeaverNotFound { id: Seq<char> },
    WeaverExists { id: Seq<char> },
    Io(Seq<char>),
    PtyError { message: Seq<char> },
    MetadataError { message: Seq<char> },
    ProcessError { message: Seq<char> },
    InvalidWeaverId { id: Seq<char> },
}

impl View for LocalError {
    type V = LocalErrorView;

    open spec fn view(&self) -> LocalErrorView {
        match self {
            LocalError::TmuxError { message } => LocalErrorView::TmuxError { message: message@ },
            LocalError::WeaverNotFound { id } => LocalErrorView::WeaverNotFound { id: id@ },
            LocalError::WeaverExists { id } => LocalErrorView::WeaverExists { id: id@ },
            LocalError::Io(reason) => LocalErrorView::Io(reason@),
            LocalError::PtyError { message } => LocalErrorView::PtyError { message: message@ },
            LocalError::MetadataError { message } => LocalErrorView::MetadataError {
                message: message@,
            },
            LocalError::ProcessError { message } => LocalErrorView::ProcessError {
                message: message@,
            },
            LocalError::InvalidWeaverId { id } => LocalErrorView::InvalidWeaverId { id: id@ },
        }
    }
}

impl LocalErrorView {
    /// The error in words.
    pub open spec fn text(self) -> Seq<char> {
        match self {
            LocalErrorView::TmuxError { message } => "tmux error: "@ + message,
            LocalErrorView::WeaverNotFound { id } => "weaver not found: "@ + id,
            LocalErrorView::WeaverExists { id } => "weaver already exists: "@ + id,
            LocalErrorView::Io(reason) => "IO error: "@ + reason,
            LocalErrorView::PtyError { message } => "PTY error: "@ + message,
            LocalErrorView::MetadataError { message } => "metadata error: "@ + message,
            LocalErrorView::ProcessError { message } => "process error: "@ + message,
            LocalErrorView::InvalidWeaverId { id } => "invalid weaver id: "@ + id,
        }
    }

    /// The error as the callers of the backend see it.
    pub open spec fn as_k8s(self) -> K8sErrorView {
        match self {
            LocalErrorView::WeaverNotFound { id } => K8sErrorView::PodNotFound { name: id },
            LocalErrorView::PtyError { message } => K8sErrorView::AttachError { message },
            LocalErrorView::TmuxError { message } => K8sErrorView::ApiError { message },
            LocalErrorView::MetadataError { message } => K8sErrorView::ApiError { message },
            LocalErrorView::ProcessError { message } => K8sErrorView::ApiError { message },
            LocalErrorView::Io(reason) => K8sErrorView::ApiError { message: reason },
            LocalErrorView::WeaverExists { id } => K8sErrorView::ApiError {
                message: "weaver already exists: "@ + id,
            },
            LocalErrorView::InvalidWeaverId { id } => K8sErrorView::ApiError {
                message: "invalid weaver id: "@ + id,
            },
        }
    }
}

impl LocalError {
    /// The error in words.
    pub fn to_text(&self) -> (text: String)
        ensures
            text@ == self@.text(),
    {
        match self {
            LocalError::TmuxError { message } => join2("tmux error: ", message.as_str()),
            LocalError::WeaverNotFound { id } => join2("weaver not found: ", id.as_str()),
            LocalError::WeaverExists { id } => join2("weaver already exists: ", id.as_str()),
            LocalError::Io(reason) => join2("IO error: ", reason.as_str()),
            LocalError::PtyError { message } => join2("PTY error: ", message.as_str()),
            LocalError::MetadataError { message } => join2("metadata error: ", message.as_str()),
            LocalError::ProcessError { message } => join2("process error: ", message.as_str()),
            LocalError::InvalidWeaverId { id } => join2("invalid weaver id: ", id.as_str()),
        }
    }
}

/// The errors of the pod interface.
#[derive(Debug)]
pub enum K8sError {
    PodNotFound { name: String },
    NamespaceNotFound { name: String },
    ApiError { message: String },
    StreamError { message: String },
    AttachError { message: String },
}

/// A [`K8sError`] as text.
pub enum K8sErrorView {
    PodNotFound { name: Seq<char> },
    NamespaceNotFound { name: Seq<char> },
    ApiError { message: Seq<char> },
    StreamError { message: Seq<char> },
    AttachError { message: Seq<char> },
}

impl View for K8sError {
    type V = K8sErrorView;

    open spec fn view(&self) -> K8sErrorView {
        match self {
            K8sError::PodNotFound { name } => K8sErrorView::PodNotFound { name: name@ },
            K8sError::NamespaceNotFound { name } => K8sErrorView::NamespaceNotFound { name: name@ },
            K8sError::ApiError { message } => K8sErrorView::ApiError { message: message@ },
            K8sError::StreamError { message } => K8sErrorView::StreamError { message: message@ },
            K8sError::AttachError { message } => K8sErrorView::AttachError { message: message@ },
        }
    }
}

impl From<LocalError> for K8sError {
    fn from(err: LocalError) -> (error: Self)
        ensures
            error@ == err@.as_k8s(),
    {
        match err {
            LocalError::WeaverNotFound { id } => K8sError::PodNotFound { name: id },
            LocalError::TmuxError { message } => K8sError::ApiError { message },
            LocalError::Io(reason) => K8sError::ApiError { message: reason },
            LocalError::PtyError { message } => K8sError::AttachError { message },
            LocalError::MetadataError { message } => K8sError::ApiError { message },
            LocalError::ProcessError { message } => K8sError::ApiError { message },
            LocalError::WeaverExists { id } => K8sError::ApiError {
                message: join2("weaver already exists: ", id.as_str()),
            },
            LocalError::InvalidWeaverId { id } => K8sError::ApiError {
                message: join2("invalid weaver id: ", id.as_str()),
            },
        }
    }
}

impl vstd::std_specs::convert::FromSpecImpl<LocalError> for K8sError {
    open spec fn obeys_from_spec() -> bool {
        false
    }

    open spec fn from_spec(err: LocalError) -> Self {
        arbitrary()
    }
}

/// A caller sees a missing pod exactly when a weaver was not found, and a
/// failed attachment exactly when the terminal could not be opened.
pub proof fn law_error_kinds_are_kept(error: LocalErrorView)
    ensures
        error.as_k8s() is PodNotFound <==> error is WeaverNotFound,
        error.as_k8s() is AttachError <==> error is PtyError,
        !(error.as_k8s() is NamespaceNotFound),
        !(error.as_k8s() is StreamError),
{
}

/// A caller is told what went wrong in full: the reason, or what the error says of
/// the weaver.
pub proof fn law_errors_keep_their_words(error: LocalErrorView)
    ensures
        match error.as_k8s() {
            K8sErrorView::PodNotFound { name } => error == (LocalErrorView::WeaverNotFound {
                id: name,
            }),
            K8sErrorView::AttachError { message } => error == (LocalErrorView::PtyError { message }),
            K8sErrorView::ApiError { message } => {
                ||| error == (LocalErrorView::TmuxError { message })
                ||| error == (LocalErrorView::MetadataError { message })
                ||| error == (LocalErrorView::ProcessError { message })
                ||| error == LocalErrorView::Io(message)
                ||| (error is WeaverExists || error is InvalidWeaverId) && message == error.text()
            },
            _ => false,
        },
{
}

/// The words of an error: which one it is, and then all that it holds.
pub proof fn law_error_text(held: Seq<char>)
    ensures
        (LocalErrorView::TmuxError { message: held }).text() == "tmux error: "@ + held,
        (LocalErrorView::WeaverNotFound { id: held }).text() == "weaver not found: "@ + held,
        (LocalErrorView::WeaverExists { id: held }).text() == "weaver already exists: "@ + held,
        (LocalErrorView::Io(held)).text() == "IO error: "@ + held,
        (LocalErrorView::PtyError { message: held }).text() == "PTY error: "@ + held,
        (LocalErrorView::MetadataError { message: held }).text() == "metadata error: "@ + held,
        (LocalErrorView::ProcessError { message: held }).text() == "process error: "@ + held,
        (LocalErrorView::InvalidWeaverId { id: held }).text() == "invalid weaver id: "@ + held,
{
}

/// Errors are seen as they are.
pub proof fn law_errors_are_seen_as_they_are(local: LocalError, error: K8sError)
    ensures
        match local {
            LocalError::TmuxError { message } => local@ == (LocalErrorView::TmuxError {
                message: message@,
            }),
            LocalError::WeaverNotFound { id } => local@ == (LocalErrorView::WeaverNotFound {
                id: id@,
            }),
            LocalError::WeaverExists { id } => local@ == (LocalErrorView::WeaverExists { id: id@ }),
            LocalError::Io(reason) => local@ == LocalErrorView::Io(reason@),
            LocalError::PtyError { message } => local@ == (LocalErrorView::PtyError {
                message: message@,
            }),
            LocalError::MetadataError { message } => local@ == (LocalErrorView::MetadataError {
                message: message@,
            }),
            LocalError::ProcessError { message } => local@ == (LocalErrorView::ProcessError {
                message: message@,
            }),
            LocalError::InvalidWeaverId { id } => local@ == (LocalErrorView::InvalidWeaverId {
                id: id@,
            }),
        },
        match error {
            K8sError::PodNotFound { name } => error@ == (K8sErrorView::PodNotFound { name: name@ }),
            K8sError::NamespaceNotFound { name } => error@ == (K8sErrorView::NamespaceNotFound {
                name: name@,
            }),
            K8sError::ApiError { message } => error@ == (K8sErrorView::ApiError {
                message: message@,
            }),
            K8sError::StreamError { message } => error@ == (K8sErrorView::StreamError {
                message: message@,
            }),
            K8sError::AttachError { message } => error@ == (K8sErrorView::AttachError {
                message: message@,
            }),
        },
{
}

} // verus!
