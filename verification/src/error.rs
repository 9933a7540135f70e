use vstd::prelude::*;
use crate::text::{decimal, signed_decimal, to_decimal, to_signed_decimal};

verus! {

pub type AppResult<T> = Result<T, AppError>;

/// Everything that can go wrong, fatal or not.
///
/// `ConfigNotFound`, and `FromLua` where the script itself fails, end the run. The others
/// concern one link or one call: they are reported and the run goes on.
#[derive(Debug, PartialEq, Eq)]
pub enum AppError {
    /// The script file cannot be read.
    ConfigNotFound,
    /// The entry at this position of a link collection is no table, or has no usable name.
    FieldHasNoName(usize),
    /// The named link lacks a required field.
    MissingField { field_name: &'static str, table_name: String },
    /// A path of the named link does not resolve on disk.
    LocationNotFound { field_name: &'static str, table_name: String },
    /// The settings command ran for the named setter and did not succeed: it ended with
    /// this status, or without one where a signal ended it.
    CommandFailed { setter: &'static str, status: Option<i32> },
    /// The operating system refused an operation; the text is its own.
    IOError(String),
    /// The interpreter reported an error; the text is its own.
    FromLua(String),
}

/// An error as a mathematical value.
pub enum AppErrorView {
    ConfigNotFound,
    FieldHasNoName(nat),
    MissingField { field_name: Seq<char>, table_name: Seq<char> },
    LocationNotFound { field_name: Seq<char>, table_name: Seq<char> },
    CommandFailed { setter: Seq<char>, status: Option<int> },
    IOError(Seq<char>),
    FromLua(Seq<char>),
}

impl View for AppError {
    type V = AppErrorView;

    open spec fn view(&self) -> AppErrorView {
        match self {
            AppError::ConfigNotFound => AppErrorView::ConfigNotFound,
            AppError::FieldHasNoName(index) => AppErrorView::FieldHasNoName(*index as nat),
            AppError::MissingField { field_name, table_name } => AppErrorView::MissingField {
                field_name: field_name@,
                table_name: table_name@,
            },
            AppError::LocationNotFound { field_name, table_name } => AppErrorView::LocationNotFound {
                field_name: field_name@,
                table_name: table_name@,
            },
            AppError::CommandFailed { setter, status } => AppErrorView::CommandFailed {
                setter: setter@,
                status: match status {
                    Some(code) => Some(*code as int),
                    None => None,
                },
            },
            AppError::IOError(text) => AppErrorView::IOError(text@),
            AppError::FromLua(text) => AppErrorView::FromLua(text@),
        }
    }
}

impl DeepView for AppError {
    type V = AppErrorView;

    open spec fn deep_view(&self) -> AppErrorView {
        self@
    }
}

impl Clone for AppError {
    fn clone(&self) -> (copy: AppError)
        ensures
            copy@ == self@,
    {
        match self {
            AppError::ConfigNotFound => AppError::ConfigNotFound,
            AppError::FieldHasNoName(index) => AppError::FieldHasNoName(*index),
            AppError::MissingField { field_name, table_name } => AppError::MissingField {
                field_name: *field_name,
                table_name: table_name.clone(),
            },
            AppError::LocationNotFound { field_name, table_name } => AppError::LocationNotFound {
                field_name: *field_name,
                table_name: table_name.clone(),
            },
            AppError::CommandFailed { setter, status } => AppError::CommandFailed {
                setter: *setter,
                status: *status,
            },
            AppError::IOError(text) => AppError::IOError(text.clone()),
            AppError::FromLua(text) => AppError::FromLua(text.clone()),
        }
    }
}

impl AppErrorView {
    /// Whether the error ends the run. The others are reported and passed over.
    pub open spec fn fatal(self) -> bool {
        self is ConfigNotFound || self is FromLua
    }

    /// The one line that reports the error.
    pub open spec fn message(self) -> Seq<char> {
        match self {
            AppErrorView::ConfigNotFound => "[e] Config not found!"@,
            AppErrorView::FieldHasNoName(index) => "[e] No name for table at index: "@ + decimal(
                index,
            ) + ", skipping!"@,
            AppErrorView::MissingField { field_name, table_name } => "[e] Missing field: \""@
                + field_name + "\" for table: \""@ + table_name + "\", skipping!"@,
            AppErrorView::LocationNotFound { field_name, table_name } =>
                "[e] Path Not found for field: \""@ + field_name + "\" for table: \""@ + table_name
                    + "\", skipping!"@,
            AppErrorView::CommandFailed { setter, status } => match status {
                Some(code) => "[e] Command failed for setter: \""@ + setter + "\" with status: "@
                    + signed_decimal(code),
                None => "[e] Command failed for setter: \""@ + setter + "\", ended by a signal"@,
            },
            AppErrorView::IOError(text) => text,
            AppErrorView::FromLua(text) => text,
        }
    }
}

/// The view of an outcome without a value.
pub open spec fn unit_view(outcome: AppResult<()>) -> Result<(), AppErrorView> {
    match outcome {
        Ok(()) => Ok(()),
        Err(error) => Err(error@),
    }
}

impl AppError {
    /// Whether the error ends the run.
    pub fn is_fatal(&self) -> (fatal: bool)
        ensures
            fatal == self@.fatal(),
    {
        match self {
            AppError::ConfigNotFound => true,
            AppError::FromLua(_) => true,
            _ => false,
        }
    }

    /// The one line that reports the error: it names the entry and the field concerned.
    pub fn message(&self) -> (line: String)
        ensures
            line@ == self@.message(),
    {
        match self {
            AppError::ConfigNotFound => String::from_str("[e] Config not found!"),
            AppError::FieldHasNoName(index) => {
                let mut line = String::from_str("[e] No name for table at index: ");
                let number = to_decimal(*index);
                line.append(number.as_str());
                line.append(", skipping!");
                line
            },
            AppError::MissingField { field_name, table_name } => {
                let mut line = String::from_str("[e] Missing field: \"");
                line.append(field_name);
                line.append("\" for table: \"");
                line.append(table_name.as_str());
                line.append("\", skipping!");
                line
            },
            AppError::LocationNotFound { field_name, table_name } => {
                let mut line = String::from_str("[e] Path Not found for field: \"");
                line.append(field_name);
                line.append("\" for table: \"");
                line.append(table_name.as_str());
                line.append("\", skipping!");
                line
            },
            AppError::CommandFailed { setter, status } => {
                let mut line = String::from_str("[e] Command failed for setter: \"");
                line.append(setter);
                match status {
                    Some(code) => {
                        line.append("\" with status: ");
                        let number = to_signed_decimal(*code);
                        line.append(number.as_str());
                    },
                    None => {
                        line.append("\", ended by a signal");
                    },
                }
                line
            },
            AppError::IOError(text) => text.clone(),
            AppError::FromLua(text) => text.clone(),
        }
    }
}

} // verus!
