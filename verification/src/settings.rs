use vstd::prelude::*;
use crate::error::{unit_view, AppError, AppErrorView, AppResult};

verus! {

/// The appearance setters that a script can call. Each is one run of the desktop's
/// settings command, which writes one key.
#[derive(Debug, Clone, Copy, PartialEq, Eq, Structural)]
pub enum Setter {
    Font,
    FontMonospace,
    GtkIcons,
    GtkTheme,
    /// Has no implementation: a call of it has to fail, and be seen to fail.
    QtTheme,
}

impl Setter {
    /// The name under which the script calls the setter.
    pub open spec fn name_of(self) -> Seq<char> {
        match self {
            Setter::Font => "setFont"@,
            Setter::FontMonospace => "setFontMonospace"@,
            Setter::GtkIcons => "setGtkIcons"@,
            Setter::GtkTheme => "setGtkTheme"@,
            Setter::QtTheme => "setQtTheme"@,
        }
    }

    /// The key that the setter writes, `None` for the one without implementation.
    pub open spec fn key_of(self) -> Option<Seq<char>> {
        match self {
            Setter::Font => Some("/org/gnome/desktop/interface/font-name"@),
            Setter::FontMonospace => Some("/org/gnome/desktop/interface/monospace-font-name"@),
            Setter::GtkIcons => Some("/org/gnome/desktop/interface/icon-theme"@),
            Setter::GtkTheme => Some("/org/gnome/desktop/interface/gtk-theme"@),
            Setter::QtTheme => None,
        }
    }

    /// The name under which the script calls the setter.
    pub fn name(&self) -> (name: &'static str)
        ensures
            name@ == self.name_of(),
    {
        match self {
            Setter::Font => "setFont",
            Setter::FontMonospace => "setFontMonospace",
            Setter::GtkIcons => "setGtkIcons",
            Setter::GtkTheme => "setGtkTheme",
            Setter::QtTheme => "setQtTheme",
        }
    }

    /// The key that the setter writes, `None` for the one without implementation.
    pub fn key(&self) -> (key: Option<&'static str>)
        ensures
            match key {
                Some(key) => self.key_of() == Some(key@),
                None => self.key_of() is None,
            },
    {
        match self {
            Setter::Font => Some("/org/gnome/desktop/interface/font-name"),
            Setter::FontMonospace => Some("/org/gnome/desktop/interface/monospace-font-name"),
            Setter::GtkIcons => Some("/org/gnome/desktop/interface/icon-theme"),
            Setter::GtkTheme => Some("/org/gnome/desktop/interface/gtk-theme"),
            Setter::QtTheme => None,
        }
    }
}

/// The five setters, in the order in which they are offered to the script.
pub open spec fn offered() -> Seq<Setter> {
    seq![Setter::Font, Setter::FontMonospace, Setter::GtkIcons, Setter::GtkTheme, Setter::QtTheme]
}

/// A font as the settings know it: the family, a space, the size.
pub open spec fn font_of(family: Seq<char>, size: Seq<char>) -> Seq<char> {
    family + " "@ + size
}

/// A value as it is handed to the settings command: in single quotes, and those in double
/// quotes.
pub open spec fn quoted_of(value: Seq<char>) -> Seq<char> {
    "\"'"@ + value + "'\""@
}

/// The arguments of the settings command for a setter and a value: the word `write`, the
/// key, the quoted value. `None` for the setter without implementation.
pub open spec fn arguments_of(setter: Setter, value: Seq<char>) -> Option<Seq<Seq<char>>> {
    match setter.key_of() {
        Some(key) => Some(seq!["write"@, key, quoted_of(value)]),
        None => None,
    }
}

/// The five setters, in the order in which they are offered to the script.
pub fn setters() -> (all: Vec<Setter>)
    ensures
        all@ == offered(),
{
    let mut all: Vec<Setter> = Vec::new();
    all.push(Setter::Font);
    all.push(Setter::FontMonospace);
    all.push(Setter::GtkIcons);
    all.push(Setter::GtkTheme);
    all.push(Setter::QtTheme);
    all
}

/// The name under which the script calls the function that applies a collection of links.
pub fn linker() -> (name: &'static str)
    ensures
        name@ == "linker"@,
{
    "linker"
}

/// What a run of the settings command came to, by the status that it ended with: success
/// for the status 0 alone. A run that a signal ended has no status.
pub open spec fn judged_of(setter: Setter, status: Option<int>) -> Result<(), AppErrorView> {
    if status == Some(0int) {
        Ok(())
    } else {
        Err(AppErrorView::CommandFailed { setter: setter.name_of(), status })
    }
}

/// The status of a run as a mathematical value.
pub open spec fn status_view(status: Option<i32>) -> Option<int> {
    match status {
        Some(code) => Some(code as int),
        None => None,
    }
}

/// What a run of the settings command came to. A failure concerns this one call: it is to
/// be reported, and neither the other setters nor the links are touched by it.
pub fn judged(setter: Setter, status: Option<i32>) -> (outcome: AppResult<()>)
    ensures
        unit_view(outcome) == judged_of(setter, status_view(status)),
{
    match status {
        Some(code) => {
            if code == 0 {
                Ok(())
            } else {
                Err(AppError::CommandFailed { setter: setter.name(), status: Some(code) })
            }
        },
        None => Err(AppError::CommandFailed { setter: setter.name(), status: None }),
    }
}

/// The name of the settings command.
pub fn program() -> (name: &'static str)
    ensures
        name@ == "dconf"@,
{
    "dconf"
}

/// A font as the settings know it. The size comes as text, written as the script's number
/// prints.
pub fn font(family: &str, size: &str) -> (value: String)
    ensures
        value@ == font_of(family@, size@),
{
    let mut value = String::from_str(family);
    value.append(" ");
    value.append(size);
    value
}

/// A value as it is handed to the settings command.
pub fn quoted(value: &str) -> (text: String)
    ensures
        text@ == quoted_of(value@),
{
    let mut text = String::from_str("\"'");
    text.append(value);
    text.append("'\"");
    text
}

/// The arguments of the settings command for a setter and a value. `None` says that the
/// setter has no implementation: the caller has to fail, not pass over it.
pub fn arguments(setter: Setter, value: &str) -> (list: Option<Vec<String>>)
    ensures
        list.deep_view() == arguments_of(setter, value@),
{
    match setter.key() {
        Some(key) => {
            let mut list: Vec<String> = Vec::new();
            list.push(String::from_str("write"));
            list.push(String::from_str(key));
            list.push(quoted(value));
            assert(list.deep_view() =~= seq!["write"@, key@, quoted_of(value@)]);
            Some(list)
        },
        None => None,
    }
}

} // verus!
