use vstd::prelude::*;

verus! {

/// The directories that a script is told of.
#[derive(Debug, Clone, Copy, PartialEq, Eq, Structural)]
pub enum Directory {
    Home,
    Script,
    Theme,
    Icon,
    Font,
    Config,
}

impl Directory {
    /// The name under which the script finds the directory.
    pub open spec fn key_of(self) -> Seq<char> {
        match self {
            Directory::Home => "HOME_DIR"@,
            Directory::Script => "SCRIPT_DIR"@,
            Directory::Theme => "THEME_DIR"@,
            Directory::Icon => "ICON_DIR"@,
            Directory::Font => "FONT_DIR"@,
            Directory::Config => "CONFIG_DIR"@,
        }
    }

    /// Where the directory is looked for below the home directory. The home directory and
    /// the script's directory are not derived from it.
    pub open spec fn below_home_of(self) -> Option<Seq<char>> {
        match self {
            Directory::Home => None,
            Directory::Script => None,
            Directory::Theme => Some(".themes"@),
            Directory::Icon => Some(".local/share/icons"@),
            Directory::Font => Some(".local/share/fonts"@),
            Directory::Config => Some(".config"@),
        }
    }

    /// The name under which the script finds the directory.
    pub fn key(&self) -> (key: &'static str)
        ensures
            key@ == self.key_of(),
    {
        match self {
            Directory::Home => "HOME_DIR",
            Directory::Script => "SCRIPT_DIR",
            Directory::Theme => "THEME_DIR",
            Directory::Icon => "ICON_DIR",
            Directory::Font => "FONT_DIR",
            Directory::Config => "CONFIG_DIR",
        }
    }

    /// Where the directory is looked for below the home directory.
    pub fn below_home(&self) -> (rest: Option<&'static str>)
        ensures
            match rest {
                Some(rest) => self.below_home_of() == Some(rest@),
                None => self.below_home_of() is None,
            },
    {
        match self {
            Directory::Home => None,
            Directory::Script => None,
            Directory::Theme => Some(".themes"),
            Directory::Icon => Some(".local/share/icons"),
            Directory::Font => Some(".local/share/fonts"),
            Directory::Config => Some(".config"),
        }
    }
}

/// The six directories, in the order in which the script's table lists them.
pub open spec fn listed() -> Seq<Directory> {
    seq![
        Directory::Home,
        Directory::Script,
        Directory::Theme,
        Directory::Icon,
        Directory::Font,
        Directory::Config,
    ]
}

/// The path `rest` taken from `base`. A path that begins at the root stands for itself,
/// whatever the base. Any other is put below `base`: one separator stands between the two
/// unless `base` is empty or ends in one.
pub open spec fn joined(base: Seq<char>, rest: Seq<char>) -> Seq<char> {
    if rest.len() > 0 && rest.first() == '/' {
        rest
    } else if base.len() == 0 || base.last() == '/' {
        base + rest
    } else {
        base.push('/') + rest
    }
}

/// The path to look at for a directory, given what the home directory is said to be: that
/// path itself for the home directory, the directory's place below it for those that are
/// looked for there. `None` where the home directory is unknown, and for the script's
/// directory, which is found from the script's own path.
pub open spec fn candidate_of(home: Option<Seq<char>>, directory: Directory) -> Option<
    Seq<char>,
> {
    match home {
        None => None,
        Some(home) => match directory {
            Directory::Home => Some(home),
            Directory::Script => None,
            _ => Some(joined(home, directory.below_home_of()->0)),
        },
    }
}

/// The path `rest` taken from `base`: `rest` itself where it begins at the root, else
/// `rest` below `base`.
pub fn join(base: &str, rest: &str) -> (path: String)
    ensures
        path@ == joined(base@, rest@),
{
    proof {
        reveal_strlit("/");
    }
    if rest.unicode_len() > 0 && rest.get_char(0) == '/' {
        return String::from_str(rest);
    }
    let mut path = String::from_str(base);
    let length = base.unicode_len();
    if length > 0 && base.get_char(length - 1) != '/' {
        path.append("/");
        assert(path@ =~= base@.push('/'));
    }
    path.append(rest);
    path
}

/// The path to look at for a directory, given what the home directory is said to be.
/// Whether anything stands there is for the caller to find out: every directory of a
/// context, the home directory too, is the resolved form of its candidate, and a candidate
/// that does not resolve leaves the directory absent.
pub fn candidate(home: &Option<String>, directory: Directory) -> (path: Option<String>)
    ensures
        path.deep_view() == candidate_of(home.deep_view(), directory),
{
    match home {
        None => None,
        Some(home) => match directory {
            Directory::Home => Some(home.clone()),
            Directory::Script => None,
            _ => match directory.below_home() {
                Some(rest) => Some(join(home.as_str(), rest)),
                None => None,
            },
        },
    }
}

/// What a script is told of its surroundings. It is made once, before the script runs, and
/// only read from then on. A directory is `None` where it could not be found; that is no
/// error, and a script has to reckon with it.
#[derive(Debug, PartialEq, Eq)]
pub struct RunContext {
    pub home_dir: Option<String>,
    pub script_dir: Option<String>,
    pub theme_dir: Option<String>,
    pub icon_dir: Option<String>,
    pub font_dir: Option<String>,
    pub config_dir: Option<String>,
    /// Update only: nothing that exists is overwritten.
    pub update: bool,
}

/// A context as a mathematical value.
pub struct RunContextView {
    pub home_dir: Option<Seq<char>>,
    pub script_dir: Option<Seq<char>>,
    pub theme_dir: Option<Seq<char>>,
    pub icon_dir: Option<Seq<char>>,
    pub font_dir: Option<Seq<char>>,
    pub config_dir: Option<Seq<char>>,
    pub update: bool,
}

impl RunContextView {
    /// The path of a directory, `None` where it is absent.
    pub open spec fn at(self, directory: Directory) -> Option<Seq<char>> {
        match directory {
            Directory::Home => self.home_dir,
            Directory::Script => self.script_dir,
            Directory::Theme => self.theme_dir,
            Directory::Icon => self.icon_dir,
            Directory::Font => self.font_dir,
            Directory::Config => self.config_dir,
        }
    }

    /// The table that the script reads: each directory's name with its path, in the listed
    /// order.
    pub open spec fn table(self) -> Seq<(Seq<char>, Option<Seq<char>>)> {
        listed().map_values(|directory: Directory| (directory.key_of(), self.at(directory)))
    }
}

impl View for RunContext {
    type V = RunContextView;

    open spec fn view(&self) -> RunContextView {
        RunContextView {
            home_dir: self.home_dir.deep_view(),
            script_dir: self.script_dir.deep_view(),
            theme_dir: self.theme_dir.deep_view(),
            icon_dir: self.icon_dir.deep_view(),
            font_dir: self.font_dir.deep_view(),
            config_dir: self.config_dir.deep_view(),
            update: self.update,
        }
    }
}

fn copy_text(text: &Option<String>) -> (copy: Option<String>)
    ensures
        copy.deep_view() == text.deep_view(),
{
    match text {
        Some(text) => Some(text.clone()),
        None => None,
    }
}

/// The six directories, in the order in which the script's table lists them.
pub fn directories() -> (all: Vec<Directory>)
    ensures
        all@ == listed(),
{
    let mut all: Vec<Directory> = Vec::new();
    all.push(Directory::Home);
    all.push(Directory::Script);
    all.push(Directory::Theme);
    all.push(Directory::Icon);
    all.push(Directory::Font);
    all.push(Directory::Config);
    all
}

impl RunContext {
    /// The path of a directory, `None` where it is absent.
    pub fn get(&self, directory: Directory) -> (path: Option<String>)
        ensures
            path.deep_view() == self@.at(directory),
    {
        match directory {
            Directory::Home => copy_text(&self.home_dir),
            Directory::Script => copy_text(&self.script_dir),
            Directory::Theme => copy_text(&self.theme_dir),
            Directory::Icon => copy_text(&self.icon_dir),
            Directory::Font => copy_text(&self.font_dir),
            Directory::Config => copy_text(&self.config_dir),
        }
    }

    /// The rows of the table that the script reads: every directory has its row, an absent
    /// one too.
    pub fn entries(&self) -> (rows: Vec<(String, Option<String>)>)
        ensures
            rows.deep_view() == self@.table(),
    {
        let all = directories();
        let mut rows: Vec<(String, Option<String>)> = Vec::new();
        let mut i: usize = 0;
        while i < all.len()
            invariant
                all@ == listed(),
                i <= all.len(),
                rows.len() == i,
                forall|k: int|
                    0 <= k < i ==> (#[trigger] rows[k]).0@ == all[k].key_of()
                        && rows[k].1.deep_view() == self@.at(all[k]),
            decreases all.len() - i,
        {
            let directory = all[i];
            rows.push((String::from_str(directory.key()), self.get(directory)));
            i += 1;
        }
        assert(rows.deep_view() =~= self@.table());
        rows
    }
}

} // verus!
