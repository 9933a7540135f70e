use vstd::prelude::*;
use crate::args::AppArgs;
use crate::error::{AppError, AppErrorView, AppResult};
use crate::link::{Link, LinkSpec};

verus! {

/// What the four queries on a path answered.
///
/// `exists`, `is_dir` and `is_file` follow symbolic links; `is_symlink` does not. So for a
/// symbolic link that leads nowhere `exists` is false and `is_symlink` true: something
/// stands at the path all the same.
#[derive(Debug, Clone, Copy, PartialEq, Eq, Structural)]
pub struct Observed {
    pub exists: bool,
    pub is_dir: bool,
    pub is_file: bool,
    pub is_symlink: bool,
}

impl Observed {
    /// Whether anything stands at the path: something that the path leads to, or a
    /// symbolic link, wherever it leads.
    pub open spec fn stands(self) -> bool {
        self.exists || self.is_symlink
    }

    /// Whether anything stands at the path.
    pub fn occupied(&self) -> (occupied: bool)
        ensures
            occupied == self.stands(),
    {
        self.exists || self.is_symlink
    }
}

/// The directory that holds a destination, given the parent that the destination's path
/// has: that parent, the current directory where the parent is empty, as it is for a path
/// of one part, and none where the path has no parent, as the root has none.
pub open spec fn holder_of(parent: Option<Seq<char>>) -> Option<Seq<char>> {
    match parent {
        None => None,
        Some(parent) => if parent.len() == 0 {
            Some("."@)
        } else {
            Some(parent)
        },
    }
}

/// The directory to resolve for a destination, given the parent that its path has. A
/// destination without such a directory has a parent that does not resolve.
pub fn holder(parent: Option<&str>) -> (directory: Option<String>)
    ensures
        directory.deep_view() == holder_of(
            match parent {
                Some(parent) => Some(parent@),
                None => None,
            },
        ),
{
    match parent {
        None => None,
        Some(parent) => {
            if parent.unicode_len() == 0 {
                Some(String::from_str("."))
            } else {
                Some(String::from_str(parent))
            }
        },
    }
}

/// What was found on disk for one link, before anything is decided.
#[derive(Debug, PartialEq, Eq)]
pub struct Probe {
    /// The absolute, link-free form of the link's `src`; `None` where it does not resolve.
    pub src: Option<String>,
    /// Whether the directory that holds the link's `dest` resolves: see `holder`.
    pub dest_parent: bool,
    /// What stands at `dest` itself.
    pub dest: Observed,
}

/// A probe as a mathematical value.
pub struct ProbeView {
    pub src: Option<Seq<char>>,
    pub dest_parent: bool,
    pub dest: Observed,
}

impl View for Probe {
    type V = ProbeView;

    open spec fn view(&self) -> ProbeView {
        ProbeView {
            src: self.src.deep_view(),
            dest_parent: self.dest_parent,
            dest: self.dest,
        }
    }
}

/// How what stands at the destination is removed before the link is made.
#[derive(Debug, Clone, Copy, PartialEq, Eq, Structural)]
pub enum Removal {
    /// A directory: it goes with all that is in it.
    Tree,
    /// A file or a symbolic link: the one entry goes.
    File,
    /// Neither: nothing is removed.
    Nothing,
}

/// What is to be done for a link.
#[derive(Debug, Clone, Copy, PartialEq, Eq, Structural)]
pub enum Action {
    /// Nothing stands at the destination: make the link.
    Create,
    /// The destination exists and stays as it is: report that it already exists.
    Skip,
    /// The destination exists and gives way: remove it as said, then make the link.
    /// The two steps are not atomic: if making the link fails, the destination stays absent.
    Replace(Removal),
}

/// The decision for one link: the action, and the two paths it is carried out on.
#[derive(Debug, PartialEq, Eq)]
pub struct Plan {
    /// The target of the symbolic link: the resolved form of the link's `src`.
    pub src: String,
    /// Where the symbolic link stands: the link's `dest`, as declared.
    pub dest: String,
    pub action: Action,
}

/// A plan as a mathematical value.
pub struct PlanView {
    pub src: Seq<char>,
    pub dest: Seq<char>,
    pub action: Action,
}

impl View for Plan {
    type V = PlanView;

    open spec fn view(&self) -> PlanView {
        PlanView { src: self.src@, dest: self.dest@, action: self.action }
    }
}

/// The two paths that a link is carried out on, or the first of them that does not
/// resolve: `src` is looked at before `dest`.
pub open spec fn located(link: LinkSpec, probe: ProbeView) -> Result<
    (Seq<char>, Seq<char>),
    AppErrorView,
> {
    if probe.src is None {
        Err(AppErrorView::LocationNotFound { field_name: "src"@, table_name: link.name })
    } else if !probe.dest_parent {
        Err(AppErrorView::LocationNotFound { field_name: "dest"@, table_name: link.name })
    } else {
        Ok((probe.src->0, link.dest))
    }
}

/// How an existing destination is removed: a directory that is no symbolic link as a tree,
/// a file or symbolic link as a file, anything else not at all.
pub open spec fn removal_for(found: Observed) -> Removal {
    if found.is_dir && !found.is_symlink {
        Removal::Tree
    } else if found.is_file || found.is_symlink {
        Removal::File
    } else {
        Removal::Nothing
    }
}

/// The action for a destination, by whether anything stands there, the link's `force` and
/// the update mode. A link is made where nothing stands. What stands there gives way only
/// to a forced link outside update mode; a symbolic link that leads nowhere is no
/// exception.
pub open spec fn action_for(force: bool, update: bool, found: Observed) -> Action {
    if !found.stands() {
        Action::Create
    } else if force && !update {
        Action::Replace(removal_for(found))
    } else {
        Action::Skip
    }
}

/// The decision for a link, given what was found on disk.
pub open spec fn planned(link: LinkSpec, update: bool, probe: ProbeView) -> Result<
    PlanView,
    AppErrorView,
> {
    match located(link, probe) {
        Err(error) => Err(error),
        Ok((src, dest)) => Ok(
            PlanView { src, dest, action: action_for(link.force, update, probe.dest) },
        ),
    }
}

/// The one line that tells the user of a plan before it is carried out: where the link is
/// made, or which link is passed over because its destination exists.
pub open spec fn notice_of(link: LinkSpec, plan: PlanView) -> Seq<char> {
    match plan.action {
        Action::Create => "[#] Creating symlink: \""@ + plan.dest + "\""@,
        Action::Replace(_) => "[#] Overwriting: \""@ + plan.dest + "\""@,
        Action::Skip => "[!] Path already exists for field: \"dest\" for table: \""@ + link.name
            + "\", skipping!"@,
    }
}

/// The view of a pair of paths or of the error that stands in its place.
pub open spec fn location_view(outcome: AppResult<(String, String)>) -> Result<
    (Seq<char>, Seq<char>),
    AppErrorView,
> {
    match outcome {
        Ok((src, dest)) => Ok((src@, dest@)),
        Err(error) => Err(error@),
    }
}

/// The view of a plan or of the error that stands in its place.
pub open spec fn plan_view(outcome: AppResult<Plan>) -> Result<PlanView, AppErrorView> {
    match outcome {
        Ok(plan) => Ok(plan@),
        Err(error) => Err(error@),
    }
}

/// How an existing destination is removed.
pub fn removal(found: Observed) -> (removal: Removal)
    ensures
        removal == removal_for(found),
{
    if found.is_dir && !found.is_symlink {
        Removal::Tree
    } else if found.is_file || found.is_symlink {
        Removal::File
    } else {
        Removal::Nothing
    }
}

impl Link {
    /// Checks that both ends of the link resolve, and gives the paths to work on: the
    /// resolved source and the destination as declared.
    ///
    /// The error names the link and the field: `src` where the source does not resolve,
    /// else `dest` where the destination's parent directory does not.
    pub fn validate_location(&self, probe: &Probe) -> (outcome: AppResult<(String, String)>)
        ensures
            location_view(outcome) == located(self@, probe@),
    {
        let src = match &probe.src {
            Some(path) => path.clone(),
            None => {
                return Err(
                    AppError::LocationNotFound { field_name: "src", table_name: self.name.clone() },
                );
            },
        };
        if !probe.dest_parent {
            return Err(
                AppError::LocationNotFound { field_name: "dest", table_name: self.name.clone() },
            );
        }
        Ok((src, self.dest.clone()))
    }

    /// The one line that tells the user of a plan for this link.
    pub fn notice(&self, plan: &Plan) -> (line: String)
        ensures
            line@ == notice_of(self@, plan@),
    {
        match plan.action {
            Action::Create => {
                let mut line = String::from_str("[#] Creating symlink: \"");
                line.append(plan.dest.as_str());
                line.append("\"");
                line
            },
            Action::Replace(_) => {
                let mut line = String::from_str("[#] Overwriting: \"");
                line.append(plan.dest.as_str());
                line.append("\"");
                line
            },
            Action::Skip => {
                let mut line = String::from_str(
                    "[!] Path already exists for field: \"dest\" for table: \"",
                );
                line.append(self.name.as_str());
                line.append("\", skipping!");
                line
            },
        }
    }

    /// Decides what is to be done for the link, given what was found on disk.
    ///
    /// Nothing is touched here: the plan says what the caller is to carry out. An error
    /// means that nothing is to be done for this link; other links are not concerned.
    pub fn create_link(&self, args: &AppArgs, probe: &Probe) -> (outcome: AppResult<Plan>)
        ensures
            plan_view(outcome) == planned(self@, args.update, probe@),
    {
        let (src, dest) = match self.validate_location(probe) {
            Ok(paths) => paths,
            Err(error) => {
                return Err(error);
            },
        };
        let action = if !probe.dest.occupied() {
            Action::Create
        } else if self.force && !args.update {
            Action::Replace(removal(probe.dest))
        } else {
            Action::Skip
        };
        Ok(Plan { src, dest, action })
    }
}

} // verus!
