//! A model of the disk, as far as links are concerned, and of what applying a link does
//! to it. Nothing here runs: the functions say what the probe finds and what carrying out
//! a plan leaves behind, so that the laws of this library can be stated and proved.

use vstd::prelude::*;
use crate::error::AppErrorView;
use crate::link::{LinkSpec, Resolution};
use crate::sync::{planned, Action, Observed, ProbeView, Removal};

verus! {

/// What a path leads to when it leads somewhere.
pub enum Kind {
    File,
    Directory,
    /// A socket, a pipe, a device: neither file nor directory.
    Other,
}

/// What stands at a path.
pub enum Node {
    /// Nothing.
    Absent,
    /// A file, a directory or the like, itself and not a link to one.
    Plain(Kind),
    /// A symbolic link to `target`. `leads_to` is what following it arrives at: `None`
    /// where it leads nowhere.
    Symlink { target: Seq<char>, leads_to: Option<Kind> },
}

/// What a link's source resolves to: its absolute path and what stands there.
pub struct Source {
    pub path: Seq<char>,
    pub kind: Kind,
}

/// The part of the disk that one link is concerned with.
pub struct Site {
    /// What the link's `src` resolves to, `None` where it does not resolve.
    pub source: Option<Source>,
    /// Whether the parent directory of the link's `dest` resolves.
    pub parent: bool,
    /// What stands at the link's `dest`.
    pub node: Node,
}

/// What carrying a link through came to.
pub enum Report {
    /// The link is disabled: nothing was looked at and nothing done.
    Idle,
    /// The action was decided and carried out.
    Done(Action),
    /// The action was decided, and the operating system refused it.
    Broken(Action),
    /// No action was decided.
    Failed(AppErrorView),
}

/// What the four queries answer for a node.
pub open spec fn observed(node: Node) -> Observed {
    match node {
        Node::Absent => Observed {
            exists: false,
            is_dir: false,
            is_file: false,
            is_symlink: false,
        },
        Node::Plain(kind) => Observed {
            exists: true,
            is_dir: kind is Directory,
            is_file: kind is File,
            is_symlink: false,
        },
        Node::Symlink { target, leads_to } => Observed {
            exists: leads_to is Some,
            is_dir: leads_to == Some(Kind::Directory),
            is_file: leads_to == Some(Kind::File),
            is_symlink: true,
        },
    }
}

/// What probing a site finds.
pub open spec fn probe_of(site: Site) -> ProbeView {
    ProbeView {
        src: match site.source {
            Some(source) => Some(source.path),
            None => None,
        },
        dest_parent: site.parent,
        dest: observed(site.node),
    }
}

/// The node after a removal, `None` where the operating system refuses it: a tree is
/// removed where a directory or a symbolic link stands, a file where a symbolic link or
/// anything but a directory stands. Neither follows a symbolic link.
pub open spec fn removed(removal: Removal, node: Node) -> Option<Node> {
    match removal {
        Removal::Nothing => Some(node),
        Removal::Tree => if node == Node::Plain(Kind::Directory) || node is Symlink {
            Some(Node::Absent)
        } else {
            None
        },
        Removal::File => if node is Symlink || (node is Plain && node != Node::Plain(
            Kind::Directory,
        )) {
            Some(Node::Absent)
        } else {
            None
        },
    }
}

/// The node after a symbolic link to `source` is made there, `None` where the operating
/// system refuses it: a link is made only where nothing stands.
pub open spec fn linked(node: Node, source: Source) -> Option<Node> {
    if node is Absent {
        Some(Node::Symlink { target: source.path, leads_to: Some(source.kind) })
    } else {
        None
    }
}

/// The node after an action is carried out, `None` where the operating system refuses a
/// step of it. A refusal of the removal leaves the node as it was.
pub open spec fn carried_out(action: Action, source: Source, node: Node) -> Option<Node> {
    match action {
        Action::Skip => Some(node),
        Action::Create => linked(node, source),
        Action::Replace(removal) => match removed(removal, node) {
            Some(cleared) => linked(cleared, source),
            None => None,
        },
    }
}

/// One link carried through on its site: probe, decide, carry out.
///
/// A disabled link is dropped before the probe. Where no action is decided, or the
/// operating system refuses it, the site stays as it was. The source is taken to lie
/// outside of what is removed.
pub open spec fn applied(link: LinkSpec, update: bool, site: Site) -> (Report, Site) {
    if !link.enable {
        (Report::Idle, site)
    } else {
        match planned(link, update, probe_of(site)) {
            Err(error) => (Report::Failed(error), site),
            Ok(plan) => match carried_out(plan.action, site.source->0, site.node) {
                Some(node) => (
                    Report::Done(plan.action),
                    Site { source: site.source, parent: site.parent, node },
                ),
                None => (Report::Broken(plan.action), site),
            },
        }
    }
}

/// A site on which a link can be applied: both ends resolve.
pub open spec fn resolves(site: Site) -> bool {
    site.source is Some && site.parent
}

/// The symbolic link that applying a link on `site` is meant to leave at the destination.
pub open spec fn link_to_source(site: Site) -> Node {
    Node::Symlink { target: site.source->0.path, leads_to: Some(site.source->0.kind) }
}

/// The disk as far as a batch of links is concerned. Paths are told apart as texts, and
/// what a source resolves to is taken not to change while the batch is applied.
pub struct Disk {
    /// What each source resolves to. A path outside the domain does not resolve.
    pub sources: Map<Seq<char>, Source>,
    /// The destinations whose parent directory resolves.
    pub parents: Set<Seq<char>>,
    /// What stands at each destination. Nothing stands at a path outside the domain.
    pub nodes: Map<Seq<char>, Node>,
}

/// What stands at a path.
pub open spec fn node_at(disk: Disk, path: Seq<char>) -> Node {
    if disk.nodes.dom().contains(path) {
        disk.nodes[path]
    } else {
        Node::Absent
    }
}

/// The part of a disk that a link is concerned with.
pub open spec fn site_of(disk: Disk, link: LinkSpec) -> Site {
    Site {
        source: if disk.sources.dom().contains(link.src) {
            Some(disk.sources[link.src])
        } else {
            None
        },
        parent: disk.parents.contains(link.dest),
        node: node_at(disk, link.dest),
    }
}

/// One link carried through on a disk. Only what stands at its destination can change.
pub open spec fn applied_on(link: LinkSpec, update: bool, disk: Disk) -> (Report, Disk) {
    let (report, site) = applied(link, update, site_of(disk, link));
    if site.node == node_at(disk, link.dest) {
        (report, disk)
    } else {
        (
            report,
            Disk {
                sources: disk.sources,
                parents: disk.parents,
                nodes: disk.nodes.insert(link.dest, site.node),
            },
        )
    }
}

/// A batch of links carried through in the order of declaration, each on the disk that
/// the ones before it left: the reports, one for each link, and the disk at the end.
pub open spec fn applied_all(links: Seq<LinkSpec>, update: bool, disk: Disk) -> (
    Seq<Report>,
    Disk,
)
    decreases links.len(),
{
    if links.len() == 0 {
        (Seq::empty(), disk)
    } else {
        let (reports, before) = applied_all(links.drop_last(), update, disk);
        let (report, after) = applied_on(links.last(), update, before);
        (reports.push(report), after)
    }
}

/// The links that a batch of outcomes declares, enabled or not, in order.
pub open spec fn declared_of(outcomes: Seq<Resolution>) -> Seq<LinkSpec> {
    outcomes.filter_map(
        |outcome: Resolution|
            match outcome {
                Ok(link) => Some(link),
                Err(_) => None,
            },
    )
}

/// A link for which nothing can be done on a disk: it is disabled, or one of its ends does
/// not resolve there.
pub open spec fn inert_on(link: LinkSpec, disk: Disk) -> bool {
    !link.enable || !resolves(site_of(disk, link))
}

} // verus!
