//! What holds of resolving and applying links, proved over the model of the disk.

use vstd::prelude::*;
use crate::disk::{
    applied, applied_all, applied_on, declared_of, inert_on, link_to_source, observed, probe_of,
    removed, resolves, Disk, Kind, Node, Report, Site,
};
use crate::error::AppErrorView;
use crate::link::{resolved, resolved_all, selected_of, EntryView, LinkSpec, Resolution};
use crate::sync::{action_for, planned, Action, PlanView, Removal};

verus! {

/// Applying a link a second time changes nothing: whatever the link, the mode and the
/// site, the disk after two runs is the disk after one.
pub proof fn law_second_run_changes_nothing(link: LinkSpec, update: bool, site: Site)
    ensures
        applied(link, update, applied(link, update, site).1).1 == applied(link, update, site).1,
{
}

/// Idempotence. An enabled link without `force`, applied twice where both ends resolve and
/// nothing stands at the destination: the first run makes the one symbolic link to the
/// resolved source, the second reports that it already exists, which is no error, and
/// leaves it as it is.
pub proof fn law_idempotence(link: LinkSpec, update: bool, site: Site)
    requires
        link.enable,
        !link.force,
        resolves(site),
        site.node is Absent,
    ensures
        ({
            let (first, once) = applied(link, update, site);
            let (second, twice) = applied(link, update, once);
            &&& first == Report::Done(Action::Create)
            &&& once.node == link_to_source(site)
            &&& second == Report::Done(Action::Skip)
            &&& twice == once
        }),
{
}

/// Without `force` nothing that stands at a destination is ever altered, a symbolic link
/// that leads nowhere no more than anything else: the run reports that the destination
/// already exists and the site stays as it was.
pub proof fn law_unforced_keeps(link: LinkSpec, update: bool, site: Site)
    requires
        link.enable,
        !link.force,
        resolves(site),
        !(site.node is Absent),
    ensures
        applied(link, update, site) == (Report::Done(Action::Skip), site),
{
}

/// Force replaces. An enabled link with `force`, outside update mode, where both ends
/// resolve and a file, a directory or a symbolic link stands at the destination, wherever
/// that link leads: afterwards the destination is a symbolic link to the resolved source.
pub proof fn law_force_replaces(link: LinkSpec, site: Site)
    requires
        link.enable,
        link.force,
        resolves(site),
        site.node == Node::Plain(Kind::File) || site.node == Node::Plain(Kind::Directory)
            || site.node is Symlink,
    ensures
        ({
            let (report, after) = applied(link, false, site);
            &&& report == Report::Done(Action::Replace(
                if site.node == Node::Plain(Kind::Directory) {
                    Removal::Tree
                } else {
                    Removal::File
                },
            ))
            &&& after.node == link_to_source(site)
            &&& after.source == site.source
            &&& after.parent == site.parent
        }),
{
}

/// Update suppresses force. In update mode what stands at a destination stays as it is,
/// whatever the link's `force` says: the run reports that it already exists.
pub proof fn law_update_suppresses_force(link: LinkSpec, site: Site)
    requires
        link.enable,
        resolves(site),
        !(site.node is Absent),
    ensures
        applied(link, true, site) == (Report::Done(Action::Skip), site),
{
}

/// Disabled entries are inert. A disabled link leaves every site as it is, also one on
/// which nothing resolves, and nothing is decided for it.
pub proof fn law_disabled_inert(link: LinkSpec, update: bool, site: Site)
    requires
        !link.enable,
    ensures
        applied(link, update, site) == (Report::Idle, site),
{
}

/// A disabled link is never among those selected from a batch.
pub proof fn law_selected_enabled(outcomes: Seq<Resolution>, k: int)
    requires
        0 <= k < selected_of(outcomes).len(),
    ensures
        selected_of(outcomes)[k].enable,
        outcomes.contains(Ok(selected_of(outcomes)[k])),
    decreases outcomes.len(),
{
    if outcomes.len() > 0 {
        let rest = outcomes.drop_last();
        let chosen = selected_of(rest);
        if k < chosen.len() {
            law_selected_enabled(rest, k);
            let found: Resolution = Ok(chosen[k]);
            let i = choose|i: int| 0 <= i < rest.len() && rest[i] == found;
            assert(outcomes[i] == rest[i]);
        } else {
            assert(outcomes[outcomes.len() - 1] == outcomes.last());
        }
    }
}

/// An unresolvable source is fatal to its entry only. Where the source of an enabled link
/// does not resolve, the error names the link and the field `src`, no action is decided,
/// and the site stays as it was.
pub proof fn law_unresolved_source(link: LinkSpec, update: bool, site: Site)
    requires
        link.enable,
        site.source is None,
    ensures
        applied(link, update, site) == (
            Report::Failed(
                AppErrorView::LocationNotFound { field_name: "src"@, table_name: link.name },
            ),
            site,
        ),
{
}

/// Where the source resolves and the destination's parent directory does not, the error
/// names the link and the field `dest`, and the site stays as it was.
pub proof fn law_unresolved_parent(link: LinkSpec, update: bool, site: Site)
    requires
        link.enable,
        site.source is Some,
        !site.parent,
    ensures
        applied(link, update, site) == (
            Report::Failed(
                AppErrorView::LocationNotFound { field_name: "dest"@, table_name: link.name },
            ),
            site,
        ),
{
}

proof fn lemma_applied_all_push(links: Seq<LinkSpec>, link: LinkSpec, update: bool, disk: Disk)
    ensures
        applied_all(links.push(link), update, disk) == ({
            let (reports, before) = applied_all(links, update, disk);
            let (report, after) = applied_on(link, update, before);
            (reports.push(report), after)
        }),
{
    assert(links.push(link).drop_last() =~= links);
}

proof fn lemma_applied_all_keeps_sources(links: Seq<LinkSpec>, update: bool, disk: Disk)
    ensures
        applied_all(links, update, disk).1.sources == disk.sources,
        applied_all(links, update, disk).1.parents == disk.parents,
        applied_all(links, update, disk).0.len() == links.len(),
    decreases links.len(),
{
    if links.len() > 0 {
        lemma_applied_all_keeps_sources(links.drop_last(), update, disk);
    }
}

/// A link for which nothing can be done leaves the disk as it is, whatever stands at its
/// destination: it is passed over, or reported with the end that does not resolve.
pub proof fn law_inert_link_keeps_disk(link: LinkSpec, update: bool, disk: Disk)
    requires
        inert_on(link, disk),
    ensures
        applied_on(link, update, disk).1 == disk,
        applied_on(link, update, disk).0 == (if !link.enable {
            Report::Idle
        } else {
            Report::Failed(
                AppErrorView::LocationNotFound {
                    field_name: if disk.sources.dom().contains(link.src) {
                        "dest"@
                    } else {
                        "src"@
                    },
                    table_name: link.name,
                },
            )
        }),
{
}

/// An entry for which nothing can be done costs the others nothing. With such an entry
/// taken out of a batch, every other link gets the report that it got with the entry in,
/// and the disk at the end is the same.
pub proof fn law_inert_entry_spares_the_rest(
    links: Seq<LinkSpec>,
    update: bool,
    disk: Disk,
    i: int,
)
    requires
        0 <= i < links.len(),
        inert_on(links[i], disk),
    ensures
        applied_all(links.remove(i), update, disk) == (
            applied_all(links, update, disk).0.remove(i),
            applied_all(links, update, disk).1,
        ),
    decreases links.len(),
{
    let rest = links.drop_last();
    let last = links.last();
    let (reports, before) = applied_all(rest, update, disk);
    lemma_applied_all_keeps_sources(rest, update, disk);
    if i == links.len() - 1 {
        assert(links.remove(i) =~= rest);
        law_inert_link_keeps_disk(last, update, before);
        let report = applied_on(last, update, before).0;
        assert(reports.push(report).remove(i) =~= reports);
    } else {
        law_inert_entry_spares_the_rest(rest, update, disk, i);
        assert(links.remove(i) =~= rest.remove(i).push(last));
        lemma_applied_all_push(rest.remove(i), last, update, disk);
        let report = applied_on(last, update, before).0;
        assert(reports.push(report).remove(i) =~= reports.remove(i).push(report));
    }
}

/// Dropping the entries that are not applied changes nothing on disk. A batch of outcomes
/// leaves the same disk whether all the links that it declares are carried through or
/// only those selected from it: the errors and the disabled links do not count.
pub proof fn law_selection_keeps_disk(outcomes: Seq<Resolution>, update: bool, disk: Disk)
    ensures
        applied_all(selected_of(outcomes), update, disk).1 == applied_all(
            declared_of(outcomes),
            update,
            disk,
        ).1,
    decreases outcomes.len(),
{
    if outcomes.len() > 0 {
        let rest = outcomes.drop_last();
        law_selection_keeps_disk(rest, update, disk);
        match outcomes.last() {
            Err(_) => {},
            Ok(link) => {
                assert(declared_of(outcomes) =~= declared_of(rest).push(link));
                lemma_applied_all_push(declared_of(rest), link, update, disk);
                if link.enable {
                    assert(selected_of(outcomes) =~= selected_of(rest).push(link));
                    lemma_applied_all_push(selected_of(rest), link, update, disk);
                } else {
                    law_inert_link_keeps_disk(
                        link,
                        update,
                        applied_all(declared_of(rest), update, disk).1,
                    );
                }
            },
        }
    }
}

/// A replacement that is cut off between its two steps leaves nothing at the destination.
/// That is not hidden, and the next run mends it: it finds nothing there and makes the
/// link.
pub proof fn law_interrupted_replace_recovers(
    link: LinkSpec,
    update: bool,
    site: Site,
    removal: Removal,
)
    requires
        link.enable,
        resolves(site),
        removal != Removal::Nothing,
        removed(removal, site.node) is Some,
    ensures
        removed(removal, site.node) == Some(Node::Absent),
        ({
            let cut = Site { source: site.source, parent: site.parent, node: Node::Absent };
            let (report, after) = applied(link, update, cut);
            &&& report == Report::Done(Action::Create)
            &&& after.node == link_to_source(site)
        }),
{
}

/// Something stands at a path exactly where the queries say so, and a link is planned to
/// be made only where nothing stands: the system never refuses a planned creation.
pub proof fn law_creation_is_never_refused(link: LinkSpec, update: bool, site: Site)
    requires
        link.enable,
        resolves(site),
    ensures
        observed(site.node).stands() <==> !(site.node is Absent),
        applied(link, update, site).0 != Report::Broken(Action::Create),
        applied(link, update, site).0 is Broken ==> site.node == Node::Plain(Kind::Other),
{
}

/// An action is decided exactly where both ends resolve, and then it is the action for
/// what stands at the destination, on the resolved source and the declared destination.
pub proof fn law_decided_where_resolved(link: LinkSpec, update: bool, site: Site)
    requires
        link.enable,
    ensures
        resolves(site) <==> planned(link, update, probe_of(site)) is Ok,
        resolves(site) ==> planned(link, update, probe_of(site))->Ok_0 == (PlanView {
            src: site.source->0.path,
            dest: link.dest,
            action: action_for(link.force, update, observed(site.node)),
        }),
{
}

/// Only a link that reports can name comes out of resolving, and an entry that gives none
/// gives an error that says why: it has no name, or it lacks one of its two paths.
pub proof fn law_resolved_is_valid(index: nat, entry: EntryView)
    ensures
        match resolved(index, entry) {
            Ok(link) => link.valid(),
            Err(error) => error == AppErrorView::FieldHasNoName(index) || error is MissingField,
        },
{
}

/// Partial-batch resilience. A collection resolves entry by entry: the outcome at a
/// position depends on the entry at that position alone, so a malformed entry costs none of
/// the others its link.
pub proof fn law_entries_resolve_alone(a: Seq<EntryView>, b: Seq<EntryView>, i: int)
    requires
        0 <= i < a.len(),
        i < b.len(),
        a[i] == b[i],
    ensures
        resolved_all(a).len() == a.len(),
        resolved_all(a)[i] == resolved_all(b)[i],
        resolved_all(a)[i] == resolved(i as nat, a[i]),
{
}

} // verus!
