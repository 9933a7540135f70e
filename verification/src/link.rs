use vstd::prelude::*;
use crate::error::{AppError, AppErrorView, AppResult};

verus! {

/// A validated declaration: `dest` is to be a symbolic link to `src`.
///
/// A link describes a relation between two paths and owns nothing on disk.
#[derive(Debug, PartialEq, Eq)]
pub struct Link {
    /// Names the link in reports.
    pub name: String,
    /// What the link points to. It must exist when the link is applied.
    pub src: String,
    /// Where the link is made. Its parent directory must exist; the path itself need not.
    pub dest: String,
    /// Whether anything is done for this link at all.
    pub enable: bool,
    /// Whether something that already stands at `dest` may be replaced.
    pub force: bool,
}

/// A link as a mathematical value.
pub struct LinkSpec {
    pub name: Seq<char>,
    pub src: Seq<char>,
    pub dest: Seq<char>,
    pub enable: bool,
    pub force: bool,
}

impl LinkSpec {
    /// A link that reports can name.
    pub open spec fn valid(self) -> bool {
        self.name.len() > 0
    }
}

impl View for Link {
    type V = LinkSpec;

    open spec fn view(&self) -> LinkSpec {
        LinkSpec {
            name: self.name@,
            src: self.src@,
            dest: self.dest@,
            enable: self.enable,
            force: self.force,
        }
    }
}

impl Clone for Link {
    fn clone(&self) -> (copy: Link)
        ensures
            copy@ == self@,
    {
        Link {
            name: self.name.clone(),
            src: self.src.clone(),
            dest: self.dest.clone(),
            enable: self.enable,
            force: self.force,
        }
    }
}

impl DeepView for Link {
    type V = LinkSpec;

    open spec fn deep_view(&self) -> LinkSpec {
        self@
    }
}

/// The keys under which a link's table holds its fields.
#[derive(Debug, Clone, Copy, PartialEq, Eq, Structural)]
pub enum Key {
    Name,
    Src,
    Dest,
    Enable,
    Force,
}

impl Key {
    /// The key as the script writes it.
    pub open spec fn text_of(self) -> Seq<char> {
        match self {
            Key::Name => "name"@,
            Key::Src => "src"@,
            Key::Dest => "dest"@,
            Key::Enable => "enable"@,
            Key::Force => "force"@,
        }
    }

    /// The key as the script writes it.
    pub fn text(&self) -> (text: &'static str)
        ensures
            text@ == self.text_of(),
    {
        match self {
            Key::Name => "name",
            Key::Src => "src",
            Key::Dest => "dest",
            Key::Enable => "enable",
            Key::Force => "force",
        }
    }
}

/// What a table holds under a key, for a field of type `T`.
#[derive(Debug, PartialEq, Eq)]
pub enum Slot<T> {
    /// Nothing.
    Empty,
    /// A value of the field's type.
    Filled(T),
    /// Something that is no value of the field's type.
    Unfit,
}

impl<T> Slot<T> {
    /// The value that the field can be given: what does not fit counts as absent.
    pub open spec fn usable(self) -> Option<T> {
        match self {
            Slot::Filled(value) => Some(value),
            Slot::Empty => None,
            Slot::Unfit => None,
        }
    }
}

/// One item of the collection that a script hands over, as it was found there: nothing in it
/// has been judged yet.
#[derive(Debug, PartialEq, Eq)]
pub enum Entry {
    /// A table, with what it holds under each of the five keys.
    Table {
        name: Slot<String>,
        src: Slot<String>,
        dest: Slot<String>,
        enable: Slot<bool>,
        force: Slot<bool>,
    },
    /// Anything else.
    Other,
}

/// An entry as a mathematical value: for each field the value that it can be given, `None`
/// where the table holds nothing under the key or nothing that fits.
pub enum EntryView {
    Table {
        name: Option<Seq<char>>,
        src: Option<Seq<char>>,
        dest: Option<Seq<char>>,
        enable: Option<bool>,
        force: Option<bool>,
    },
    Other,
}

impl View for Entry {
    type V = EntryView;

    open spec fn view(&self) -> EntryView {
        match self {
            Entry::Table { name, src, dest, enable, force } => EntryView::Table {
                name: name.usable().deep_view(),
                src: src.usable().deep_view(),
                dest: dest.usable().deep_view(),
                enable: enable.usable(),
                force: force.usable(),
            },
            Entry::Other => EntryView::Other,
        }
    }
}

impl DeepView for Entry {
    type V = EntryView;

    open spec fn deep_view(&self) -> EntryView {
        self@
    }
}

/// What resolving an entry gives, as a mathematical value.
pub type Resolution = Result<LinkSpec, AppErrorView>;

/// The view of a link or of the error that stands in its place.
pub open spec fn resolution_view(outcome: AppResult<Link>) -> Resolution {
    match outcome {
        Ok(link) => Ok(link@),
        Err(error) => Err(error@),
    }
}

/// The views of a batch of outcomes, in order.
pub open spec fn resolutions_view(outcomes: Seq<AppResult<Link>>) -> Seq<Resolution> {
    outcomes.map_values(|outcome: AppResult<Link>| resolution_view(outcome))
}

/// What the entry at position `index` of a collection resolves to.
///
/// An entry that is no table, or whose name is absent or empty, cannot be named in a report:
/// it is known by its position, counted from 0. A table without `src` or `dest` is reported
/// under its name, `src` first. An absent `enable` means `true`, an absent `force` means
/// `false`. What a table holds under a key without its fitting the field counts as absent.
/// Nothing here depends on what is on disk.
pub open spec fn resolved(index: nat, entry: EntryView) -> Resolution {
    match entry {
        EntryView::Other => Err(AppErrorView::FieldHasNoName(index)),
        EntryView::Table { name, src, dest, enable, force } => {
            if name is None || name->0.len() == 0 {
                Err(AppErrorView::FieldHasNoName(index))
            } else if src is None {
                Err(AppErrorView::MissingField { field_name: Key::Src.text_of(), table_name: name->0 })
            } else if dest is None {
                Err(
                    AppErrorView::MissingField { field_name: Key::Dest.text_of(), table_name: name->0 },
                )
            } else {
                Ok(
                    LinkSpec {
                        name: name->0,
                        src: src->0,
                        dest: dest->0,
                        enable: match enable {
                            Some(flag) => flag,
                            None => true,
                        },
                        force: match force {
                            Some(flag) => flag,
                            None => false,
                        },
                    },
                )
            }
        },
    }
}

/// What a whole collection resolves to: each entry by itself, in the order of declaration.
pub open spec fn resolved_all(entries: Seq<EntryView>) -> Seq<Resolution> {
    Seq::new(entries.len(), |i: int| resolved(i as nat, entries[i]))
}

/// The link that is to be applied for an outcome, if any: a valid one that is enabled.
pub open spec fn wanted(outcome: Resolution) -> Option<LinkSpec> {
    match outcome {
        Ok(link) => if link.enable {
            Some(link)
        } else {
            None
        },
        Err(_) => None,
    }
}

/// The error that is to be reported for an outcome, if any.
pub open spec fn refused(outcome: Resolution) -> Option<AppErrorView> {
    match outcome {
        Ok(_) => None,
        Err(error) => Some(error),
    }
}

/// The links of a batch that are applied: the valid and enabled ones, in order.
pub open spec fn selected_of(outcomes: Seq<Resolution>) -> Seq<LinkSpec> {
    outcomes.filter_map(|outcome: Resolution| wanted(outcome))
}

/// The errors of a batch, in order.
pub open spec fn rejected_of(outcomes: Seq<Resolution>) -> Seq<AppErrorView> {
    outcomes.filter_map(|outcome: Resolution| refused(outcome))
}

proof fn lemma_selected_step(outcomes: Seq<Resolution>, i: int)
    requires
        0 <= i < outcomes.len(),
    ensures
        selected_of(outcomes.take(i + 1)) == match wanted(outcomes[i]) {
            Some(link) => selected_of(outcomes.take(i)).push(link),
            None => selected_of(outcomes.take(i)),
        },
{
    outcomes.lemma_filter_map_take_succ(|outcome: Resolution| wanted(outcome), i);
}

proof fn lemma_rejected_step(outcomes: Seq<Resolution>, i: int)
    requires
        0 <= i < outcomes.len(),
    ensures
        rejected_of(outcomes.take(i + 1)) == match refused(outcomes[i]) {
            Some(error) => rejected_of(outcomes.take(i)).push(error),
            None => rejected_of(outcomes.take(i)),
        },
{
    outcomes.lemma_filter_map_take_succ(|outcome: Resolution| refused(outcome), i);
}

impl Link {
    /// Resolves the entry at position `index` of a collection: the link it declares, or the
    /// error that takes its place.
    pub fn from_entry(index: usize, entry: &Entry) -> (outcome: AppResult<Link>)
        ensures
            resolution_view(outcome) == resolved(index as nat, entry@),
            outcome matches Ok(link) ==> link@.valid(),
    {
        match entry {
            Entry::Other => Err(AppError::FieldHasNoName(index)),
            Entry::Table { name, src, dest, enable, force } => {
                let name = match name {
                    Slot::Filled(name) => name,
                    _ => {
                        return Err(AppError::FieldHasNoName(index));
                    },
                };
                if name.as_str().is_empty() {
                    return Err(AppError::FieldHasNoName(index));
                }
                let src = match src {
                    Slot::Filled(src) => src,
                    _ => {
                        return Err(
                            AppError::MissingField {
                                field_name: Key::Src.text(),
                                table_name: name.clone(),
                            },
                        );
                    },
                };
                let dest = match dest {
                    Slot::Filled(dest) => dest,
                    _ => {
                        return Err(
                            AppError::MissingField {
                                field_name: Key::Dest.text(),
                                table_name: name.clone(),
                            },
                        );
                    },
                };
                let enable = match enable {
                    Slot::Filled(flag) => *flag,
                    _ => true,
                };
                let force = match force {
                    Slot::Filled(flag) => *flag,
                    _ => false,
                };
                Ok(Link { name: name.clone(), src: src.clone(), dest: dest.clone(), enable, force })
            },
        }
    }
}

/// Resolves a collection of entries. Every entry is resolved, whatever became of the ones
/// before it, and the outcomes stand in the order of the entries.
pub fn resolve(entries: &Vec<Entry>) -> (outcomes: Vec<AppResult<Link>>)
    ensures
        resolutions_view(outcomes@) == resolved_all(entries.deep_view()),
{
    let mut outcomes: Vec<AppResult<Link>> = Vec::new();
    let mut i: usize = 0;
    while i < entries.len()
        invariant
            i <= entries.len(),
            outcomes.len() == i,
            forall|k: int|
                0 <= k < i ==> resolution_view(#[trigger] outcomes[k]) == resolved(
                    k as nat,
                    entries[k]@,
                ),
        decreases entries.len() - i,
    {
        let outcome = Link::from_entry(i, &entries[i]);
        outcomes.push(outcome);
        i += 1;
    }
    assert(resolutions_view(outcomes@) =~= resolved_all(entries.deep_view()));
    outcomes
}

/// The links of a batch that are to be applied: those that resolved and are enabled, in the
/// order of declaration. A disabled link is dropped here, before anything looks at the disk
/// on its account.
pub fn selected(outcomes: &Vec<AppResult<Link>>) -> (links: Vec<Link>)
    ensures
        links.deep_view() == selected_of(resolutions_view(outcomes@)),
{
    let ghost all = resolutions_view(outcomes@);
    let mut links: Vec<Link> = Vec::new();
    let mut i: usize = 0;
    assert(all.take(0) =~= Seq::<Resolution>::empty());
    while i < outcomes.len()
        invariant
            i <= outcomes.len(),
            all == resolutions_view(outcomes@),
            links.deep_view() == selected_of(all.take(i as int)),
        decreases outcomes.len() - i,
    {
        proof {
            lemma_selected_step(all, i as int);
        }
        let ghost before = links.deep_view();
        match &outcomes[i] {
            Ok(link) => {
                if link.enable {
                    links.push(link.clone());
                    assert(links.deep_view() =~= before.push(link@));
                }
            },
            Err(_) => {},
        }
        i += 1;
    }
    assert(all.take(i as int) =~= all);
    links
}

/// The errors of a batch, in the order of declaration.
pub fn rejected(outcomes: &Vec<AppResult<Link>>) -> (errors: Vec<AppError>)
    ensures
        errors.deep_view() == rejected_of(resolutions_view(outcomes@)),
{
    let ghost all = resolutions_view(outcomes@);
    let mut errors: Vec<AppError> = Vec::new();
    let mut i: usize = 0;
    assert(all.take(0) =~= Seq::<Resolution>::empty());
    while i < outcomes.len()
        invariant
            i <= outcomes.len(),
            all == resolutions_view(outcomes@),
            errors.deep_view() == rejected_of(all.take(i as int)),
        decreases outcomes.len() - i,
    {
        proof {
            lemma_rejected_step(all, i as int);
        }
        let ghost before = errors.deep_view();
        match &outcomes[i] {
            Ok(_) => {},
            Err(error) => {
                let copy = error.clone();
                errors.push(copy);
                assert(errors.deep_view() =~= before.push(error@));
            },
        }
        i += 1;
    }
    assert(all.take(i as int) =~= all);
    errors
}

} // verus!
