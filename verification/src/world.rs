//! A model of the filesystem, and the laws of reconciliation on it.
//!
//! The model holds what the machine can ask about: what each path that
//! exists resolves to, which paths are symbolic links and what they hold,
//! and where nothing can be made. Running a machine against the model answers
//! each request as such a filesystem would and applies each change.

use vstd::prelude::*;
use crate::machine::ActionView;
use crate::machine::EventView;
use crate::machine::InstallerView;
use crate::machine::OutcomeView;
use crate::machine::remaining;
use crate::machine::StageView;
use crate::paths::ancestors;
use crate::paths::lemma_ancestors_are_shorter;
use crate::paths::proper_parent;

verus! {

/// A filesystem, as far as reconciliation can see it.
pub struct World {
    /// The resolved form of each path that exists, links followed. A path
    /// exists exactly if it resolves.
    pub canonical: Map<Seq<char>, Seq<char>>,
    /// The symbolic links, each with the text it holds, whether or not
    /// that leads anywhere.
    pub links: Map<Seq<char>, Seq<char>>,
    /// The paths at which nothing can be made.
    pub sealed: Set<Seq<char>>,
}

impl World {
    /// Resolution is idempotent: a resolved path exists and resolves to itself.
    pub open spec fn wf(self) -> bool {
        forall|p: Seq<char>| #[trigger]
            self.canonical.dom().contains(p) ==> self.canonical.dom().contains(self.canonical[p])
                && self.canonical[self.canonical[p]] == self.canonical[p]
    }

    /// Whether the path exists, links followed.
    pub open spec fn is_there(self, path: Seq<char>) -> bool {
        self.canonical.dom().contains(path)
    }

    /// What the path holds, if it is a symbolic link.
    pub open spec fn read_link(self, path: Seq<char>) -> Option<Seq<char>> {
        if self.links.dom().contains(path) {
            Some(self.links[path])
        } else {
            None
        }
    }

    /// The resolved form of the path, if it exists.
    pub open spec fn resolve(self, path: Seq<char>) -> Option<Seq<char>> {
        if self.canonical.dom().contains(path) {
            Some(self.canonical[path])
        } else {
            None
        }
    }

    /// Whether something is at the path: what exists, or a link that leads nowhere.
    pub open spec fn occupied(self, path: Seq<char>) -> bool {
        self.is_there(path) || self.links.dom().contains(path)
    }

    /// The directories that have to be made for `dir` to exist: `dir` and
    /// the directories above it, as far as they do not exist.
    pub open spec fn missing_dirs(self, dir: Seq<char>) -> Set<Seq<char>> {
        Set::new(|d: Seq<char>| (d == dir || ancestors(dir).contains(d)) && !self.is_there(d))
    }

    /// A directory and those above it can be made where none of the
    /// missing ones is sealed or the place of a link that leads nowhere.
    pub open spec fn can_create_dir(self, dir: Seq<char>) -> bool {
        forall|d: Seq<char>| #[trigger]
            self.missing_dirs(dir).contains(d) ==> !self.sealed.contains(d)
                && !self.links.dom().contains(d)
    }

    /// A link can be made at a path that is not sealed and that nothing
    /// occupies, not even a link that leads nowhere.
    pub open spec fn can_link(self, link: Seq<char>) -> bool {
        !self.sealed.contains(link) && !self.occupied(link)
    }

    /// The answer of this filesystem to a request.
    pub open spec fn answer(self, a: ActionView) -> EventView {
        match a {
            ActionView::Exists(p) => EventView::Exists(self.is_there(p)),
            ActionView::ReadLink(p) => EventView::Link(self.read_link(p)),
            ActionView::Canonicalize(p) => EventView::Canonical(self.resolve(p)),
            ActionView::CreateDirAll(p) => EventView::Done(self.can_create_dir(p)),
            ActionView::Symlink { link, .. } => EventView::Done(self.can_link(link)),
            ActionView::Report(_) => EventView::Done(true),
        }
    }

    /// The filesystem with `dir` and every missing directory above it
    /// made. The model takes a new directory to be its own resolved form.
    pub open spec fn with_dirs(self, dir: Seq<char>) -> World {
        World {
            canonical: Map::new(
                |d: Seq<char>| self.is_there(d) || self.missing_dirs(dir).contains(d),
                |d: Seq<char>|
                    if self.is_there(d) {
                        self.canonical[d]
                    } else {
                        d
                    },
            ),
            links: self.links,
            sealed: self.sealed,
        }
    }

    /// The filesystem with a new link at `link` that holds `target`. The
    /// link exists, links followed, exactly if its target does, and then
    /// resolves to the same path.
    pub open spec fn with_link(self, target: Seq<char>, link: Seq<char>) -> World {
        World {
            canonical: if self.is_there(target) {
                self.canonical.insert(link, self.canonical[target])
            } else {
                self.canonical
            },
            links: self.links.insert(link, target),
            sealed: self.sealed,
        }
    }

    /// The filesystem after a request was carried out. Questions change
    /// nothing, and neither does a change that was refused.
    pub open spec fn after(self, a: ActionView) -> World {
        match a {
            ActionView::CreateDirAll(p) => if self.can_create_dir(p) {
                self.with_dirs(p)
            } else {
                self
            },
            ActionView::Symlink { target, link } => if self.can_link(link) {
                self.with_link(target, link)
            } else {
                self
            },
            _ => self,
        }
    }

    /// Everything that was there before `self` is there in `later` too:
    /// every path that existed, with what it resolved to, and every link
    /// with what it held.
    pub open spec fn kept_in(self, later: World) -> bool {
        &&& self.canonical.submap_of(later.canonical)
        &&& self.links.submap_of(later.links)
        &&& self.sealed == later.sealed
    }
}

/// Runs the machine against the filesystem until it ends: the outcome, and
/// the filesystem as the run leaves it.
pub open spec fn drive(m: InstallerView, w: World) -> (OutcomeView, World)
    decreases remaining(m.stage),
{
    match m.stage {
        StageView::Finished(o) => (o, w),
        _ => {
            let a = m.request();
            drive(m.step(w.answer(a)), w.after(a))
        },
    }
}

/// The reconciliation of one declaration on a filesystem. The declaration
/// is given by its source as declared and by its two absolute paths.
pub open spec fn reconcile(
    declared: Seq<char>,
    source: Seq<char>,
    destination: Seq<char>,
    w: World,
) -> (OutcomeView, World) {
    drive(InstallerView::start(declared, source, destination), w)
}

/// A declaration ends in `MissingSource` exactly if its source does not
/// exist. The outcome then names the source as declared, and the
/// filesystem is as it was, whatever is at the destination.
pub proof fn law_missing_source(
    declared: Seq<char>,
    source: Seq<char>,
    destination: Seq<char>,
    w: World,
)
    ensures
        reconcile(declared, source, destination, w).0 is MissingSource <==> !w.is_there(source),
        !w.is_there(source) ==> reconcile(declared, source, destination, w) == (
            OutcomeView::MissingSource { source: declared },
            w,
        ),
{
    reveal_with_fuel(drive, 8);
}

/// Where something that is no link occupies the destination, the outcome
/// is `NonLinkConflict` and the filesystem is as it was.
pub proof fn law_occupied_destination_is_kept(
    declared: Seq<char>,
    source: Seq<char>,
    destination: Seq<char>,
    w: World,
)
    requires
        w.is_there(source),
        w.is_there(destination),
        !w.links.dom().contains(destination),
    ensures
        reconcile(declared, source, destination, w) == (
            OutcomeView::NonLinkConflict { path: destination },
            w,
        ),
{
    reveal_with_fuel(drive, 8);
}

/// What `WrongLink` names for a link at `destination`: the path that the
/// link resolves to or, where it leads nowhere, the text it holds.
pub open spec fn target_found(destination: Seq<char>, w: World) -> Seq<char> {
    match w.resolve(destination) {
        Some(found) => found,
        None => w.links[destination],
    }
}

/// Where the destination is a link that does not resolve to the path that
/// the source resolves to, be it that it resolves to another or that it
/// leads nowhere, the outcome is `WrongLink` with the target found, and the
/// filesystem is as it was.
pub proof fn law_wrong_link_is_kept(
    declared: Seq<char>,
    source: Seq<char>,
    destination: Seq<char>,
    w: World,
)
    requires
        w.is_there(source),
        w.links.dom().contains(destination),
        w.resolve(destination) != w.resolve(source),
    ensures
        reconcile(declared, source, destination, w) == (
            OutcomeView::WrongLink { target: target_found(destination, w) },
            w,
        ),
{
    reveal_with_fuel(drive, 8);
}

/// The same, told by what the link holds: where following the link at the
/// destination is resolving what it holds, and that is not what the source
/// resolves to, the outcome is `WrongLink` and the filesystem is as it was.
pub proof fn law_link_to_another_path_is_kept(
    declared: Seq<char>,
    source: Seq<char>,
    destination: Seq<char>,
    w: World,
)
    requires
        w.is_there(source),
        w.links.dom().contains(destination),
        w.resolve(destination) == w.resolve(w.links[destination]),
        w.resolve(w.links[destination]) != w.resolve(source),
    ensures
        reconcile(declared, source, destination, w) == (
            OutcomeView::WrongLink { target: target_found(destination, w) },
            w,
        ),
{
    law_wrong_link_is_kept(declared, source, destination, w);
}

/// Where the destination is a link that resolves to the same path as the
/// source, the outcome is `AlreadyCorrect` and the filesystem is as it was.
pub proof fn law_correct_link_is_kept(
    declared: Seq<char>,
    source: Seq<char>,
    destination: Seq<char>,
    w: World,
)
    requires
        w.is_there(source),
        w.links.dom().contains(destination),
        w.resolve(destination) == w.resolve(source),
    ensures
        reconcile(declared, source, destination, w) == (OutcomeView::AlreadyCorrect, w),
{
    reveal_with_fuel(drive, 8);
}

/// Reconciliation only adds: whatever existed before a run exists after
/// it and resolves as it did, and every link holds what it held. A run
/// that does not end in `Created` or `LinkCreationFailed` changes nothing
/// at all.
pub proof fn law_nothing_is_lost(
    declared: Seq<char>,
    source: Seq<char>,
    destination: Seq<char>,
    w: World,
)
    ensures
        w.kept_in(reconcile(declared, source, destination, w).1),
        !(reconcile(declared, source, destination, w).0 is Created) && !(reconcile(
            declared,
            source,
            destination,
            w,
        ).0 is LinkCreationFailed) ==> reconcile(declared, source, destination, w).1 == w,
{
    reveal_with_fuel(drive, 8);
}

/// The parent of the destination, where it has one, exists or can be made.
pub open spec fn parent_is_ready(destination: Seq<char>, w: World) -> bool {
    match proper_parent(destination) {
        Some(dir) => w.is_there(dir) || w.can_create_dir(dir),
        None => true,
    }
}

/// The filesystem on which the link is made: with the parent of the
/// destination and every missing directory above it.
pub open spec fn with_parent_of(destination: Seq<char>, w: World) -> World {
    match proper_parent(destination) {
        Some(dir) => if w.is_there(dir) {
            w
        } else {
            w.with_dirs(dir)
        },
        None => w,
    }
}

/// Making the directories above a free path leaves the path free.
pub proof fn lemma_parent_leaves_destination_free(destination: Seq<char>, w: World)
    requires
        w.can_link(destination),
    ensures
        with_parent_of(destination, w).can_link(destination),
{
    match proper_parent(destination) {
        Some(dir) => {
            if ancestors(dir).contains(destination) {
                lemma_ancestors_are_shorter(dir, destination);
            }
        },
        None => {},
    }
}

/// Where the source exists and a link can be made at the destination, the
/// parent decides. If it is ready, the outcome is `Created` and the
/// filesystem gains every missing directory above the destination and a
/// link at the destination that holds the resolved source; nothing else is
/// added and nothing is changed. If it is not, the outcome is
/// `LinkCreationFailed` and the filesystem is as it was.
pub proof fn law_free_destination_is_linked(
    declared: Seq<char>,
    source: Seq<char>,
    destination: Seq<char>,
    w: World,
)
    requires
        w.is_there(source),
        w.can_link(destination),
    ensures
        parent_is_ready(destination, w) ==> reconcile(declared, source, destination, w) == (
            OutcomeView::Created { destination },
            with_parent_of(destination, w).with_link(w.canonical[source], destination),
        ),
        !parent_is_ready(destination, w) ==> reconcile(declared, source, destination, w) == (
            OutcomeView::LinkCreationFailed { source, destination },
            w,
        ),
{
    reveal_with_fuel(drive, 8);
    lemma_parent_leaves_destination_free(destination, w);
}

/// Reconciliation is idempotent: after a run that ended in `Created`, a
/// second run on the filesystem that the first one left ends in
/// `AlreadyCorrect` and changes nothing.
pub proof fn law_idempotent(
    declared: Seq<char>,
    source: Seq<char>,
    destination: Seq<char>,
    w: World,
)
    requires
        w.wf(),
        reconcile(declared, source, destination, w).0 is Created,
    ensures
        reconcile(declared, source, destination, reconcile(declared, source, destination, w).1)
            == (OutcomeView::AlreadyCorrect, reconcile(declared, source, destination, w).1),
{
    reveal_with_fuel(drive, 8);
}

/// A run leaves the filesystem well-formed.
pub proof fn law_wf_is_kept(
    declared: Seq<char>,
    source: Seq<char>,
    destination: Seq<char>,
    w: World,
)
    requires
        w.wf(),
    ensures
        reconcile(declared, source, destination, w).1.wf(),
{
    reveal_with_fuel(drive, 8);
}

/// The reconciliation of a whole manifest, each declaration given by its
/// source as declared, its source and its destination: the outcomes in the manifest's order, and the
/// filesystem at the end. Each declaration runs on the filesystem that the
/// one before it left.
pub open spec fn reconcile_all(items: Seq<(Seq<char>, Seq<char>, Seq<char>)>, w: World) -> (
    Seq<OutcomeView>,
    World,
)
    decreases items.len(),
{
    if items.len() == 0 {
        (Seq::empty(), w)
    } else {
        let first = reconcile(items[0].0, items[0].1, items[0].2, w);
        let rest = reconcile_all(items.drop_first(), first.1);
        (seq![first.0] + rest.0, rest.1)
    }
}

/// Every declaration has its outcome, whatever became of the others.
pub proof fn law_every_declaration_is_processed(items: Seq<(Seq<char>, Seq<char>, Seq<char>)>, w: World)
    ensures
        reconcile_all(items, w).0.len() == items.len(),
    decreases items.len(),
{
    if items.len() > 0 {
        let first = reconcile(items[0].0, items[0].1, items[0].2, w);
        law_every_declaration_is_processed(items.drop_first(), first.1);
    }
}

/// A run can be cut anywhere: the declarations after the cut are processed
/// on the filesystem that those before it left, and their outcomes follow
/// the outcomes of those before it.
pub proof fn law_run_continues(items: Seq<(Seq<char>, Seq<char>, Seq<char>)>, w: World, k: int)
    requires
        0 <= k <= items.len(),
    ensures
        ({
            let before = reconcile_all(items.take(k), w);
            let after = reconcile_all(items.skip(k), before.1);
            reconcile_all(items, w) == (before.0 + after.0, after.1)
        }),
    decreases k,
{
    let before = reconcile_all(items.take(k), w);
    let after = reconcile_all(items.skip(k), before.1);
    if k == 0 {
        assert(items.take(0).len() == 0);
        assert(items.skip(0) =~= items);
        assert(before.0 + after.0 =~= after.0);
    } else {
        let first = reconcile(items[0].0, items[0].1, items[0].2, w);
        let tail = items.drop_first();
        law_run_continues(tail, first.1, k - 1);
        let head = items.take(k);
        assert(head[0] == items[0]);
        assert(head.drop_first() =~= tail.take(k - 1));
        assert(items.skip(k) =~= tail.skip(k - 1));
        let before_tail = reconcile_all(tail.take(k - 1), first.1);
        assert(before == (seq![first.0] + before_tail.0, before_tail.1));
        assert((seq![first.0] + before_tail.0) + after.0 =~= seq![first.0] + (before_tail.0
            + after.0));
    }
}

/// A declaration that fails does not touch the rest of the run. However
/// declaration `k` ended, be it in `MissingSource` or `LinkCreationFailed`,
/// its own outcome is that of reconciling it alone on the filesystem as it
/// then was, and the declarations after it are processed all the same, on
/// the filesystem that it left. A declaration that ended in `MissingSource`
/// could as well have been left out of the manifest: every other outcome,
/// and the filesystem at the end, are the same without it.
pub proof fn law_failure_is_isolated(items: Seq<(Seq<char>, Seq<char>, Seq<char>)>, w: World, k: int)
    requires
        0 <= k < items.len(),
    ensures
        reconcile_all(items, w).0.len() == items.len(),
        reconcile_all(items, w).0[k] == reconcile(
            items[k].0,
            items[k].1,
            items[k].2,
            reconcile_all(items.take(k), w).1,
        ).0,
        reconcile_all(items, w).0.skip(k + 1) == reconcile_all(
            items.skip(k + 1),
            reconcile_all(items.take(k + 1), w).1,
        ).0,
        reconcile_all(items, w).0[k] is MissingSource ==> reconcile_all(items.remove(k), w) == (
            reconcile_all(items, w).0.remove(k),
            reconcile_all(items, w).1,
        ),
{
    let all = reconcile_all(items, w);
    law_every_declaration_is_processed(items, w);
    let before = reconcile_all(items.take(k), w);
    law_every_declaration_is_processed(items.take(k), w);
    let from_k = reconcile_all(items.skip(k), before.1);
    law_run_continues(items, w, k);
    // The declaration itself, then the rest.
    let rest_items = items.skip(k);
    let own = reconcile(items[k].0, items[k].1, items[k].2, before.1);
    let rest = reconcile_all(rest_items.drop_first(), own.1);
    assert(rest_items[0] == items[k]);
    assert(rest_items.drop_first() =~= items.skip(k + 1));
    assert(from_k == (seq![own.0] + rest.0, rest.1));
    assert(all.0 =~= before.0 + (seq![own.0] + rest.0));
    assert(all.0[k] == own.0);
    // Up to and with the declaration.
    let upto = reconcile_all(items.take(k + 1), w);
    law_run_continues(items.take(k + 1), w, k);
    assert(items.take(k + 1).take(k) =~= items.take(k));
    let single = items.take(k + 1).skip(k);
    assert(single.len() == 1 && single[0] == items[k]);
    assert(single.drop_first().len() == 0);
    assert(reconcile_all(single.drop_first(), own.1) == (Seq::<OutcomeView>::empty(), own.1));
    assert(reconcile_all(single, before.1).1 == own.1);
    assert(upto.1 == own.1);
    assert(all.0.skip(k + 1) =~= rest.0);
    if all.0[k] is MissingSource {
        law_nothing_is_lost(items[k].0, items[k].1, items[k].2, before.1);
        let without = items.remove(k);
        law_run_continues(without, w, k);
        assert(without.take(k) =~= items.take(k));
        assert(without.skip(k) =~= items.skip(k + 1));
        assert(all.0.remove(k) =~= before.0 + rest.0);
    }
}

} // verus!
