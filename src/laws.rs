//! Properties of the traversal's decisions, proved over their models.
use vstd::prelude::*;
use crate::names::{extension_of, has_space, is_space_char, joined, underscored};
use crate::plan::{planned, EffectModel, EntryKind, EntryModel, Metadata, NameModel, RequestModel};
use crate::walker::{stepped, ActionModel, EventModel, WalkerModel};

verus! {

/// The renames that a walk of the listing `entries` of `dir` asks for, as
/// pairs of old and new path.
pub open spec fn renames_in(req: RequestModel, dir: Seq<char>, entries: Seq<EntryModel>) -> Set<
    (Seq<char>, Seq<char>),
> {
    Set::new(
        |p: (Seq<char>, Seq<char>)|
            exists|i: int|
                0 <= i < entries.len() && #[trigger] planned(req, dir, entries[i]).effect
                    == EffectModel::Rename(p.0, p.1),
    )
}

/// A regular file of `dir` whose extension matches and whose name holds
/// whitespace is renamed, outside a dry run, within `dir`, to its name with
/// each whitespace character turned into `_` and every other character kept;
/// the new name holds no whitespace.
pub proof fn lemma_spaced_match_is_renamed(req: RequestModel, dir: Seq<char>, name: Seq<char>, size: u64)
    requires
        !req.dry_run,
        extension_of(name) == Some(req.extension),
        has_space(name),
    ensures
        planned(
            req,
            dir,
            EntryModel {
                name: NameModel::Text(name),
                metadata: Some(Metadata { kind: EntryKind::File, size }),
            },
        ).effect == EffectModel::Rename(joined(dir, name), joined(dir, underscored(name))),
        underscored(name).len() == name.len(),
        forall|i: int| 0 <= i < name.len() && is_space_char(name[i]) ==> #[trigger] underscored(name)[i] == '_',
        forall|i: int| 0 <= i < name.len() && !is_space_char(name[i]) ==> #[trigger] underscored(name)[i] == name[i],
        !has_space(underscored(name)),
{
    lemma_underscored_has_no_space(name);
}

/// Turning whitespace into `_` leaves no whitespace.
pub proof fn lemma_underscored_has_no_space(name: Seq<char>)
    ensures
        !has_space(underscored(name)),
{
    let u = underscored(name);
    assert forall|i: int| 0 <= i < u.len() implies !is_space_char(#[trigger] u[i]) by {
        if is_space_char(name[i]) {
            assert(u[i] == '_');
        }
    }
}

/// A dry run renames nothing: no entry's effect is a rename.
pub proof fn lemma_dry_run_plans_no_rename(req: RequestModel, dir: Seq<char>, e: EntryModel)
    requires
        req.dry_run,
    ensures
        !(planned(req, dir, e).effect is Rename),
{
}

/// A dry-run walker never asks for a rename, on any event; its request stays
/// the same from step to step, so no step of a dry run does.
pub proof fn lemma_dry_run_walker_never_renames(w: WalkerModel, ev: EventModel)
    requires
        w.request.dry_run,
    ensures
        !(stepped(w, ev).1.action is Rename),
{
    let frames = w.frames;
    if frames.len() > 0 {
        let top = frames.last();
        if 0 <= top.next < top.entries.len() {
            lemma_dry_run_plans_no_rename(w.request, top.dir, top.entries[top.next]);
        }
    }
}

/// A file already renamed is not renamed again: a name whose whitespace was
/// turned into `_` asks for no rename on a second pass.
pub proof fn lemma_second_pass_renames_nothing(
    req: RequestModel,
    dir: Seq<char>,
    name: Seq<char>,
    metadata: Option<Metadata>,
)
    ensures
        !(planned(req, dir, EntryModel { name: NameModel::Text(underscored(name)), metadata }).effect is Rename),
{
    lemma_underscored_has_no_space(name);
}

/// Only a regular file whose name is text and whose extension equals the
/// requested one, exactly and with the same case, is ever renamed.
pub proof fn lemma_rename_needs_exact_extension(req: RequestModel, dir: Seq<char>, e: EntryModel)
    requires
        planned(req, dir, e).effect is Rename,
    ensures
        e.metadata is Some,
        e.metadata->0.kind == EntryKind::File,
        e.name is Text,
        extension_of(e.name->Text_0) == Some(req.extension),
{
}

/// A symbolic link is neither followed nor renamed: the walk goes on past it.
pub proof fn lemma_symlink_is_left_alone(req: RequestModel, dir: Seq<char>, e: EntryModel)
    requires
        e.metadata is Some,
        e.metadata->0.kind == EntryKind::Symlink,
    ensures
        planned(req, dir, e).effect == EffectModel::Skip,
{
}

/// The renames asked for in a directory do not depend on the order in which
/// its listing gives the entries.
pub proof fn lemma_renames_ignore_order(
    req: RequestModel,
    dir: Seq<char>,
    a: Seq<EntryModel>,
    b: Seq<EntryModel>,
)
    requires
        a.to_multiset() == b.to_multiset(),
    ensures
        renames_in(req, dir, a) == renames_in(req, dir, b),
{
    broadcast use vstd::seq_lib::to_multiset_contains;
    assert forall|p: (Seq<char>, Seq<char>)| renames_in(req, dir, a).contains(p) implies renames_in(
        req,
        dir,
        b,
    ).contains(p) by {
        let i = choose|i: int|
            0 <= i < a.len() && #[trigger] planned(req, dir, a[i]).effect == EffectModel::Rename(p.0, p.1);
        assert(a.contains(a[i]));
        assert(a.to_multiset().count(a[i]) > 0);
        assert(b.contains(a[i]));
        let j = choose|j: int| 0 <= j < b.len() && b[j] == a[i];
        assert(planned(req, dir, b[j]).effect == EffectModel::Rename(p.0, p.1));
    }
    assert forall|p: (Seq<char>, Seq<char>)| renames_in(req, dir, b).contains(p) implies renames_in(
        req,
        dir,
        a,
    ).contains(p) by {
        let i = choose|i: int|
            0 <= i < b.len() && #[trigger] planned(req, dir, b[i]).effect == EffectModel::Rename(p.0, p.1);
        assert(b.contains(b[i]));
        assert(b.to_multiset().count(b[i]) > 0);
        assert(a.contains(b[i]));
        let j = choose|j: int| 0 <= j < a.len() && a[j] == b[i];
        assert(planned(req, dir, a[j]).effect == EffectModel::Rename(p.0, p.1));
    }
    assert(renames_in(req, dir, a) =~= renames_in(req, dir, b));
}

} // verus!
