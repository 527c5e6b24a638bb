//! The per-item relocation engine, as an explicit state machine.
//!
//! Moving one source path into the trash store alternates filesystem work
//! with decisions.  The decisions live here, verified; the filesystem work
//! is delegated to the caller.  In each phase [`Relocator::current_action`]
//! names the one filesystem (or terminal) action to perform, and
//! [`Relocator::step`] absorbs that action's outcome and moves to the next
//! phase, until the machine reports an [`Outcome`].
//!
//! The decision sequence for one item: ensure the `files` root exists;
//! classify the source; delete a symbolic link in place of trashing it;
//! refuse a directory unless recursion is permitted; with skip-trash,
//! delete permanently without touching the store; otherwise pick a
//! collision-free destination name, ask for confirmation in interactive
//! mode (before anything is written, so a decline creates nothing), record
//! metadata (failures downgraded to a warning), announce the item in
//! verbose mode, and rename the source into the store.

use vstd::prelude::*;
use vstd::pervasive::unreached;

use crate::errors::TrashError;
use crate::metadata::{Timestamp, info_content, info_name_chars, trashinfo_name, render_trashinfo};
use crate::naming::{views, resolved_name, resolve_naming_conflict, lemma_resolution_always_succeeds};
use crate::paths::{spec_basename, basename};
use crate::Args;

verus! {

/// What the source path turned out to be.
#[derive(Clone, Copy, Debug, PartialEq, Eq, Structural)]
pub enum EntryKind {
    /// a symbolic link (never followed)
    Symlink,
    /// a directory
    Directory,
    /// a regular file or any other entry
    Other,
}

/// How one relocation ended.
#[derive(Clone, Copy, Debug, PartialEq, Eq, Structural)]
pub enum Outcome {
    /// the source was moved under the store's `files` root
    Trashed,
    /// the source was a symbolic link and was unlinked
    LinkRemoved,
    /// skip-trash was set and the source was deleted permanently
    Deleted,
    /// the user declined the interactive confirmation
    Declined,
    /// the relocation failed
    Failed { err: TrashError },
}

/// One filesystem or terminal action for the caller to perform.
pub enum Action {
    /// create the store's `files` root if absent (idempotent)
    EnsureFilesRoot,
    /// classify the source without following a final symlink
    Classify,
    /// unlink the source, which is a symbolic link
    RemoveLink,
    /// delete the source directory and its contents permanently
    RemoveTree,
    /// delete the source file permanently
    RemoveFile,
    /// list the entry names currently under the `files` root
    ListFilesRoot,
    /// resolve the source to a canonical absolute path
    Canonicalize,
    /// create the store's `info` root if absent (idempotent)
    EnsureInfoRoot,
    /// list the entry names currently under the `info` root
    ListInfoRoot,
    /// write `content` to a new file `name` under the `info` root
    WriteInfo { name: String, content: String },
    /// report that metadata could not be recorded (the move still proceeds)
    Warn { message: String },
    /// ask the user for a yes/no confirmation
    AskConfirm { prompt: String },
    /// announce the removal
    Notice { message: String },
    /// rename the source to `dest` under the `files` root
    Rename { dest: String },
}

/// The outcome of the last action, fed back into the machine.
pub enum Event {
    /// the action succeeded with nothing to report
    Succeeded,
    /// the action failed
    Failed { err: TrashError },
    /// the source was classified
    Classified { kind: EntryKind },
    /// the requested directory listing
    Listed { names: Vec<String> },
    /// the canonical absolute form of the source
    Canonical { path: String },
    /// the user's answer to the confirmation prompt
    Answered { yes: bool },
}

/// Where the machine stands for one item.
pub enum Phase {
    /// about to ensure the `files` root exists
    Start,
    /// about to classify the source
    Classifying,
    /// the source is a symlink; about to unlink it
    RemovingLink,
    /// skip-trash: about to delete the source permanently
    SkipRemoving { is_dir: bool },
    /// about to list the `files` root to pick a free name for `name`
    ListingFiles { name: String },
    /// destination chosen; about to ask for confirmation, with nothing
    /// written yet
    Confirming { dest: String },
    /// about to canonicalize the source for metadata
    Canonicalizing { dest: String },
    /// about to ensure the `info` root exists
    EnsuringInfoRoot { dest: String, orig: String },
    /// about to list the `info` root to pick a free metadata name
    ListingInfo { dest: String, orig: String },
    /// about to write the metadata record
    WritingInfo { dest: String, info_name: String, content: String },
    /// metadata could not be recorded; about to warn and proceed
    Warning { dest: String },
    /// about to announce the removal
    Noticing { dest: String },
    /// about to rename the source into the `files` root
    Renaming { dest: String },
    /// finished
    Done { outcome: Outcome },
}

/// The confirmation prompt for a source path.
pub open spec fn prompt_chars(source: Seq<char>) -> Seq<char> {
    "move '"@ + source + "' to the trash?"@
}

/// The verbose notice for a source path.
pub open spec fn notice_chars(source: Seq<char>) -> Seq<char> {
    "removed '"@ + source + "'"@
}

/// The warning issued when metadata recording is skipped.
pub open spec fn warn_chars(source: Seq<char>) -> Seq<char> {
    "could not record metadata for '"@ + source + "'"@
}

/// The phase that follows the metadata stage: the verbose notice, else the
/// rename itself.
pub open spec fn after_metadata_ok(verbose: bool, dest: Seq<char>, post: Phase) -> bool {
    if verbose {
        post matches Phase::Noticing { dest: d } && d@ == dest
    } else {
        post matches Phase::Renaming { dest: d } && d@ == dest
    }
}

/// The relocation machine for one source path.
pub struct Relocator {
    /// the user-supplied source path
    pub source: String,
    /// directories may be trashed
    pub recursive: bool,
    /// delete permanently instead of trashing
    pub skip_trash: bool,
    /// ask before each removal
    pub interactive: bool,
    /// announce each removal
    pub verbose: bool,
    /// where the machine stands
    pub phase: Phase,
}

impl Relocator {
    /// The machine has reported its outcome.
    pub open spec fn halted(self) -> bool {
        self.phase is Done
    }

    /// Which events the machine can absorb in its current phase.
    pub open spec fn accepts(self, ev: Event) -> bool {
        match self.phase {
            Phase::Start => ev is Succeeded || ev is Failed,
            Phase::Classifying => ev is Classified || ev is Failed,
            Phase::RemovingLink => ev is Succeeded || ev is Failed,
            Phase::SkipRemoving { .. } => ev is Succeeded || ev is Failed,
            Phase::ListingFiles { .. } => ev is Listed || ev is Failed,
            Phase::Canonicalizing { .. } => ev is Canonical || ev is Failed,
            Phase::EnsuringInfoRoot { .. } => ev is Succeeded || ev is Failed,
            Phase::ListingInfo { .. } => ev is Listed || ev is Failed,
            Phase::WritingInfo { .. } => ev is Succeeded || ev is Failed,
            Phase::Warning { .. } => ev is Succeeded,
            Phase::Confirming { .. } => ev is Answered || ev is Failed,
            Phase::Noticing { .. } => ev is Succeeded,
            Phase::Renaming { .. } => ev is Succeeded || ev is Failed,
            Phase::Done { .. } => false,
        }
    }

    /// The phase the classification event leads to: a symlink is unlinked; a
    /// directory without recursive permission is refused; a path without a
    /// final name component is refused; skip-trash deletes permanently;
    /// otherwise the machine goes on to pick a destination name.
    pub open spec fn classified_post(self, kind: EntryKind, post: Phase) -> bool {
        if kind is Symlink {
            post == Phase::RemovingLink
        } else if kind is Directory && !self.recursive {
            post == (Phase::Done { outcome: Outcome::Failed { err: TrashError::InvalidInput } })
        } else {
            match spec_basename(self.source@) {
                None => post == (Phase::Done {
                    outcome: Outcome::Failed { err: TrashError::InvalidInput },
                }),
                Some(name) => if self.skip_trash {
                    post == (Phase::SkipRemoving { is_dir: kind is Directory })
                } else {
                    post matches Phase::ListingFiles { name: n } && n@ == name
                },
            }
        }
    }

    /// The transition relation: from the current phase, absorbing `ev` (with
    /// `now` as the metadata timestamp) leads exactly to `post`.
    pub open spec fn step_ok(self, ev: Event, now: Timestamp, post: Phase) -> bool {
        match self.phase {
            Phase::Start => match ev {
                Event::Succeeded => post == Phase::Classifying,
                Event::Failed { err } => post == (Phase::Done {
                    outcome: Outcome::Failed { err },
                }),
                _ => false,
            },
            Phase::Classifying => match ev {
                Event::Classified { kind } => self.classified_post(kind, post),
                Event::Failed { err } => post == (Phase::Done {
                    outcome: Outcome::Failed { err },
                }),
                _ => false,
            },
            Phase::RemovingLink => match ev {
                Event::Succeeded => post == (Phase::Done { outcome: Outcome::LinkRemoved }),
                Event::Failed { err } => post == (Phase::Done {
                    outcome: Outcome::Failed { err },
                }),
                _ => false,
            },
            Phase::SkipRemoving { .. } => match ev {
                Event::Succeeded => post == (Phase::Done { outcome: Outcome::Deleted }),
                Event::Failed { err } => post == (Phase::Done {
                    outcome: Outcome::Failed { err },
                }),
                _ => false,
            },
            Phase::ListingFiles { name } => match ev {
                Event::Listed { names } => match resolved_name(views(names@), name@) {
                    Some(c) => if self.interactive {
                        post matches Phase::Confirming { dest } && dest@ == c
                    } else {
                        post matches Phase::Canonicalizing { dest } && dest@ == c
                    },
                    None => post == (Phase::Done {
                        outcome: Outcome::Failed { err: TrashError::Conflict },
                    }),
                },
                Event::Failed { err } => post == (Phase::Done {
                    outcome: Outcome::Failed { err },
                }),
                _ => false,
            },
            Phase::Canonicalizing { dest } => match ev {
                Event::Canonical { path } => post matches Phase::EnsuringInfoRoot {
                    dest: d,
                    orig,
                } && d@ == dest@ && orig@ == path@,
                Event::Failed { .. } => post matches Phase::Warning { dest: d } && d@ == dest@,
                _ => false,
            },
            Phase::EnsuringInfoRoot { dest, orig } => match ev {
                Event::Succeeded => post matches Phase::ListingInfo { dest: d, orig: o } && d@
                    == dest@ && o@ == orig@,
                Event::Failed { .. } => post matches Phase::Warning { dest: d } && d@ == dest@,
                _ => false,
            },
            Phase::ListingInfo { dest, orig } => match ev {
                Event::Listed { names } => match resolved_name(
                    views(names@),
                    info_name_chars(dest@),
                ) {
                    Some(c) => post matches Phase::WritingInfo {
                        dest: d,
                        info_name,
                        content,
                    } && d@ == dest@ && info_name@ == c && content@ == info_content(orig@, now),
                    None => post matches Phase::Warning { dest: d } && d@ == dest@,
                },
                Event::Failed { .. } => post matches Phase::Warning { dest: d } && d@ == dest@,
                _ => false,
            },
            Phase::WritingInfo { dest, .. } => match ev {
                Event::Succeeded => after_metadata_ok(self.verbose, dest@, post),
                Event::Failed { .. } => post matches Phase::Warning { dest: d } && d@ == dest@,
                _ => false,
            },
            Phase::Warning { dest } => match ev {
                Event::Succeeded => after_metadata_ok(self.verbose, dest@, post),
                _ => false,
            },
            Phase::Confirming { dest } => match ev {
                Event::Answered { yes } => if !yes {
                    post == (Phase::Done { outcome: Outcome::Declined })
                } else {
                    post matches Phase::Canonicalizing { dest: d } && d@ == dest@
                },
                Event::Failed { err } => post == (Phase::Done {
                    outcome: Outcome::Failed { err },
                }),
                _ => false,
            },
            Phase::Noticing { dest } => match ev {
                Event::Succeeded => post matches Phase::Renaming { dest: d } && d@ == dest@,
                _ => false,
            },
            Phase::Renaming { .. } => match ev {
                Event::Succeeded => post == (Phase::Done { outcome: Outcome::Trashed }),
                Event::Failed { err } => post == (Phase::Done {
                    outcome: Outcome::Failed { err },
                }),
                _ => false,
            },
            Phase::Done { .. } => false,
        }
    }

    /// The action the current phase calls for, `None` once the machine has
    /// halted.
    pub open spec fn action_matches(self, a: Option<Action>) -> bool {
        match self.phase {
            Phase::Start => a == Some(Action::EnsureFilesRoot),
            Phase::Classifying => a == Some(Action::Classify),
            Phase::RemovingLink => a == Some(Action::RemoveLink),
            Phase::SkipRemoving { is_dir } => if is_dir {
                a == Some(Action::RemoveTree)
            } else {
                a == Some(Action::RemoveFile)
            },
            Phase::ListingFiles { .. } => a == Some(Action::ListFilesRoot),
            Phase::Canonicalizing { .. } => a == Some(Action::Canonicalize),
            Phase::EnsuringInfoRoot { .. } => a == Some(Action::EnsureInfoRoot),
            Phase::ListingInfo { .. } => a == Some(Action::ListInfoRoot),
            Phase::WritingInfo { info_name, content, .. } => a matches Some(
                Action::WriteInfo { name: n, content: c },
            ) && n@ == info_name@ && c@ == content@,
            Phase::Warning { .. } => a matches Some(Action::Warn { message }) && message@
                == warn_chars(self.source@),
            Phase::Confirming { .. } => a matches Some(Action::AskConfirm { prompt }) && prompt@
                == prompt_chars(self.source@),
            Phase::Noticing { .. } => a matches Some(Action::Notice { message }) && message@
                == notice_chars(self.source@),
            Phase::Renaming { dest } => a matches Some(Action::Rename { dest: d }) && d@ == dest@,
            Phase::Done { .. } => a is None,
        }
    }

    /// A fresh machine for one source path, sharing the run's options.
    pub fn new(source: String, args: &Args) -> (r: Relocator)
        ensures
            r.source@ == source@,
            r.recursive == args.recursive,
            r.skip_trash == args.skip_trash,
            r.interactive == args.interactive,
            r.verbose == args.verbose,
            r.phase == Phase::Start,
    {
        Relocator {
            source,
            recursive: args.recursive,
            skip_trash: args.skip_trash,
            interactive: args.interactive,
            verbose: args.verbose,
            phase: Phase::Start,
        }
    }

    /// The machine's outcome, once it has halted.
    pub fn finished(&self) -> (r: Option<Outcome>)
        ensures
            match self.phase {
                Phase::Done { outcome } => r == Some(outcome),
                _ => r is None,
            },
    {
        match &self.phase {
            Phase::Done { outcome } => Some(*outcome),
            _ => None,
        }
    }

    /// The action to perform next, `None` once the machine has halted.
    pub fn current_action(&self) -> (a: Option<Action>)
        ensures
            self.action_matches(a),
    {
        proof {
            reveal_strlit("move '");
            reveal_strlit("' to the trash?");
            reveal_strlit("removed '");
            reveal_strlit("'");
            reveal_strlit("could not record metadata for '");
        }
        match &self.phase {
            Phase::Start => Some(Action::EnsureFilesRoot),
            Phase::Classifying => Some(Action::Classify),
            Phase::RemovingLink => Some(Action::RemoveLink),
            Phase::SkipRemoving { is_dir } => if *is_dir {
                Some(Action::RemoveTree)
            } else {
                Some(Action::RemoveFile)
            },
            Phase::ListingFiles { .. } => Some(Action::ListFilesRoot),
            Phase::Canonicalizing { .. } => Some(Action::Canonicalize),
            Phase::EnsuringInfoRoot { .. } => Some(Action::EnsureInfoRoot),
            Phase::ListingInfo { .. } => Some(Action::ListInfoRoot),
            Phase::WritingInfo { info_name, content, .. } => Some(
                Action::WriteInfo { name: info_name.clone(), content: content.clone() },
            ),
            Phase::Warning { .. } => {
                let mut m = "could not record metadata for '".to_owned();
                m.append(self.source.as_str());
                m.append("'");
                assert(m@ =~= warn_chars(self.source@));
                Some(Action::Warn { message: m })
            },
            Phase::Confirming { .. } => {
                let mut m = "move '".to_owned();
                m.append(self.source.as_str());
                m.append("' to the trash?");
                assert(m@ =~= prompt_chars(self.source@));
                Some(Action::AskConfirm { prompt: m })
            },
            Phase::Noticing { .. } => {
                let mut m = "removed '".to_owned();
                m.append(self.source.as_str());
                m.append("'");
                assert(m@ =~= notice_chars(self.source@));
                Some(Action::Notice { message: m })
            },
            Phase::Renaming { dest } => Some(Action::Rename { dest: dest.clone() }),
            Phase::Done { .. } => None,
        }
    }

    /// Absorbs the outcome of the last action and moves to the next phase.
    /// `now` is the deletion time recorded in metadata, asked for afresh at
    /// each step.
    pub fn step(self, ev: Event, now: Timestamp) -> (r: Relocator)
        requires
            !self.halted(),
            self.accepts(ev),
        ensures
            r.source@ == self.source@,
            r.recursive == self.recursive,
            r.skip_trash == self.skip_trash,
            r.interactive == self.interactive,
            r.verbose == self.verbose,
            self.step_ok(ev, now, r.phase),
    {
        let Relocator { source, recursive, skip_trash, interactive, verbose, phase } = self;
        let new_phase: Phase = match (phase, ev) {
            (Phase::Start, Event::Succeeded) => Phase::Classifying,
            (Phase::Start, Event::Failed { err }) => Phase::Done {
                outcome: Outcome::Failed { err },
            },
            (Phase::Classifying, Event::Classified { kind }) => {
                if let EntryKind::Symlink = kind {
                    Phase::RemovingLink
                } else {
                    let is_dir = if let EntryKind::Directory = kind {
                        true
                    } else {
                        false
                    };
                    if is_dir && !recursive {
                        Phase::Done { outcome: Outcome::Failed { err: TrashError::InvalidInput } }
                    } else {
                        match basename(source.as_str()) {
                            None => Phase::Done {
                                outcome: Outcome::Failed { err: TrashError::InvalidInput },
                            },
                            Some(name) => if skip_trash {
                                Phase::SkipRemoving { is_dir }
                            } else {
                                Phase::ListingFiles { name }
                            },
                        }
                    }
                }
            },
            (Phase::Classifying, Event::Failed { err }) => Phase::Done {
                outcome: Outcome::Failed { err },
            },
            (Phase::RemovingLink, Event::Succeeded) => Phase::Done {
                outcome: Outcome::LinkRemoved,
            },
            (Phase::RemovingLink, Event::Failed { err }) => Phase::Done {
                outcome: Outcome::Failed { err },
            },
            (Phase::SkipRemoving { .. }, Event::Succeeded) => Phase::Done {
                outcome: Outcome::Deleted,
            },
            (Phase::SkipRemoving { .. }, Event::Failed { err }) => Phase::Done {
                outcome: Outcome::Failed { err },
            },
            (Phase::ListingFiles { name }, Event::Listed { names }) => {
                match resolve_naming_conflict(&names, &name) {
                    Ok(dest) => if interactive {
                        Phase::Confirming { dest }
                    } else {
                        Phase::Canonicalizing { dest }
                    },
                    Err(err) => Phase::Done { outcome: Outcome::Failed { err } },
                }
            },
            (Phase::ListingFiles { .. }, Event::Failed { err }) => Phase::Done {
                outcome: Outcome::Failed { err },
            },
            (Phase::Canonicalizing { dest }, Event::Canonical { path }) => {
                Phase::EnsuringInfoRoot { dest, orig: path }
            },
            (Phase::Canonicalizing { dest }, Event::Failed { .. }) => Phase::Warning { dest },
            (Phase::EnsuringInfoRoot { dest, orig }, Event::Succeeded) => Phase::ListingInfo {
                dest,
                orig,
            },
            (Phase::EnsuringInfoRoot { dest, .. }, Event::Failed { .. }) => Phase::Warning {
                dest,
            },
            (Phase::ListingInfo { dest, orig }, Event::Listed { names }) => {
                let desired = trashinfo_name(dest.as_str());
                match resolve_naming_conflict(&names, &desired) {
                    Ok(info_name) => {
                        let content = render_trashinfo(orig.as_str(), &now);
                        Phase::WritingInfo { dest, info_name, content }
                    },
                    Err(_) => Phase::Warning { dest },
                }
            },
            (Phase::ListingInfo { dest, .. }, Event::Failed { .. }) => Phase::Warning { dest },
            (Phase::WritingInfo { dest, .. }, Event::Succeeded) => proceed_phase(dest, verbose),
            (Phase::WritingInfo { dest, .. }, Event::Failed { .. }) => Phase::Warning { dest },
            (Phase::Warning { dest }, Event::Succeeded) => proceed_phase(dest, verbose),
            (Phase::Confirming { dest }, Event::Answered { yes }) => {
                if !yes {
                    Phase::Done { outcome: Outcome::Declined }
                } else {
                    Phase::Canonicalizing { dest }
                }
            },
            (Phase::Confirming { .. }, Event::Failed { err }) => Phase::Done {
                outcome: Outcome::Failed { err },
            },
            (Phase::Noticing { dest }, Event::Succeeded) => Phase::Renaming { dest },
            (Phase::Renaming { .. }, Event::Succeeded) => Phase::Done {
                outcome: Outcome::Trashed,
            },
            (Phase::Renaming { .. }, Event::Failed { err }) => Phase::Done {
                outcome: Outcome::Failed { err },
            },
            _ => unreached(),
        };
        Relocator { source, recursive, skip_trash, interactive, verbose, phase: new_phase }
    }
}

/// The phase that follows the metadata stage (see [`after_metadata_ok`]).
fn proceed_phase(dest: String, verbose: bool) -> (p: Phase)
    ensures
        after_metadata_ok(verbose, dest@, p),
{
    if verbose {
        Phase::Noticing { dest }
    } else {
        Phase::Renaming { dest }
    }
}


/// The phases a skip-trash relocation can ever occupy.  None of them calls
/// for a write into the trash store.
pub open spec fn skip_trash_confined(p: Phase) -> bool {
    ||| p is Start
    ||| p is Classifying
    ||| p is RemovingLink
    ||| p is SkipRemoving
    ||| p is Done
}

/// Skip-trash bypass law, step part: with skip-trash set, the confined
/// phases are closed under the transition relation.
pub proof fn lemma_skip_trash_confined_step(
    pre: Relocator,
    ev: Event,
    now: Timestamp,
    post: Phase,
)
    requires
        pre.skip_trash,
        skip_trash_confined(pre.phase),
        pre.step_ok(ev, now, post),
    ensures
        skip_trash_confined(post),
{
}

/// Skip-trash bypass law, action part: a confined phase never calls for a
/// store write or even a store listing, so no entry is ever created under
/// the `files` or `info` root, whatever the other flags say.
pub proof fn lemma_skip_trash_no_store_action(r: Relocator, a: Option<Action>)
    requires
        skip_trash_confined(r.phase),
        r.action_matches(a),
    ensures
        !(a matches Some(Action::WriteInfo { .. })),
        !(a matches Some(Action::Rename { .. })),
        a != Some(Action::EnsureInfoRoot),
        a != Some(Action::ListFilesRoot),
        a != Some(Action::ListInfoRoot),
{
}

/// Skip-trash bypass law, trace form: along any run that starts at `Start`
/// with skip-trash set and follows the transition relation, every machine
/// stands in a confined phase — so none of them ever calls for a write into
/// the trash store.
pub proof fn lemma_skip_trash_bypass(
    ms: Seq<Relocator>,
    evs: Seq<Event>,
    tss: Seq<Timestamp>,
    i: int,
)
    requires
        ms.len() > 0,
        evs.len() == ms.len() - 1,
        tss.len() == ms.len() - 1,
        ms[0].skip_trash,
        ms[0].phase is Start,
        forall|j: int|
            0 <= j < evs.len() ==> #[trigger] ms[j].step_ok(evs[j], tss[j], ms[j + 1].phase)
                && ms[j + 1].skip_trash,
        0 <= i < ms.len(),
    ensures
        skip_trash_confined(ms[i].phase),
    decreases i,
{
    if i == 0 {
    } else {
        lemma_skip_trash_bypass(ms, evs, tss, i - 1);
        assert(ms[i - 1].step_ok(evs[i - 1], tss[i - 1], ms[(i - 1) + 1].phase) && ms[(i - 1)
            + 1].skip_trash);
        if i == 1 {
            assert(ms[0].skip_trash);
        } else {
            assert(ms[i - 2].step_ok(evs[i - 2], tss[i - 2], ms[(i - 2) + 1].phase) && ms[(i - 2)
                + 1].skip_trash);
        }
        lemma_skip_trash_confined_step(ms[i - 1], evs[i - 1], tss[i - 1], ms[i].phase);
    }
}

/// The phases a relocation can occupy once its source was classified as a
/// symbolic link.
pub open spec fn symlink_confined(p: Phase) -> bool {
    p is RemovingLink || p is Done
}

/// Symlink policy law, entry part: classifying the source as a symlink
/// leads exactly to the unlink phase.
pub proof fn lemma_symlink_entry(pre: Relocator, ev: Event, now: Timestamp, post: Phase)
    requires
        pre.phase is Classifying,
        ev matches Event::Classified { kind } && kind is Symlink,
        pre.step_ok(ev, now, post),
    ensures
        post == Phase::RemovingLink,
{
}

/// Symlink policy law, step part: the confined phases are closed under the
/// transition relation.
pub proof fn lemma_symlink_confined_step(pre: Relocator, ev: Event, now: Timestamp, post: Phase)
    requires
        symlink_confined(pre.phase),
        pre.step_ok(ev, now, post),
    ensures
        symlink_confined(post),
{
}

/// Symlink policy law, action part: once confined, the only action the
/// machine ever calls for is unlinking the link itself — never a recursive
/// delete, never a rename, and never a write under the trash roots.
pub proof fn lemma_symlink_no_other_action(r: Relocator, a: Option<Action>)
    requires
        symlink_confined(r.phase),
        r.action_matches(a),
    ensures
        a == Some(Action::RemoveLink) || a is None,
{
}

/// Symlink policy law, trace form: after a symlink classification, every
/// later machine of the run stands in a confined phase.
pub proof fn lemma_symlink_policy(
    ms: Seq<Relocator>,
    evs: Seq<Event>,
    tss: Seq<Timestamp>,
    i: int,
)
    requires
        ms.len() > 0,
        evs.len() == ms.len() - 1,
        tss.len() == ms.len() - 1,
        ms[0].phase is Classifying,
        evs.len() > 0 ==> (evs[0] matches Event::Classified { kind } && kind is Symlink),
        forall|j: int|
            0 <= j < evs.len() ==> #[trigger] ms[j].step_ok(evs[j], tss[j], ms[j + 1].phase),
        1 <= i < ms.len(),
    ensures
        symlink_confined(ms[i].phase),
    decreases i,
{
    if i == 1 {
        assert(ms[0].step_ok(evs[0], tss[0], ms[0int + 1].phase));
        lemma_symlink_entry(ms[0], evs[0], tss[0], ms[1].phase);
    } else {
        lemma_symlink_policy(ms, evs, tss, i - 1);
        assert(ms[i - 1].step_ok(evs[i - 1], tss[i - 1], ms[(i - 1) + 1].phase));
        lemma_symlink_confined_step(ms[i - 1], evs[i - 1], tss[i - 1], ms[i].phase);
    }
}

/// Directory guard law: classifying the source as a directory while
/// recursion is not permitted halts the machine at once with an invalid
/// input failure; no further action is called for, so the directory and its
/// contents are left untouched.
pub proof fn lemma_directory_guard(pre: Relocator, ev: Event, now: Timestamp, post: Phase)
    requires
        pre.phase is Classifying,
        !pre.recursive,
        ev matches Event::Classified { kind } && kind is Directory,
        pre.step_ok(ev, now, post),
    ensures
        post == (Phase::Done { outcome: Outcome::Failed { err: TrashError::InvalidInput } }),
{
}

/// Interactive decline law: a "no" answer to the confirmation prompt halts
/// the machine at once as declined.
pub proof fn lemma_interactive_decline(pre: Relocator, ev: Event, now: Timestamp, post: Phase)
    requires
        pre.phase is Confirming,
        ev matches Event::Answered { yes } && !yes,
        pre.step_ok(ev, now, post),
    ensures
        post == (Phase::Done { outcome: Outcome::Declined }),
{
}

/// The rename that moves the source is called for exactly in the renaming
/// phase — in particular never after a decline, which halts the machine, so
/// a declined source stays where it was.
pub proof fn lemma_rename_only_when_renaming(r: Relocator, a: Option<Action>)
    requires
        r.action_matches(a),
    ensures
        (a matches Some(Action::Rename { .. })) <==> r.phase is Renaming,
{
}


/// A destination name is always found: absorbing the files-root listing
/// always advances the machine to the canonicalize phase, so the defensive
/// conflict cap is never the reason an item fails.
pub proof fn lemma_destination_always_resolves(
    pre: Relocator,
    ev: Event,
    now: Timestamp,
    post: Phase,
)
    requires
        pre.phase is ListingFiles,
        ev is Listed,
        pre.step_ok(ev, now, post),
    ensures
        pre.interactive ==> post is Confirming,
        !pre.interactive ==> post is Canonicalizing,
{
    if let Phase::ListingFiles { name } = pre.phase {
        if let Event::Listed { names } = ev {
            lemma_resolution_always_succeeds(views(names@), name@);
        }
    }
}

/// The phases an interactive relocation (without skip-trash) can occupy
/// before the user has accepted the confirmation prompt.
pub open spec fn unconfirmed(p: Phase) -> bool {
    ||| p is Start
    ||| p is Classifying
    ||| p is RemovingLink
    ||| p is ListingFiles
    ||| p is Confirming
    ||| p is Done
}

/// Interactive decline law, step part: while no prompt has been answered
/// with a yes, an interactive relocation without skip-trash stays in the
/// unconfirmed phases.
pub proof fn lemma_unconfirmed_step(pre: Relocator, ev: Event, now: Timestamp, post: Phase)
    requires
        pre.interactive,
        !pre.skip_trash,
        unconfirmed(pre.phase),
        pre.step_ok(ev, now, post),
        !(ev matches Event::Answered { yes } && yes),
    ensures
        unconfirmed(post),
{
}

/// Interactive decline law, action part: an unconfirmed phase never calls
/// for a write under the trash roots nor for moving or deleting the source
/// file or directory, so a declined source stays exactly where it was and
/// no trash entry — neither the file nor its metadata record — is created.
pub proof fn lemma_unconfirmed_no_store_action(r: Relocator, a: Option<Action>)
    requires
        unconfirmed(r.phase),
        r.action_matches(a),
    ensures
        !(a matches Some(Action::WriteInfo { .. })),
        !(a matches Some(Action::Rename { .. })),
        a != Some(Action::EnsureInfoRoot),
        a != Some(Action::ListInfoRoot),
        a != Some(Action::RemoveFile),
        a != Some(Action::RemoveTree),
{
}

/// Interactive decline law, trace form: along any interactive run without
/// skip-trash in which no prompt is answered with a yes, every machine
/// stands in an unconfirmed phase — so nothing is ever written into the
/// trash store and the source is never renamed or deleted (a symbolic link
/// is the one entry unlinked without a prompt, as the symlink policy says).
pub proof fn lemma_interactive_decline_trace(
    ms: Seq<Relocator>,
    evs: Seq<Event>,
    tss: Seq<Timestamp>,
    i: int,
)
    requires
        ms.len() > 0,
        evs.len() == ms.len() - 1,
        tss.len() == ms.len() - 1,
        ms[0].interactive,
        !ms[0].skip_trash,
        ms[0].phase is Start,
        forall|j: int|
            0 <= j < evs.len() ==> #[trigger] ms[j].step_ok(evs[j], tss[j], ms[j + 1].phase)
                && ms[j + 1].interactive && !ms[j + 1].skip_trash,
        forall|j: int|
            0 <= j < evs.len() ==> !(#[trigger] evs[j] matches Event::Answered { yes } && yes),
        0 <= i < ms.len(),
    ensures
        unconfirmed(ms[i].phase),
    decreases i,
{
    if i == 0 {
    } else {
        lemma_interactive_decline_trace(ms, evs, tss, i - 1);
        assert(ms[i - 1].step_ok(evs[i - 1], tss[i - 1], ms[(i - 1) + 1].phase) && ms[(i - 1)
            + 1].interactive && !ms[(i - 1) + 1].skip_trash);
        assert(!(evs[i - 1] matches Event::Answered { yes } && yes));
        if i == 1 {
            assert(ms[0].interactive && !ms[0].skip_trash);
        } else {
            assert(ms[i - 2].step_ok(evs[i - 2], tss[i - 2], ms[(i - 2) + 1].phase) && ms[(i - 2)
                + 1].interactive && !ms[(i - 2) + 1].skip_trash);
        }
        lemma_unconfirmed_step(ms[i - 1], evs[i - 1], tss[i - 1], ms[i].phase);
    }
}

/// How many steps a relocation can still take from a phase.
pub open spec fn phase_rank(p: Phase) -> nat {
    match p {
        Phase::Start => 12,
        Phase::Classifying => 11,
        Phase::ListingFiles { .. } => 10,
        Phase::Confirming { .. } => 9,
        Phase::Canonicalizing { .. } => 8,
        Phase::EnsuringInfoRoot { .. } => 7,
        Phase::ListingInfo { .. } => 6,
        Phase::WritingInfo { .. } => 5,
        Phase::Warning { .. } => 4,
        Phase::Noticing { .. } => 3,
        Phase::Renaming { .. } => 2,
        Phase::RemovingLink => 1,
        Phase::SkipRemoving { .. } => 1,
        Phase::Done { .. } => 0,
    }
}

/// Every transition strictly lowers the phase rank, so a relocation always
/// halts: no run takes more steps than the rank of its starting phase.
pub proof fn lemma_machine_halts(pre: Relocator, ev: Event, now: Timestamp, post: Phase)
    requires
        pre.step_ok(ev, now, post),
    ensures
        phase_rank(post) < phase_rank(pre.phase),
{
}

} // verus!
