use rrm::Args;
use rrm::batch::{ExecMode, execution_mode, failed_indices};
use rrm::errors::TrashError;
use rrm::metadata::Timestamp;
use rrm::relocate::{Action, EntryKind, Event, Outcome, Relocator};

fn args(recursive: bool, skip_trash: bool, interactive: bool, verbose: bool) -> Args {
    Args {
        recursive,
        view_trash: false,
        verbose,
        interactive,
        empty: false,
        skip_trash,
        files: Vec::new(),
    }
}

fn ts() -> Timestamp {
    Timestamp { year: 2024, month: 3, day: 5, hour: 7, minute: 9, second: 11 }
}

/// Drives one machine with a scripted event per action, recording the
/// actions it asked for, until it halts.
fn drive(mut m: Relocator, mut script: Vec<Event>) -> (Vec<Action>, Outcome) {
    script.reverse();
    let mut actions = Vec::new();
    loop {
        if let Some(outcome) = m.finished() {
            assert!(m.current_action().is_none());
            assert!(script.is_empty(), "script had leftover events");
            return (actions, outcome);
        }
        let a = m.current_action().expect("an unfinished machine names an action");
        actions.push(a);
        let ev = script.pop().expect("script ran out of events");
        m = m.step(ev, ts());
    }
}

fn listed(names: &[&str]) -> Event {
    Event::Listed { names: names.iter().map(|s| s.to_string()).collect() }
}

fn touches_store(a: &Action) -> bool {
    matches!(
        a,
        Action::WriteInfo { .. }
            | Action::Rename { .. }
            | Action::EnsureInfoRoot
            | Action::ListFilesRoot
            | Action::ListInfoRoot
    )
}

#[test]
fn plain_file_is_trashed_with_metadata() {
    let m = Relocator::new("/a/b/c.txt".to_string(), &args(false, false, false, false));
    let script = vec![
        Event::Succeeded,                                  // files root ensured
        Event::Classified { kind: EntryKind::Other },      // a regular file
        listed(&[]),                                       // files root is empty
        Event::Canonical { path: "/a/b/c.txt".to_string() },
        Event::Succeeded,                                  // info root ensured
        listed(&[]),                                       // info root is empty
        Event::Succeeded,                                  // metadata written
        Event::Succeeded,                                  // renamed
    ];
    let (actions, outcome) = drive(m, script);
    assert_eq!(outcome, Outcome::Trashed);
    assert!(matches!(actions[0], Action::EnsureFilesRoot));
    assert!(matches!(actions[1], Action::Classify));
    assert!(matches!(actions[2], Action::ListFilesRoot));
    assert!(matches!(actions[3], Action::Canonicalize));
    assert!(matches!(actions[4], Action::EnsureInfoRoot));
    assert!(matches!(actions[5], Action::ListInfoRoot));
    match &actions[6] {
        Action::WriteInfo { name, content } => {
            assert_eq!(name, "c.txt.trashinfo");
            assert_eq!(
                content,
                "[Trash Info]\nPath=/a/b/c.txt\nDeletionDate=2024-03-05T07:09:11\n"
            );
        },
        other => panic!("expected a metadata write, got {:?}", action_name(other)),
    }
    match &actions[7] {
        Action::Rename { dest } => assert_eq!(dest, "c.txt"),
        other => panic!("expected a rename, got {:?}", action_name(other)),
    }
    assert_eq!(actions.len(), 8);
}

fn action_name(a: &Action) -> &'static str {
    match a {
        Action::EnsureFilesRoot => "EnsureFilesRoot",
        Action::Classify => "Classify",
        Action::RemoveLink => "RemoveLink",
        Action::RemoveTree => "RemoveTree",
        Action::RemoveFile => "RemoveFile",
        Action::ListFilesRoot => "ListFilesRoot",
        Action::Canonicalize => "Canonicalize",
        Action::EnsureInfoRoot => "EnsureInfoRoot",
        Action::ListInfoRoot => "ListInfoRoot",
        Action::WriteInfo { .. } => "WriteInfo",
        Action::Warn { .. } => "Warn",
        Action::AskConfirm { .. } => "AskConfirm",
        Action::Notice { .. } => "Notice",
        Action::Rename { .. } => "Rename",
    }
}

#[test]
fn occupied_destination_gets_a_counter() {
    let m = Relocator::new("/a/b/c.txt".to_string(), &args(false, false, false, false));
    let script = vec![
        Event::Succeeded,
        Event::Classified { kind: EntryKind::Other },
        listed(&["c.txt", "c(1).txt"]),
        Event::Canonical { path: "/a/b/c.txt".to_string() },
        Event::Succeeded,
        listed(&["c(2).txt.trashinfo"]),
        Event::Succeeded,
        Event::Succeeded,
    ];
    let (actions, outcome) = drive(m, script);
    assert_eq!(outcome, Outcome::Trashed);
    match &actions[6] {
        Action::WriteInfo { name, .. } => assert_eq!(name, "c(2).txt(1).trashinfo"),
        _ => panic!("expected a metadata write"),
    }
    match &actions[7] {
        Action::Rename { dest } => assert_eq!(dest, "c(2).txt"),
        _ => panic!("expected a rename"),
    }
}

#[test]
fn symlink_is_unlinked_only() {
    let m = Relocator::new("/a/link".to_string(), &args(false, false, false, false));
    let script = vec![
        Event::Succeeded,
        Event::Classified { kind: EntryKind::Symlink },
        Event::Succeeded,
    ];
    let (actions, outcome) = drive(m, script);
    assert_eq!(outcome, Outcome::LinkRemoved);
    assert_eq!(actions.len(), 3);
    assert!(matches!(actions[2], Action::RemoveLink));
    assert!(actions.iter().all(|a| !touches_store(a)));
    assert!(actions.iter().all(|a| !matches!(a, Action::RemoveTree | Action::RemoveFile)));
}

#[test]
fn directory_without_recursive_is_refused_untouched() {
    let m = Relocator::new("/a/dir".to_string(), &args(false, false, false, false));
    let script = vec![Event::Succeeded, Event::Classified { kind: EntryKind::Directory }];
    let (actions, outcome) = drive(m, script);
    assert_eq!(outcome, Outcome::Failed { err: TrashError::InvalidInput });
    // nothing was asked for beyond ensuring the trash root and a read-only
    // classification
    assert_eq!(actions.len(), 2);
    assert!(matches!(actions[0], Action::EnsureFilesRoot));
    assert!(matches!(actions[1], Action::Classify));
}

#[test]
fn directory_with_recursive_is_trashed() {
    let m = Relocator::new("/a/dir".to_string(), &args(true, false, false, false));
    let script = vec![
        Event::Succeeded,
        Event::Classified { kind: EntryKind::Directory },
        listed(&[]),
        Event::Canonical { path: "/a/dir".to_string() },
        Event::Succeeded,
        listed(&[]),
        Event::Succeeded,
        Event::Succeeded,
    ];
    let (_, outcome) = drive(m, script);
    assert_eq!(outcome, Outcome::Trashed);
}

#[test]
fn skip_trash_file_never_touches_the_store() {
    let m = Relocator::new("/a/b/c.txt".to_string(), &args(false, true, false, true));
    let script = vec![
        Event::Succeeded,
        Event::Classified { kind: EntryKind::Other },
        Event::Succeeded,
    ];
    let (actions, outcome) = drive(m, script);
    assert_eq!(outcome, Outcome::Deleted);
    assert!(matches!(actions[2], Action::RemoveFile));
    assert!(actions.iter().all(|a| !touches_store(a)));
}

#[test]
fn skip_trash_directory_never_touches_the_store() {
    let m = Relocator::new("/a/dir".to_string(), &args(true, true, true, true));
    let script = vec![
        Event::Succeeded,
        Event::Classified { kind: EntryKind::Directory },
        Event::Succeeded,
    ];
    let (actions, outcome) = drive(m, script);
    assert_eq!(outcome, Outcome::Deleted);
    assert!(matches!(actions[2], Action::RemoveTree));
    assert!(actions.iter().all(|a| !touches_store(a)));
}

#[test]
fn source_without_name_component_is_refused() {
    let m = Relocator::new("/".to_string(), &args(true, false, false, false));
    let script = vec![Event::Succeeded, Event::Classified { kind: EntryKind::Directory }];
    let (_, outcome) = drive(m, script);
    assert_eq!(outcome, Outcome::Failed { err: TrashError::InvalidInput });
}

#[test]
fn missing_source_fails_not_found() {
    let m = Relocator::new("/a/gone".to_string(), &args(false, false, false, false));
    let script = vec![Event::Succeeded, Event::Failed { err: TrashError::NotFound }];
    let (_, outcome) = drive(m, script);
    assert_eq!(outcome, Outcome::Failed { err: TrashError::NotFound });
}

#[test]
fn cross_device_rename_failure_is_surfaced() {
    let m = Relocator::new("/a/b/c.txt".to_string(), &args(false, false, false, false));
    let script = vec![
        Event::Succeeded,
        Event::Classified { kind: EntryKind::Other },
        listed(&[]),
        Event::Canonical { path: "/a/b/c.txt".to_string() },
        Event::Succeeded,
        listed(&[]),
        Event::Succeeded,
        Event::Failed { err: TrashError::CrossDevice },
    ];
    let (_, outcome) = drive(m, script);
    assert_eq!(outcome, Outcome::Failed { err: TrashError::CrossDevice });
}

#[test]
fn metadata_failure_warns_and_still_moves() {
    let m = Relocator::new("/a/b/c.txt".to_string(), &args(false, false, false, false));
    let script = vec![
        Event::Succeeded,
        Event::Classified { kind: EntryKind::Other },
        listed(&[]),
        Event::Failed { err: TrashError::NotFound },  // canonicalization failed
        Event::Succeeded,                             // warning issued
        Event::Succeeded,                             // renamed
    ];
    let (actions, outcome) = drive(m, script);
    assert_eq!(outcome, Outcome::Trashed);
    match &actions[4] {
        Action::Warn { message } => {
            assert_eq!(message, "could not record metadata for '/a/b/c.txt'");
        },
        _ => panic!("expected a warning"),
    }
    assert!(matches!(actions[5], Action::Rename { .. }));
    assert!(actions.iter().all(|a| !matches!(a, Action::WriteInfo { .. })));
}

#[test]
fn interactive_decline_leaves_source_alone() {
    let m = Relocator::new("/a/b/c.txt".to_string(), &args(false, false, true, false));
    let script = vec![
        Event::Succeeded,
        Event::Classified { kind: EntryKind::Other },
        listed(&[]),
        Event::Answered { yes: false },
    ];
    let (actions, outcome) = drive(m, script);
    assert_eq!(outcome, Outcome::Declined);
    assert_eq!(actions.len(), 4);
    match &actions[3] {
        Action::AskConfirm { prompt } => assert_eq!(prompt, "move '/a/b/c.txt' to the trash?"),
        _ => panic!("expected a confirmation prompt"),
    }
    // nothing was written and nothing was moved or deleted: the prompt
    // comes before the metadata record, so a decline creates no trash
    // entry at all
    assert!(actions.iter().all(|a| !matches!(a, Action::WriteInfo { .. } | Action::Rename { .. })));
    assert!(actions.iter().all(|a| !matches!(a, Action::EnsureInfoRoot | Action::ListInfoRoot)));
    assert!(actions.iter().all(|a| !matches!(a, Action::RemoveFile | Action::RemoveTree | Action::RemoveLink)));
}

#[test]
fn interactive_accept_moves_the_source() {
    let m = Relocator::new("/a/b/c.txt".to_string(), &args(false, false, true, true));
    let script = vec![
        Event::Succeeded,
        Event::Classified { kind: EntryKind::Other },
        listed(&[]),
        Event::Answered { yes: true },                 // confirmed before any write
        Event::Canonical { path: "/a/b/c.txt".to_string() },
        Event::Succeeded,
        listed(&[]),
        Event::Succeeded,                              // metadata written
        Event::Succeeded,                              // notice printed
        Event::Succeeded,                              // renamed
    ];
    let (actions, outcome) = drive(m, script);
    assert_eq!(outcome, Outcome::Trashed);
    match &actions[3] {
        Action::AskConfirm { prompt } => assert_eq!(prompt, "move '/a/b/c.txt' to the trash?"),
        _ => panic!("expected a confirmation prompt"),
    }
    assert!(matches!(actions[7], Action::WriteInfo { .. }));
    match &actions[8] {
        Action::Notice { message } => assert_eq!(message, "removed '/a/b/c.txt'"),
        _ => panic!("expected a verbose notice"),
    }
    assert!(matches!(actions[9], Action::Rename { .. }));
}

#[test]
fn two_machines_share_one_root_creation_protocol() {
    // Both relocations begin by ensuring the same (possibly absent) files
    // root; an "already exists" answer from the filesystem is reported as
    // success, and both proceed identically.
    let a = Relocator::new("/a/x".to_string(), &args(false, false, false, false));
    let b = Relocator::new("/a/y".to_string(), &args(false, false, false, false));
    assert!(matches!(a.current_action(), Some(Action::EnsureFilesRoot)));
    assert!(matches!(b.current_action(), Some(Action::EnsureFilesRoot)));
    let a = a.step(Event::Succeeded, ts());
    let b = b.step(Event::Succeeded, ts());
    assert!(matches!(a.current_action(), Some(Action::Classify)));
    assert!(matches!(b.current_action(), Some(Action::Classify)));
}

#[test]
fn batch_isolates_one_failure() {
    let sources = ["/a/1", "/a/2", "/a/3", "/a/4", "/a/5"];
    let mut outcomes = Vec::new();
    for (i, src) in sources.iter().enumerate() {
        let m = Relocator::new(src.to_string(), &args(false, false, false, false));
        let script = if i == 2 {
            // this source does not exist
            vec![Event::Succeeded, Event::Failed { err: TrashError::NotFound }]
        } else {
            vec![
                Event::Succeeded,
                Event::Classified { kind: EntryKind::Other },
                listed(&[]),
                Event::Canonical { path: src.to_string() },
                Event::Succeeded,
                listed(&[]),
                Event::Succeeded,
                Event::Succeeded,
            ]
        };
        let (_, outcome) = drive(m, script);
        outcomes.push(outcome);
    }
    assert_eq!(outcomes[0], Outcome::Trashed);
    assert_eq!(outcomes[1], Outcome::Trashed);
    assert_eq!(outcomes[2], Outcome::Failed { err: TrashError::NotFound });
    assert_eq!(outcomes[3], Outcome::Trashed);
    assert_eq!(outcomes[4], Outcome::Trashed);
    assert_eq!(failed_indices(&outcomes), vec![2]);
}

#[test]
fn failed_indices_lists_exactly_the_failures() {
    let outcomes = vec![
        Outcome::Failed { err: TrashError::Io },
        Outcome::Trashed,
        Outcome::Declined,
        Outcome::Failed { err: TrashError::NotFound },
        Outcome::LinkRemoved,
    ];
    assert_eq!(failed_indices(&outcomes), vec![0, 3]);
    assert_eq!(failed_indices(&Vec::new()), Vec::<usize>::new());
}

#[test]
fn interactive_batches_run_sequentially() {
    assert!(matches!(
        execution_mode(&args(false, false, true, false)),
        ExecMode::Sequential
    ));
    assert!(matches!(
        execution_mode(&args(true, true, false, true)),
        ExecMode::Parallel
    ));
}

#[test]
fn trailing_slash_source_is_named_by_its_last_segment() {
    let m = Relocator::new("/a/dir/".to_string(), &args(true, false, false, false));
    let script = vec![
        Event::Succeeded,
        Event::Classified { kind: EntryKind::Directory },
        listed(&[]),
        Event::Canonical { path: "/a/dir".to_string() },
        Event::Succeeded,
        listed(&[]),
        Event::Succeeded,
        Event::Succeeded,
    ];
    let (actions, outcome) = drive(m, script);
    assert_eq!(outcome, Outcome::Trashed);
    match &actions[7] {
        Action::Rename { dest } => assert_eq!(dest, "dir"),
        _ => panic!("expected a rename"),
    }
}
