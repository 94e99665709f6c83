use scrobble_scrubber::pending::{
    approve_rewrite_rule, clear_message, clear_pending_edits, not_found_message, pending_list_lines,
    print_pending_edit, remove_pending_edit, remove_pending_rule, settle_apply, PendingArgs, PendingCommands,
    PendingEdit, PendingError, PendingRewriteRule,
};
use scrobble_scrubber::rules::{RewriteRule, SdRule};

fn edit(id: &str) -> PendingEdit {
    PendingEdit {
        id: id.to_string(),
        original_track_name: "Song - Remastered".to_string(),
        original_artist_name: "Band".to_string(),
        original_album_name: None,
        original_album_artist_name: None,
        new_track_name: Some("Song".to_string()),
        new_artist_name: None,
        new_album_name: None,
        new_album_artist_name: None,
        timestamp: None,
    }
}

fn pending_rule(id: &str) -> PendingRewriteRule {
    PendingRewriteRule { id: id.to_string(), rule: RewriteRule::new().with_track_name(SdRule::new(id, "x")) }
}

#[test]
fn removing_a_pending_edit_by_id() {
    let mut edits = vec![edit("a"), edit("b"), edit("b")];
    let got = remove_pending_edit(&mut edits, "b").unwrap();
    assert_eq!(got.id, "b");
    assert_eq!(edits.len(), 2);
    assert_eq!(edits[0].id, "a");
    assert_eq!(edits[1].id, "b");
    assert_eq!(remove_pending_edit(&mut edits, "zzz"), Err(PendingError::EditNotFound));
    assert_eq!(edits.len(), 2);
}

#[test]
fn removing_and_approving_pending_rules() {
    let mut pending = vec![pending_rule("r1"), pending_rule("r2")];
    let mut active: Vec<RewriteRule> = Vec::new();
    assert_eq!(approve_rewrite_rule(&mut pending, &mut active, "r2"), Ok(()));
    assert_eq!(pending.len(), 1);
    assert_eq!(active.len(), 1);
    assert_eq!(active[0].track_name.as_ref().unwrap().find, "r2");
    assert_eq!(approve_rewrite_rule(&mut pending, &mut active, "nope"), Err(PendingError::RuleNotFound));
    assert_eq!(active.len(), 1);
    let r = remove_pending_rule(&mut pending, "r1").unwrap();
    assert_eq!(r.id, "r1");
    assert!(pending.is_empty());
    assert_eq!(remove_pending_rule(&mut pending, "r1"), Err(PendingError::RuleNotFound));
}

#[test]
fn clearing_counts_the_edits() {
    let mut edits = vec![edit("a"), edit("b")];
    assert_eq!(clear_pending_edits(&mut edits), 2);
    assert!(edits.is_empty());
    assert_eq!(clear_pending_edits(&mut edits), 0);
    assert_eq!(clear_message(0), "No pending edits to clear.");
    assert_eq!(clear_message(2), "Cleared 2 pending edit(s).");
}

#[test]
fn pending_edit_description() {
    let mut e = edit("x1");
    assert_eq!(
        print_pending_edit(&e),
        vec!["ID: x1", "Original Track: Band - Song - Remastered", "New Track Name: Song"]
    );
    e.new_track_name = None;
    e.original_album_name = Some("Album".to_string());
    e.original_album_artist_name = Some("VA".to_string());
    e.timestamp = Some(0);
    assert_eq!(
        print_pending_edit(&e),
        vec![
            "ID: x1",
            "Original Track: Band - Song - Remastered",
            "Original Album: Album",
            "Original Album Artist: VA",
            "(No changes - removal edit)",
            "Timestamp: 1970-01-01 00:00:00 UTC",
        ]
    );
    e.new_artist_name = Some("B".to_string());
    e.new_album_name = Some("A".to_string());
    e.new_album_artist_name = Some("C".to_string());
    e.timestamp = Some(1_753_168_080);
    let lines = print_pending_edit(&e);
    assert_eq!(lines[4], "New Artist Name: B");
    assert_eq!(lines[5], "New Album Name: A");
    assert_eq!(lines[6], "New Album Artist: C");
    assert_eq!(lines[7], "Timestamp: 2025-07-22 07:08:00 UTC");
}

#[test]
fn pending_listing() {
    assert_eq!(pending_list_lines(&Vec::new()), vec!["No pending edits found."]);
    let lines = pending_list_lines(&vec![edit("a"), edit("b")]);
    assert_eq!(lines.len(), 2 + 2 * 4);
    assert_eq!(lines[0], "Pending Edits (2):");
    assert_eq!(lines[1], "=".repeat(80));
    assert_eq!(lines[2], "ID: a");
    assert_eq!(lines[5], "-".repeat(80));
    assert_eq!(lines[6], "ID: b");
    assert_eq!(lines[9], "-".repeat(80));
}

#[test]
fn apply_outcomes() {
    let mut edits = vec![edit("a")];
    assert_eq!(settle_apply(&mut edits, edit("b"), Ok(())), Ok(()));
    assert_eq!(edits.len(), 1);
    assert_eq!(
        settle_apply(&mut edits, edit("b"), Err("HTTP 500".to_string())),
        Err("Failed to apply edit to Last.fm: HTTP 500".to_string())
    );
    assert_eq!(edits.len(), 2);
    assert_eq!(edits[1].id, "b");
    assert_eq!(not_found_message("q"), "Pending edit with ID 'q' not found");
}

#[test]
fn pending_command_arguments() {
    let args = PendingArgs { command: PendingCommands::Apply { id: "x".to_string() } };
    assert_eq!(args.command, PendingCommands::Apply { id: "x".to_string() });
    assert_ne!(PendingCommands::List, PendingCommands::Clear);
}

#[test]
fn failed_apply_puts_the_edit_back() {
    let mut edits = vec![edit("a"), edit("b"), edit("c")];
    let taken = remove_pending_edit(&mut edits, "b").unwrap();
    let r = settle_apply(&mut edits, taken, Err("offline".to_string()));
    assert!(r.is_err());
    let ids: Vec<&str> = edits.iter().map(|e| e.id.as_str()).collect();
    assert_eq!(ids, vec!["a", "c", "b"]);
}

#[test]
fn pending_edit_with_unrepresentable_time_has_no_timestamp_line() {
    let mut e = edit("far");
    e.timestamp = Some(8_210_266_876_800);
    assert_eq!(
        print_pending_edit(&e),
        vec!["ID: far", "Original Track: Band - Song - Remastered", "New Track Name: Song"]
    );
    e.timestamp = Some(8_210_266_876_799);
    assert_eq!(print_pending_edit(&e)[3], "Timestamp: +262142-12-31 23:59:59 UTC");
}
