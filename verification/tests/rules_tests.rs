use scrobble_scrubber::rules::{
    rule_from_fields,
    active_rules_lines, add_rule_error_lines, added_rule_lines, remove_all_warning, removal_lines, answer_confirms, apply_rule_removal, build_rule_from_args, clear_all_rules,
    get_rule_description, import_default_rules, remove_rule_at_index, save_current_rule,
    update_rule_confirmation, AddRuleError, DefaultRule, DefaultRulePattern, RemovalOutcome, RewriteRule,
    SaveRuleError, SdRule,
};

fn named(name: &str) -> RewriteRule {
    let mut r = RewriteRule::new().with_track_name(SdRule::new("a", "b"));
    r.name = Some(name.to_string());
    r
}

fn default_rule(name: &str) -> DefaultRule {
    DefaultRule {
        name: name.to_string(),
        description: "Removes remaster suffixes".to_string(),
        examples: vec!["Song - Remastered".to_string()],
        track_name: Some(DefaultRulePattern { find: " - Remastered.*".to_string(), replace: String::new() }),
        artist_name: None,
        album_name: Some(DefaultRulePattern { find: "\\(Deluxe\\)".to_string(), replace: String::new() }),
        album_artist_name: None,
        requires_confirmation: true,
    }
}

#[test]
fn builders_set_each_field() {
    let r = RewriteRule::new()
        .with_track_name(SdRule::new("t", "T"))
        .with_artist_name(SdRule::new("a", "A"))
        .with_album_name(SdRule::new("l", "L"))
        .with_album_artist_name(SdRule::new("x", "X"));
    assert_eq!(r.track_name.as_ref().unwrap().find, "t");
    assert_eq!(r.artist_name.as_ref().unwrap().replace, "A");
    assert_eq!(r.album_name.as_ref().unwrap().find, "l");
    assert_eq!(r.album_artist_name.as_ref().unwrap().replace, "X");
    assert_eq!(r.track_name.as_ref().unwrap().flags, None);
    assert!(r.has_content());
    assert!(!RewriteRule::new().has_content());
    assert_eq!(r.duplicate(), r);
}

#[test]
fn saving_an_empty_rule_is_refused() {
    let mut rules = Vec::new();
    assert_eq!(save_current_rule(&mut rules, RewriteRule::new()), Err(SaveRuleError::EmptyRule));
    assert!(rules.is_empty());
    assert_eq!(save_current_rule(&mut rules, named("one")), Ok(()));
    assert_eq!(rules.len(), 1);
}

#[test]
fn removing_and_updating_by_index() {
    let mut rules = vec![named("a"), named("b"), named("c")];
    assert!(!remove_rule_at_index(&mut rules, 3));
    assert!(remove_rule_at_index(&mut rules, 1));
    assert_eq!(rules.len(), 2);
    assert_eq!(rules[1].name.as_deref(), Some("c"));
    assert!(update_rule_confirmation(&mut rules, 0, true));
    assert!(rules[0].requires_confirmation);
    assert!(!rules[1].requires_confirmation);
    assert!(!update_rule_confirmation(&mut rules, 5, true));
    clear_all_rules(&mut rules);
    assert!(rules.is_empty());
}

#[test]
fn default_rules_import_case_insensitive() {
    let r = RewriteRule::from_default_rule(default_rule("Remaster"));
    assert_eq!(r.name.as_deref(), Some("Remaster"));
    let t = r.track_name.unwrap();
    assert_eq!(t.find, " - Remastered.*");
    assert_eq!(t.flags.as_deref(), Some("i"));
    assert!(r.artist_name.is_none());
    assert!(r.requires_confirmation);

    let mut rules = vec![named("existing")];
    let n = import_default_rules(&mut rules, vec![default_rule("one"), default_rule("two")]);
    assert_eq!(n, 2);
    assert_eq!(rules.len(), 3);
    assert_eq!(rules[0].name.as_deref(), Some("existing"));
    assert_eq!(rules[2].name.as_deref(), Some("two"));
}

#[test]
fn rule_descriptions() {
    assert_eq!(get_rule_description(&named("Fix")), "Fix: Track name: a → b");
    let r = RewriteRule::new().with_album_name(SdRule::new("x", "y"));
    assert_eq!(get_rule_description(&r), "Unnamed Rule: Album name: x → y");
    let r = RewriteRule::new().with_artist_name(SdRule::new("p", "q")).with_album_artist_name(SdRule::new("m", "n"));
    assert_eq!(get_rule_description(&r), "Unnamed Rule: Artist name: p → q");
    let r = RewriteRule::new().with_album_artist_name(SdRule::new("m", "n"));
    assert_eq!(get_rule_description(&r), "Unnamed Rule: Album artist: m → n");
    assert_eq!(get_rule_description(&RewriteRule::new()), "Unnamed Rule: No active rules");
}

#[test]
fn command_line_rule_errors() {
    let none = build_rule_from_args(None, None, None, None, None, None, None, None, None, None, false);
    assert_eq!(none, Err(AddRuleError::NoFieldRule));
    let half_only = build_rule_from_args(None, Some("x"), None, None, None, None, None, None, None, None, false);
    assert_eq!(half_only, Err(AddRuleError::NoFieldRule));
    let half_track =
        build_rule_from_args(None, Some("x"), None, Some("a"), Some("b"), None, None, None, None, None, false);
    assert_eq!(half_track, Err(AddRuleError::IncompleteTrackRule));
    let half_artist =
        build_rule_from_args(None, Some("x"), Some("y"), None, Some("b"), None, None, None, None, None, false);
    assert_eq!(half_artist, Err(AddRuleError::IncompleteArtistRule));
    let half_album =
        build_rule_from_args(None, Some("x"), Some("y"), None, None, Some("c"), None, None, None, None, false);
    assert_eq!(half_album, Err(AddRuleError::IncompleteAlbumRule));
    let half_album_artist =
        build_rule_from_args(None, Some("x"), Some("y"), None, None, None, None, None, Some("d"), None, false);
    assert_eq!(half_album_artist, Err(AddRuleError::IncompleteAlbumArtistRule));
}

#[test]
fn command_line_rule_is_built() {
    let r = build_rule_from_args(
        Some("Clean"),
        Some(" \\(Live\\)"),
        Some(""),
        None,
        None,
        Some("x"),
        Some("y"),
        None,
        None,
        Some("i"),
        true,
    )
    .unwrap();
    assert_eq!(r.name.as_deref(), Some("Clean"));
    let t = r.track_name.as_ref().unwrap();
    assert_eq!(t.find, " \\(Live\\)");
    assert_eq!(t.replace, "");
    assert_eq!(t.flags.as_deref(), Some("i"));
    assert_eq!(r.album_name.as_ref().unwrap().flags.as_deref(), Some("i"));
    assert!(r.artist_name.is_none());
    assert!(r.requires_confirmation);
}

#[test]
fn confirmation_answers() {
    assert!(answer_confirms("y"));
    assert!(answer_confirms("  YES \n"));
    assert!(answer_confirms("Y"));
    assert!(!answer_confirms("n"));
    assert!(!answer_confirms("yeah"));
    assert!(!answer_confirms(""));
}

#[test]
fn removal_requests() {
    let mut empty: Vec<RewriteRule> = Vec::new();
    assert_eq!(apply_rule_removal(&mut empty, Some(1), None, false, true), RemovalOutcome::NoRules);

    let mut rules = vec![named("a"), named("b"), named("a")];
    assert_eq!(apply_rule_removal(&mut rules, None, None, true, false), RemovalOutcome::Cancelled);
    assert_eq!(rules.len(), 3);
    assert_eq!(
        apply_rule_removal(&mut rules, Some(4), None, false, false),
        RemovalOutcome::InvalidIndex { index: 4, len: 3 }
    );
    assert_eq!(
        apply_rule_removal(&mut rules, Some(0), None, false, false),
        RemovalOutcome::InvalidIndex { index: 0, len: 3 }
    );
    assert_eq!(
        apply_rule_removal(&mut rules, None, Some("zzz"), false, false),
        RemovalOutcome::NameNotFound
    );
    assert_eq!(
        apply_rule_removal(&mut rules, None, Some("a"), false, false),
        RemovalOutcome::RemovedByName { count: 2 }
    );
    assert_eq!(rules.len(), 1);
    assert_eq!(rules[0].name.as_deref(), Some("b"));
    assert_eq!(
        apply_rule_removal(&mut rules, Some(1), None, false, false),
        RemovalOutcome::RemovedAt { index: 1, name: Some("b".to_string()) }
    );
    assert!(rules.is_empty());

    let mut more = vec![named("a"), named("b")];
    assert_eq!(apply_rule_removal(&mut more, None, None, false, false), RemovalOutcome::NoMethod);
    assert_eq!(
        apply_rule_removal(&mut more, None, None, true, true),
        RemovalOutcome::RemovedAll { count: 2 }
    );
    assert!(more.is_empty());
}

#[test]
fn active_rules_listing() {
    let empty = active_rules_lines(&Vec::new());
    assert_eq!(empty, vec!["📝 Active Rewrite Rules", "=====================", "No rewrite rules configured"]);

    let mut unnamed = RewriteRule::new().with_artist_name(SdRule::new("The ", "")).with_album_name(SdRule::new("x", "y"));
    unnamed.requires_confirmation = true;
    let lines = active_rules_lines(&vec![named("Fix"), unnamed]);
    assert_eq!(
        lines,
        vec![
            "📝 Active Rewrite Rules",
            "=====================",
            "Found 2 rewrite rules:",
            "  Rule 1: Fix",
            "    Track: 'a' → 'b'",
            "",
            "  Rule 2: Rule #2",
            "    Artist: 'The ' → ''",
            "    Album: 'x' → 'y'",
            "",
        ]
    );
}

#[test]
fn add_rule_messages() {
    assert_eq!(add_rule_error_lines(&AddRuleError::NoFieldRule).len(), 3);
    assert_eq!(
        add_rule_error_lines(&AddRuleError::IncompleteAlbumRule),
        vec!["❌ Error: Album rule requires both --album-find and --album-replace"]
    );
    let mut r = RewriteRule::new().with_track_name(SdRule::new("a", "b")).with_album_artist_name(SdRule::new("c", "d"));
    r.requires_confirmation = true;
    assert_eq!(
        added_rule_lines(None, &r, Some("i")),
        vec![
            "✅ Successfully added rewrite rule:",
            "   Name: (unnamed)",
            "   Track: 'a' → 'b'",
            "   Album Artist: 'c' → 'd'",
            "   Flags: i",
            "   Requires confirmation: yes",
        ]
    );
    assert_eq!(
        added_rule_lines(Some("Fix"), &named("Fix"), None),
        vec!["✅ Successfully added rewrite rule:", "   Name: Fix", "   Track: 'a' → 'b'"]
    );
}

#[test]
fn removal_messages() {
    assert_eq!(remove_all_warning(4), "⚠️ This will remove ALL 4 rewrite rules.");
    assert_eq!(removal_lines(&RemovalOutcome::NoRules, ""), vec!["❌ No rewrite rules found to remove"]);
    assert_eq!(removal_lines(&RemovalOutcome::Cancelled, ""), vec!["❌ Operation cancelled"]);
    assert_eq!(removal_lines(&RemovalOutcome::RemovedAll { count: 3 }, ""), vec!["✅ Removed all rewrite rules"]);
    assert_eq!(
        removal_lines(&RemovalOutcome::RemovedAt { index: 2, name: None }, ""),
        vec!["✅ Removed rule #2: (unnamed)"]
    );
    assert_eq!(
        removal_lines(&RemovalOutcome::InvalidIndex { index: 9, len: 3 }, ""),
        vec!["❌ Invalid rule index: 9", "   Valid range: 1-3"]
    );
    assert_eq!(removal_lines(&RemovalOutcome::RemovedByName { count: 1 }, "x"), vec!["✅ Removed rule: 'x'"]);
    assert_eq!(
        removal_lines(&RemovalOutcome::RemovedByName { count: 2 }, "x"),
        vec!["✅ Removed 2 rules with name: 'x'"]
    );
    assert_eq!(removal_lines(&RemovalOutcome::NameNotFound, "x"), vec!["❌ No rule found with name: 'x'"]);
    assert_eq!(removal_lines(&RemovalOutcome::NoMethod, "").len(), 2);
}

#[test]
fn desktop_editor_rule() {
    let r = rule_from_fields("a", "b", "", "x", "c", "", "va", "Various");
    assert_eq!(r.track_name, Some(SdRule::new("a", "b")));
    assert!(r.artist_name.is_none());
    assert_eq!(r.album_name, Some(SdRule::new("c", "")));
    assert_eq!(r.album_artist_name, Some(SdRule::new("va", "Various")));
    assert!(r.name.is_none());
    assert!(!r.requires_confirmation);
}

#[test]
fn confirmation_ignores_unicode_whitespace_around_the_answer() {
    assert!(answer_confirms("\u{3000}Yes\u{a0}"));
    assert!(answer_confirms("\u{2003}y\u{2028}"));
    assert!(!answer_confirms("y e s"));
    assert!(!answer_confirms("\u{200b}yes"));
}
