use vstd::prelude::*;
use crate::rules::{RewriteRule, opt_view};
use crate::text::{decimal, push_decimal, push_str, repeat_char, repeated, same_text, string_of};
use crate::paging::{time_display_pattern, time_display_pattern_text};
use crate::timefmt::{format_utc, utc_in_range, utc_text};

verus! {

/// An edit the scrubber proposed and that waits for the user.
#[derive(Debug, Clone, PartialEq)]
pub struct PendingEdit {
    pub id: String,
    pub original_track_name: String,
    pub original_artist_name: String,
    pub original_album_name: Option<String>,
    pub original_album_artist_name: Option<String>,
    pub new_track_name: Option<String>,
    pub new_artist_name: Option<String>,
    pub new_album_name: Option<String>,
    pub new_album_artist_name: Option<String>,
    pub timestamp: Option<u64>,
}

/// A rewrite rule the scrubber proposed and that waits for the user.
#[derive(Debug, Clone, PartialEq)]
pub struct PendingRewriteRule {
    pub id: String,
    pub rule: RewriteRule,
}

/// No waiting item carries the requested id.
#[derive(Debug, Clone, PartialEq)]
pub enum PendingError {
    EditNotFound,
    RuleNotFound,
}

/// The first position whose id is `id`, among ids.
pub open spec fn first_position(ids: Seq<Seq<char>>, id: Seq<char>) -> Option<int> {
    if exists|i: int| 0 <= i < ids.len() && ids[i] == id {
        Some(choose|i: int| 0 <= i < ids.len() && ids[i] == id && forall|j: int| 0 <= j < i ==> ids[j] != id)
    } else {
        None
    }
}

/// The ids of the pending edits.
pub open spec fn edit_ids(v: Seq<PendingEdit>) -> Seq<Seq<char>> {
    v.map_values(|e: PendingEdit| e.id@)
}

/// The ids of the pending rules.
pub open spec fn rule_ids(v: Seq<PendingRewriteRule>) -> Seq<Seq<char>> {
    v.map_values(|r: PendingRewriteRule| r.id@)
}

/// The first position lies in range and holds the id; without one no position holds it.
pub proof fn lemma_first_position_found(ids: Seq<Seq<char>>, id: Seq<char>)
    ensures
        match first_position(ids, id) {
            Some(i) => 0 <= i < ids.len() && ids[i] == id && forall|j: int| 0 <= j < i ==> ids[j] != id,
            None => forall|j: int| 0 <= j < ids.len() ==> ids[j] != id,
        },
{
    if exists|i: int| 0 <= i < ids.len() && ids[i] == id {
        let w = choose|i: int| 0 <= i < ids.len() && ids[i] == id;
        lemma_least_exists(ids, id, w);
    }
}

/// Where the id occurs, a least position holding it exists.
proof fn lemma_least_exists(ids: Seq<Seq<char>>, id: Seq<char>, w: int)
    requires
        0 <= w < ids.len(),
        ids[w] == id,
    ensures
        exists|i: int| 0 <= i < ids.len() && ids[i] == id && forall|j: int| 0 <= j < i ==> ids[j] != id,
    decreases w,
{
    if exists|j: int| 0 <= j < w && ids[j] == id {
        let j = choose|j: int| 0 <= j < w && ids[j] == id;
        lemma_least_exists(ids, id, j);
    } else {
        assert(forall|j: int| 0 <= j < w ==> ids[j] != id);
    }
}

/// The first position found really is the first.
proof fn lemma_first_position(ids: Seq<Seq<char>>, id: Seq<char>, i: int)
    requires
        0 <= i < ids.len(),
        ids[i] == id,
        forall|j: int| 0 <= j < i ==> ids[j] != id,
    ensures
        first_position(ids, id) == Some(i),
{
    let k = choose|k: int| 0 <= k < ids.len() && ids[k] == id && forall|j: int| 0 <= j < k ==> ids[j] != id;
    assert(0 <= k < ids.len() && ids[k] == id && forall|j: int| 0 <= j < k ==> ids[j] != id);
    if k < i {
        assert(ids[k] != id);
    }
    if i < k {
        assert(ids[i] != id);
    }
}

/// Removes the first pending edit with the id and hands it back.
pub fn remove_pending_edit(edits: &mut Vec<PendingEdit>, id: &str) -> (r: Result<PendingEdit, PendingError>)
    ensures
        match first_position(edit_ids(old(edits)@), id@) {
            Some(i) => r == Ok::<PendingEdit, PendingError>(old(edits)@[i]) && final(edits)@ == old(edits)@.remove(i),
            None => r == Err::<PendingEdit, PendingError>(PendingError::EditNotFound) && final(edits)@ == old(edits)@,
        },
{
    let mut i: usize = 0;
    while i < edits.len()
        invariant
            i <= edits@.len(),
            edits@ == old(edits)@,
            forall|j: int| 0 <= j < i ==> edit_ids(edits@)[j] != id@,
        decreases edits@.len() - i,
    {
        if same_text(edits[i].id.as_str(), id) {
            proof {
                lemma_first_position(edit_ids(edits@), id@, i as int);
            }
            let e = edits.remove(i);
            return Ok(e);
        }
        i = i + 1;
    }
    proof {
        assert(!exists|j: int| 0 <= j < edit_ids(edits@).len() && edit_ids(edits@)[j] == id@);
    }
    Err(PendingError::EditNotFound)
}

/// Removes the first pending rule with the id and hands it back.
pub fn remove_pending_rule(rules: &mut Vec<PendingRewriteRule>, id: &str) -> (r: Result<PendingRewriteRule, PendingError>)
    ensures
        match first_position(rule_ids(old(rules)@), id@) {
            Some(i) => r == Ok::<PendingRewriteRule, PendingError>(old(rules)@[i]) && final(rules)@ == old(
                rules,
            )@.remove(i),
            None => r == Err::<PendingRewriteRule, PendingError>(PendingError::RuleNotFound) && final(rules)@ == old(
                rules,
            )@,
        },
{
    let mut i: usize = 0;
    while i < rules.len()
        invariant
            i <= rules@.len(),
            rules@ == old(rules)@,
            forall|j: int| 0 <= j < i ==> rule_ids(rules@)[j] != id@,
        decreases rules@.len() - i,
    {
        if same_text(rules[i].id.as_str(), id) {
            proof {
                lemma_first_position(rule_ids(rules@), id@, i as int);
            }
            let r = rules.remove(i);
            return Ok(r);
        }
        i = i + 1;
    }
    proof {
        assert(!exists|j: int| 0 <= j < rule_ids(rules@).len() && rule_ids(rules@)[j] == id@);
    }
    Err(PendingError::RuleNotFound)
}

/// Approves a pending rule: it leaves the waiting list and joins the active rules at the end.
pub fn approve_rewrite_rule(
    pending: &mut Vec<PendingRewriteRule>,
    active: &mut Vec<RewriteRule>,
    id: &str,
) -> (r: Result<(), PendingError>)
    ensures
        match first_position(rule_ids(old(pending)@), id@) {
            Some(i) => r is Ok && final(pending)@ == old(pending)@.remove(i) && final(active)@ == old(active)@.push(
                old(pending)@[i].rule,
            ),
            None => r == Err::<(), PendingError>(PendingError::RuleNotFound) && final(pending)@ == old(pending)@
                && final(active)@ == old(active)@,
        },
{
    match remove_pending_rule(pending, id) {
        Ok(p) => {
            active.push(p.rule);
            Ok(())
        },
        Err(e) => Err(e),
    }
}

/// Empties the waiting edits; returns how many there were.
pub fn clear_pending_edits(edits: &mut Vec<PendingEdit>) -> (count: usize)
    ensures
        count == old(edits)@.len(),
        final(edits)@.len() == 0,
{
    let n = edits.len();
    edits.clear();
    n
}

/// An optional line `label + value`.
pub open spec fn opt_line(label: Seq<char>, v: Option<String>) -> Seq<Seq<char>> {
    match v {
        Some(x) => seq![label + x@],
        None => Seq::empty(),
    }
}

/// The lines that describe a pending edit.
pub open spec fn pending_edit_text(e: PendingEdit) -> Seq<Seq<char>> {
    let has_changes = e.new_track_name is Some || e.new_artist_name is Some || e.new_album_name is Some
        || e.new_album_artist_name is Some;
    seq!["ID: "@ + e.id@, "Original Track: "@ + e.original_artist_name@ + " - "@ + e.original_track_name@]
        + opt_line("Original Album: "@, e.original_album_name) + opt_line(
        "Original Album Artist: "@,
        e.original_album_artist_name,
    ) + opt_line("New Track Name: "@, e.new_track_name) + opt_line("New Artist Name: "@, e.new_artist_name)
        + opt_line("New Album Name: "@, e.new_album_name) + opt_line(
        "New Album Artist: "@,
        e.new_album_artist_name,
    ) + (if has_changes { Seq::empty() } else { seq!["(No changes - removal edit)"@] }) + match e.timestamp {
        Some(t) => if utc_in_range(t) {
            seq!["Timestamp: "@ + utc_text(t, time_display_pattern())]
        } else {
            Seq::empty()
        },
        None => Seq::empty(),
    }
}

/// Strings by their text.
pub open spec fn lines_view(v: Seq<String>) -> Seq<Seq<char>> {
    v.map_values(|s: String| s@)
}

/// Adds `label + value` when there is a value.
fn push_opt_line(lines: &mut Vec<String>, label: &str, v: &Option<String>)
    ensures
        lines_view(final(lines)@) == lines_view(old(lines)@) + opt_line(label@, *v),
{
    match v {
        Some(x) => {
            let mut s = string_of(label);
            push_str(&mut s, x.as_str());
            lines.push(s);
            proof {
                assert(lines_view(lines@) =~= lines_view(old(lines)@) + opt_line(label@, *v));
            }
        },
        None => {
            proof {
                assert(lines_view(lines@) =~= lines_view(old(lines)@) + opt_line(label@, *v));
            }
        },
    }
}

/// The lines that describe a pending edit.
pub fn print_pending_edit(edit: &PendingEdit) -> (lines: Vec<String>)
    ensures
        lines_view(lines@) == pending_edit_text(*edit),
{
    let mut lines: Vec<String> = Vec::new();
    let mut id_line = string_of("ID: ");
    push_str(&mut id_line, edit.id.as_str());
    lines.push(id_line);
    let mut orig = string_of("Original Track: ");
    push_str(&mut orig, edit.original_artist_name.as_str());
    push_str(&mut orig, " - ");
    push_str(&mut orig, edit.original_track_name.as_str());
    lines.push(orig);
    proof {
        assert(lines_view(lines@) =~= seq![
            "ID: "@ + edit.id@,
            "Original Track: "@ + edit.original_artist_name@ + " - "@ + edit.original_track_name@,
        ]);
    }
    push_opt_line(&mut lines, "Original Album: ", &edit.original_album_name);
    push_opt_line(&mut lines, "Original Album Artist: ", &edit.original_album_artist_name);
    push_opt_line(&mut lines, "New Track Name: ", &edit.new_track_name);
    push_opt_line(&mut lines, "New Artist Name: ", &edit.new_artist_name);
    push_opt_line(&mut lines, "New Album Name: ", &edit.new_album_name);
    push_opt_line(&mut lines, "New Album Artist: ", &edit.new_album_artist_name);
    let has_changes = edit.new_track_name.is_some() || edit.new_artist_name.is_some()
        || edit.new_album_name.is_some() || edit.new_album_artist_name.is_some();
    let ghost before = lines_view(lines@);
    if !has_changes {
        lines.push(string_of("(No changes - removal edit)"));
    }
    proof {
        assert(lines_view(lines@) =~= before + (if has_changes { Seq::empty() } else { seq!["(No changes - removal edit)"@] }));
    }
    let ghost before2 = lines_view(lines@);
    if let Some(t) = edit.timestamp {
        if let Some(text) = format_utc(t, time_display_pattern_text()) {
            let mut s = string_of("Timestamp: ");
            push_str(&mut s, text.as_str());
            lines.push(s);
        }
    }
    proof {
        let tail = match edit.timestamp {
            Some(t) => if utc_in_range(t) {
                seq!["Timestamp: "@ + utc_text(t, time_display_pattern())]
            } else {
                Seq::<Seq<char>>::empty()
            },
            None => Seq::<Seq<char>>::empty(),
        };
        assert(lines_view(lines@) =~= before2 + tail);
        assert(lines_view(lines@) =~= pending_edit_text(*edit));
    }
    lines
}

/// The pending-edit subcommands of the command line.
#[derive(Debug, Clone, PartialEq)]
pub enum PendingCommands {
    /// List all pending edits.
    List,
    /// Apply a pending edit by ID.
    Apply { id: String },
    /// Reject a pending edit by ID (remove without applying).
    Reject { id: String },
    /// Clear all pending edits.
    Clear,
}

/// The arguments of the pending-edit command.
#[derive(Debug, Clone, PartialEq)]
pub struct PendingArgs {
    pub command: PendingCommands,
}

/// The listing of the waiting edits after its heading: each edit's lines, then a dashed rule.
pub open spec fn edits_listing(es: Seq<PendingEdit>) -> Seq<Seq<char>>
    decreases es.len(),
{
    if es.len() == 0 {
        Seq::empty()
    } else {
        edits_listing(es.drop_last()) + pending_edit_text(es.last()) + seq![repeated('-', 80)]
    }
}

/// What the list command prints.
pub open spec fn pending_list_text(es: Seq<PendingEdit>) -> Seq<Seq<char>> {
    if es.len() == 0 {
        seq!["No pending edits found."@]
    } else {
        seq!["Pending Edits ("@ + decimal(es.len()) + "):"@, repeated('=', 80)] + edits_listing(es)
    }
}

/// The lines the list command prints.
pub fn pending_list_lines(edits: &Vec<PendingEdit>) -> (lines: Vec<String>)
    ensures
        lines_view(lines@) == pending_list_text(edits@),
{
    let mut lines: Vec<String> = Vec::new();
    if edits.len() == 0 {
        lines.push(string_of("No pending edits found."));
        proof {
            assert(lines_view(lines@) =~= pending_list_text(edits@));
        }
        return lines;
    }
    let mut head = string_of("Pending Edits (");
    push_decimal(&mut head, edits.len() as u64);
    push_str(&mut head, "):");
    lines.push(head);
    lines.push(repeat_char('=', 80));
    let ghost start = lines_view(lines@);
    proof {
        assert(start =~= seq!["Pending Edits ("@ + decimal(edits@.len()) + "):"@, repeated('=', 80)]);
        assert(edits@.subrange(0, 0) =~= Seq::<PendingEdit>::empty());
        assert(lines_view(lines@) =~= start + edits_listing(edits@.subrange(0, 0)));
    }
    let mut i: usize = 0;
    while i < edits.len()
        invariant
            i <= edits@.len(),
            lines_view(lines@) == start + edits_listing(edits@.subrange(0, i as int)),
        decreases edits@.len() - i,
    {
        let ghost before = lines_view(lines@);
        let mut block = print_pending_edit(&edits[i]);
        let ghost b = block@;
        lines.append(&mut block);
        proof {
            assert(lines_view(lines@) =~= before + lines_view(b));
        }
        let dash = repeat_char('-', 80);
        lines.push(dash);
        proof {
            assert(lines_view(lines@) =~= before + lines_view(b) + seq![repeated('-', 80)]);
            let sub = edits@.subrange(0, i + 1);
            assert(sub.drop_last() =~= edits@.subrange(0, i as int));
            assert(sub.last() == edits@[i as int]);
            assert(edits_listing(sub) == edits_listing(sub.drop_last()) + pending_edit_text(sub.last()) + seq![
                repeated('-', 80),
            ]);
            assert(lines_view(lines@) =~= start + edits_listing(edits@.subrange(0, i + 1)));
        }
        i = i + 1;
    }
    proof {
        assert(edits@.subrange(0, i as int) =~= edits@);
    }
    lines
}

/// What the clear command prints for the number of edits it removed.
pub open spec fn clear_message_text(count: nat) -> Seq<char> {
    if count == 0 {
        "No pending edits to clear."@
    } else {
        "Cleared "@ + decimal(count) + " pending edit(s)."@
    }
}

/// The message of the clear command.
pub fn clear_message(count: usize) -> (r: String)
    ensures
        r@ == clear_message_text(count as nat),
{
    if count == 0 {
        string_of("No pending edits to clear.")
    } else {
        let mut s = string_of("Cleared ");
        push_decimal(&mut s, count as u64);
        push_str(&mut s, " pending edit(s).");
        proof {
            assert(s@ =~= clear_message_text(count as nat));
        }
        s
    }
}

/// The error of the apply and reject commands when no waiting edit carries the id.
pub open spec fn not_found_text(id: Seq<char>) -> Seq<char> {
    "Pending edit with ID '"@ + id + "' not found"@
}

/// The error of the apply and reject commands when no waiting edit carries the id.
pub fn not_found_message(id: &str) -> (r: String)
    ensures
        r@ == not_found_text(id@),
{
    let mut s = string_of("Pending edit with ID '");
    push_str(&mut s, id);
    push_str(&mut s, "' not found");
    proof {
        assert(s@ =~= not_found_text(id@));
    }
    s
}

/// Settles an applied edit once Last.fm has answered: on success nothing changes; on failure
/// the edit goes back to the end of the waiting list and the error is reported.
pub fn settle_apply(edits: &mut Vec<PendingEdit>, edit: PendingEdit, outcome: Result<(), String>) -> (r: Result<
    (),
    String,
>)
    ensures
        match outcome {
            Ok(()) => r is Ok && final(edits)@ == old(edits)@,
            Err(e) => r matches Err(m) && m@ == "Failed to apply edit to Last.fm: "@ + e@ && final(edits)@ == old(
                edits,
            )@.push(edit),
        },
{
    match outcome {
        Ok(()) => Ok(()),
        Err(e) => {
            edits.push(edit);
            let mut m = string_of("Failed to apply edit to Last.fm: ");
            push_str(&mut m, e.as_str());
            Err(m)
        },
    }
}

} // verus!
