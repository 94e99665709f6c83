use vstd::prelude::*;
use crate::text::{
    all_ascii, ascii_lower, decimal, lowercase, push_decimal, push_str, repeated, repeat_char, same_text, string_of,
    to_lowercase, trim, trimmed,
};
use crate::track::copy_opt_string;

verus! {

/// One find-and-replace on a field: a regular expression, its replacement and optional flags.
#[derive(Debug, Clone, PartialEq)]
pub struct SdRule {
    pub find: String,
    pub replace: String,
    pub flags: Option<String>,
}

/// A rewrite rule: an optional name, a find-and-replace per field, and whether applying it needs
/// the user's confirmation.
#[derive(Debug, Clone, PartialEq)]
pub struct RewriteRule {
    pub name: Option<String>,
    pub track_name: Option<SdRule>,
    pub artist_name: Option<SdRule>,
    pub album_name: Option<SdRule>,
    pub album_artist_name: Option<SdRule>,
    pub requires_confirmation: bool,
}

/// The model of a find-and-replace: its texts.
pub struct SdRuleView {
    pub find: Seq<char>,
    pub replace: Seq<char>,
    pub flags: Option<Seq<char>>,
}

/// The model of a rewrite rule: its texts.
pub struct RewriteRuleView {
    pub name: Option<Seq<char>>,
    pub track_name: Option<SdRuleView>,
    pub artist_name: Option<SdRuleView>,
    pub album_name: Option<SdRuleView>,
    pub album_artist_name: Option<SdRuleView>,
    pub requires_confirmation: bool,
}

/// An optional string by its text.
pub open spec fn opt_view(s: Option<String>) -> Option<Seq<char>> {
    match s {
        Some(v) => Some(v@),
        None => None,
    }
}

impl View for SdRule {
    type V = SdRuleView;

    open spec fn view(&self) -> SdRuleView {
        SdRuleView { find: self.find@, replace: self.replace@, flags: opt_view(self.flags) }
    }
}

/// An optional find-and-replace by its model.
pub open spec fn opt_sd_view(r: Option<SdRule>) -> Option<SdRuleView> {
    match r {
        Some(v) => Some(v@),
        None => None,
    }
}

impl View for RewriteRule {
    type V = RewriteRuleView;

    open spec fn view(&self) -> RewriteRuleView {
        RewriteRuleView {
            name: opt_view(self.name),
            track_name: opt_sd_view(self.track_name),
            artist_name: opt_sd_view(self.artist_name),
            album_name: opt_sd_view(self.album_name),
            album_artist_name: opt_sd_view(self.album_artist_name),
            requires_confirmation: self.requires_confirmation,
        }
    }
}

/// A rule with content rewrites at least one field.
pub open spec fn has_content(r: RewriteRuleView) -> bool {
    r.track_name is Some || r.artist_name is Some || r.album_name is Some || r.album_artist_name is Some
}

impl SdRule {
    /// A find-and-replace without flags.
    pub fn new(find: &str, replace: &str) -> (r: SdRule)
        ensures
            r@ == (SdRuleView { find: find@, replace: replace@, flags: None }),
    {
        SdRule { find: string_of(find), replace: string_of(replace), flags: None }
    }

    /// An exact copy.
    pub fn duplicate(&self) -> (r: SdRule)
        ensures
            r == *self,
    {
        SdRule { find: self.find.clone(), replace: self.replace.clone(), flags: copy_opt_string(&self.flags) }
    }
}

/// An exact copy of an optional find-and-replace.
pub fn copy_opt_sd(r: &Option<SdRule>) -> (c: Option<SdRule>)
    ensures
        c == *r,
{
    match r {
        Some(v) => Some(v.duplicate()),
        None => None,
    }
}

impl RewriteRule {
    /// A rule that rewrites nothing, has no name and needs no confirmation.
    pub fn new() -> (r: RewriteRule)
        ensures
            r@ == (RewriteRuleView {
                name: None,
                track_name: None,
                artist_name: None,
                album_name: None,
                album_artist_name: None,
                requires_confirmation: false,
            }),
    {
        RewriteRule {
            name: None,
            track_name: None,
            artist_name: None,
            album_name: None,
            album_artist_name: None,
            requires_confirmation: false,
        }
    }

    /// The rule with its track-name rewrite set.
    pub fn with_track_name(self, r: SdRule) -> (out: RewriteRule)
        ensures
            out@ == (RewriteRuleView { track_name: Some(r@), ..self@ }),
    {
        RewriteRule { track_name: Some(r), ..self }
    }

    /// The rule with its artist-name rewrite set.
    pub fn with_artist_name(self, r: SdRule) -> (out: RewriteRule)
        ensures
            out@ == (RewriteRuleView { artist_name: Some(r@), ..self@ }),
    {
        RewriteRule { artist_name: Some(r), ..self }
    }

    /// The rule with its album-name rewrite set.
    pub fn with_album_name(self, r: SdRule) -> (out: RewriteRule)
        ensures
            out@ == (RewriteRuleView { album_name: Some(r@), ..self@ }),
    {
        RewriteRule { album_name: Some(r), ..self }
    }

    /// The rule with its album-artist rewrite set.
    pub fn with_album_artist_name(self, r: SdRule) -> (out: RewriteRule)
        ensures
            out@ == (RewriteRuleView { album_artist_name: Some(r@), ..self@ }),
    {
        RewriteRule { album_artist_name: Some(r), ..self }
    }

    /// Whether the rule rewrites at least one field.
    pub fn has_content(&self) -> (b: bool)
        ensures
            b == has_content(self@),
    {
        self.track_name.is_some() || self.artist_name.is_some() || self.album_name.is_some()
            || self.album_artist_name.is_some()
    }

    /// An exact copy.
    pub fn duplicate(&self) -> (r: RewriteRule)
        ensures
            r == *self,
    {
        RewriteRule {
            name: copy_opt_string(&self.name),
            track_name: copy_opt_sd(&self.track_name),
            artist_name: copy_opt_sd(&self.artist_name),
            album_name: copy_opt_sd(&self.album_name),
            album_artist_name: copy_opt_sd(&self.album_artist_name),
            requires_confirmation: self.requires_confirmation,
        }
    }
}

/// Why a rule could not be saved.
#[derive(Debug, Clone, PartialEq)]
pub enum SaveRuleError {
    EmptyRule,
}

/// Adds a rule to the saved rules; a rule that rewrites nothing is refused and nothing changes.
pub fn save_current_rule(rules: &mut Vec<RewriteRule>, rule: RewriteRule) -> (r: Result<(), SaveRuleError>)
    ensures
        has_content(rule@) ==> r is Ok && final(rules)@ == old(rules)@.push(rule),
        !has_content(rule@) ==> r is Err && final(rules)@ == old(rules)@,
{
    if !rule.has_content() {
        return Err(SaveRuleError::EmptyRule);
    }
    rules.push(rule);
    Ok(())
}

/// Removes the rule at `index`, when there is one; returns whether a rule was removed.
pub fn remove_rule_at_index(rules: &mut Vec<RewriteRule>, index: usize) -> (removed: bool)
    ensures
        removed == (index < old(rules)@.len()),
        removed ==> final(rules)@ == old(rules)@.remove(index as int),
        !removed ==> final(rules)@ == old(rules)@,
{
    if index < rules.len() {
        rules.remove(index);
        true
    } else {
        false
    }
}

/// Removes every saved rule.
pub fn clear_all_rules(rules: &mut Vec<RewriteRule>)
    ensures
        final(rules)@.len() == 0,
{
    rules.clear();
}

/// Sets whether the rule at `index` needs confirmation, when there is one; returns whether a
/// rule was changed.
pub fn update_rule_confirmation(rules: &mut Vec<RewriteRule>, index: usize, requires_confirmation: bool) -> (changed: bool)
    ensures
        changed == (index < old(rules)@.len()),
        changed ==> final(rules)@ == old(rules)@.update(
            index as int,
            RewriteRule { requires_confirmation, ..old(rules)@[index as int] },
        ),
        !changed ==> final(rules)@ == old(rules)@,
{
    if index < rules.len() {
        let old_rule = rules.remove(index);
        let new_rule = RewriteRule { requires_confirmation, ..old_rule };
        rules.insert(index, new_rule);
        proof {
            assert(rules@ =~= old(rules)@.update(
                index as int,
                RewriteRule { requires_confirmation, ..old(rules)@[index as int] },
            ));
        }
        true
    } else {
        false
    }
}

/// A pattern of a bundled default rule.
#[derive(Debug, Clone, PartialEq)]
pub struct DefaultRulePattern {
    pub find: String,
    pub replace: String,
}

/// A bundled default rule, with its description and examples.
#[derive(Debug, Clone, PartialEq)]
pub struct DefaultRule {
    pub name: String,
    pub description: String,
    pub examples: Vec<String>,
    pub track_name: Option<DefaultRulePattern>,
    pub artist_name: Option<DefaultRulePattern>,
    pub album_name: Option<DefaultRulePattern>,
    pub album_artist_name: Option<DefaultRulePattern>,
    pub requires_confirmation: bool,
}

/// A set of bundled default rules.
#[derive(Debug, Clone, PartialEq)]
pub struct DefaultRuleSet {
    pub title: String,
    pub description: String,
    pub version: String,
    pub rules: Vec<DefaultRule>,
}

/// A default pattern as a case-insensitive find-and-replace.
pub open spec fn pattern_rule(p: Option<DefaultRulePattern>) -> Option<SdRuleView> {
    match p {
        Some(p) => Some(SdRuleView { find: p.find@, replace: p.replace@, flags: Some("i"@) }),
        None => None,
    }
}

/// The rewrite rule a default rule becomes: named after it, each pattern case-insensitive.
pub open spec fn default_rule_view(d: DefaultRule) -> RewriteRuleView {
    RewriteRuleView {
        name: Some(d.name@),
        track_name: pattern_rule(d.track_name),
        artist_name: pattern_rule(d.artist_name),
        album_name: pattern_rule(d.album_name),
        album_artist_name: pattern_rule(d.album_artist_name),
        requires_confirmation: d.requires_confirmation,
    }
}

/// A default pattern as a case-insensitive find-and-replace.
fn pattern_to_sd(p: Option<DefaultRulePattern>) -> (r: Option<SdRule>)
    ensures
        opt_sd_view(r) == pattern_rule(p),
{
    match p {
        Some(p) => Some(SdRule { find: p.find, replace: p.replace, flags: Some(string_of("i")) }),
        None => None,
    }
}

impl RewriteRule {
    /// The rewrite rule a default rule becomes.
    pub fn from_default_rule(d: DefaultRule) -> (r: RewriteRule)
        ensures
            r@ == default_rule_view(d),
    {
        let ghost dd = d;
        RewriteRule {
            name: Some(d.name),
            track_name: pattern_to_sd(d.track_name),
            artist_name: pattern_to_sd(d.artist_name),
            album_name: pattern_to_sd(d.album_name),
            album_artist_name: pattern_to_sd(d.album_artist_name),
            requires_confirmation: d.requires_confirmation,
        }
    }
}

/// Adds the chosen default rules, converted, after the saved ones; returns how many were added.
pub fn import_default_rules(rules: &mut Vec<RewriteRule>, rules_to_import: Vec<DefaultRule>) -> (count: usize)
    ensures
        count == rules_to_import@.len(),
        final(rules)@.len() == old(rules)@.len() + count,
        forall|i: int| 0 <= i < old(rules)@.len() ==> final(rules)@[i] == old(rules)@[i],
        forall|i: int|
            0 <= i < count ==> (#[trigger] final(rules)@[old(rules)@.len() + i])@ == default_rule_view(
                rules_to_import@[i],
            ),
{
    let ghost imported = rules_to_import@;
    let n = rules_to_import.len();
    let mut rest = rules_to_import;
    let mut converted: Vec<RewriteRule> = Vec::new();
    let mut k: usize = 0;
    while k < n
        invariant
            n == imported.len(),
            k <= n,
            rest@ == imported.subrange(k as int, n as int),
            converted@.len() == k,
            forall|i: int| 0 <= i < k ==> (#[trigger] converted@[i])@ == default_rule_view(imported[i]),
        decreases n - k,
    {
        let d = rest.remove(0);
        converted.push(RewriteRule::from_default_rule(d));
        proof {
            assert(rest@ =~= imported.subrange(k + 1, n as int));
        }
        k = k + 1;
    }
    let ghost before = rules@;
    let ghost conv = converted@;
    rules.append(&mut converted);
    proof {
        assert forall|i: int| 0 <= i < n implies (#[trigger] rules@[before.len() + i])@ == default_rule_view(imported[i]) by {
            assert(rules@[before.len() + i] == conv[i]);
        }
    }
    n
}

/// `find → replace`
pub open spec fn arrow(r: SdRuleView) -> Seq<char> {
    r.find + " → "@ + r.replace
}

/// The one-line description of a rule: its name and its first rewrite.
pub open spec fn rule_description(r: RewriteRuleView) -> Seq<char> {
    let name = match r.name {
        Some(n) => n,
        None => "Unnamed Rule"@,
    };
    let detail = if r.track_name is Some {
        "Track name: "@ + arrow(r.track_name->0)
    } else if r.artist_name is Some {
        "Artist name: "@ + arrow(r.artist_name->0)
    } else if r.album_name is Some {
        "Album name: "@ + arrow(r.album_name->0)
    } else if r.album_artist_name is Some {
        "Album artist: "@ + arrow(r.album_artist_name->0)
    } else {
        "No active rules"@
    };
    name + ": "@ + detail
}

/// Appends `find → replace`.
fn push_arrow(s: &mut String, r: &SdRule)
    ensures
        final(s)@ == old(s)@ + arrow(r@),
{
    push_str(s, r.find.as_str());
    push_str(s, " → ");
    push_str(s, r.replace.as_str());
    proof {
        assert(final(s)@ =~= old(s)@ + arrow(r@));
    }
}

/// The one-line description of a rule: its name and its first rewrite.
pub fn get_rule_description(rule: &RewriteRule) -> (r: String)
    ensures
        r@ == rule_description(rule@),
{
    let mut s = match &rule.name {
        Some(n) => n.clone(),
        None => string_of("Unnamed Rule"),
    };
    let ghost name_part = s@;
    push_str(&mut s, ": ");
    if let Some(r) = &rule.track_name {
        push_str(&mut s, "Track name: ");
        push_arrow(&mut s, r);
    } else if let Some(r) = &rule.artist_name {
        push_str(&mut s, "Artist name: ");
        push_arrow(&mut s, r);
    } else if let Some(r) = &rule.album_name {
        push_str(&mut s, "Album name: ");
        push_arrow(&mut s, r);
    } else if let Some(r) = &rule.album_artist_name {
        push_str(&mut s, "Album artist: ");
        push_arrow(&mut s, r);
    } else {
        push_str(&mut s, "No active rules");
    }
    proof {
        assert(s@ =~= rule_description(rule@));
    }
    s
}

/// Why a rule given on the command line was refused.
#[derive(Debug, Clone, PartialEq)]
pub enum AddRuleError {
    NoFieldRule,
    IncompleteTrackRule,
    IncompleteArtistRule,
    IncompleteAlbumRule,
    IncompleteAlbumArtistRule,
}

/// One field's find and replacement, both given or both left out.
pub open spec fn pair_given(find: Option<&str>, replace: Option<&str>) -> bool {
    find is Some && replace is Some
}

/// Exactly one of find and replacement is given.
pub open spec fn pair_half(find: Option<&str>, replace: Option<&str>) -> bool {
    find is Some != replace is Some
}

/// The find-and-replace for one field, when both parts are given.
pub open spec fn cli_field(find: Option<&str>, replace: Option<&str>, flags: Option<&str>) -> Option<SdRuleView> {
    if pair_given(find, replace) {
        Some(
            SdRuleView {
                find: find->0@,
                replace: replace->0@,
                flags: match flags {
                    Some(f) => Some(f@),
                    None => None,
                },
            },
        )
    } else {
        None
    }
}

/// An optional text as an owned string.
fn opt_owned(s: Option<&str>) -> (r: Option<String>)
    ensures
        opt_view(r) == match s {
            Some(v) => Some(v@),
            None => None::<Seq<char>>,
        },
{
    match s {
        Some(v) => Some(string_of(v)),
        None => None,
    }
}

/// The find-and-replace for one field, when both parts are given.
fn cli_sd_rule(find: Option<&str>, replace: Option<&str>, flags: Option<&str>) -> (r: Option<SdRule>)
    ensures
        opt_sd_view(r) == cli_field(find, replace, flags),
{
    match (find, replace) {
        (Some(f), Some(r)) => Some(SdRule { find: string_of(f), replace: string_of(r), flags: opt_owned(flags) }),
        _ => None,
    }
}

/// Builds a rule from command-line parts. At least one field needs both its find and its
/// replacement, and no field may have only one of them; the checks come in the order track,
/// artist, album, album artist. The flags apply to every field.
pub fn build_rule_from_args(
    name: Option<&str>,
    track_find: Option<&str>,
    track_replace: Option<&str>,
    artist_find: Option<&str>,
    artist_replace: Option<&str>,
    album_find: Option<&str>,
    album_replace: Option<&str>,
    album_artist_find: Option<&str>,
    album_artist_replace: Option<&str>,
    flags: Option<&str>,
    require_confirmation: bool,
) -> (r: Result<RewriteRule, AddRuleError>)
    ensures
        !(pair_given(track_find, track_replace) || pair_given(artist_find, artist_replace) || pair_given(
            album_find,
            album_replace,
        ) || pair_given(album_artist_find, album_artist_replace)) ==> r == Err::<RewriteRule, AddRuleError>(
            AddRuleError::NoFieldRule,
        ),
        (pair_given(track_find, track_replace) || pair_given(artist_find, artist_replace) || pair_given(
            album_find,
            album_replace,
        ) || pair_given(album_artist_find, album_artist_replace)) ==> {
            if pair_half(track_find, track_replace) {
                r == Err::<RewriteRule, AddRuleError>(AddRuleError::IncompleteTrackRule)
            } else if pair_half(artist_find, artist_replace) {
                r == Err::<RewriteRule, AddRuleError>(AddRuleError::IncompleteArtistRule)
            } else if pair_half(album_find, album_replace) {
                r == Err::<RewriteRule, AddRuleError>(AddRuleError::IncompleteAlbumRule)
            } else if pair_half(album_artist_find, album_artist_replace) {
                r == Err::<RewriteRule, AddRuleError>(AddRuleError::IncompleteAlbumArtistRule)
            } else {
                r matches Ok(rule) && rule@ == (RewriteRuleView {
                    name: match name {
                        Some(n) => Some(n@),
                        None => None,
                    },
                    track_name: cli_field(track_find, track_replace, flags),
                    artist_name: cli_field(artist_find, artist_replace, flags),
                    album_name: cli_field(album_find, album_replace, flags),
                    album_artist_name: cli_field(album_artist_find, album_artist_replace, flags),
                    requires_confirmation: require_confirmation,
                })
            }
        },
{
    let has_track = track_find.is_some() && track_replace.is_some();
    let has_artist = artist_find.is_some() && artist_replace.is_some();
    let has_album = album_find.is_some() && album_replace.is_some();
    let has_album_artist = album_artist_find.is_some() && album_artist_replace.is_some();
    if !has_track && !has_artist && !has_album && !has_album_artist {
        return Err(AddRuleError::NoFieldRule);
    }
    if track_find.is_some() != track_replace.is_some() {
        return Err(AddRuleError::IncompleteTrackRule);
    }
    if artist_find.is_some() != artist_replace.is_some() {
        return Err(AddRuleError::IncompleteArtistRule);
    }
    if album_find.is_some() != album_replace.is_some() {
        return Err(AddRuleError::IncompleteAlbumRule);
    }
    if album_artist_find.is_some() != album_artist_replace.is_some() {
        return Err(AddRuleError::IncompleteAlbumArtistRule);
    }
    Ok(
        RewriteRule {
            name: opt_owned(name),
            track_name: cli_sd_rule(track_find, track_replace, flags),
            artist_name: cli_sd_rule(artist_find, artist_replace, flags),
            album_name: cli_sd_rule(album_find, album_replace, flags),
            album_artist_name: cli_sd_rule(album_artist_find, album_artist_replace, flags),
            requires_confirmation: require_confirmation,
        },
    )
}

/// The answer to a yes/no prompt agrees: trimmed and lowercased it reads `y` or `yes`.
pub open spec fn confirms(input: Seq<char>) -> bool {
    lowercase(trimmed(input)) == "y"@ || lowercase(trimmed(input)) == "yes"@
}

/// Whether an answer to a yes/no prompt agrees.
pub fn answer_confirms(input: &str) -> (r: bool)
    ensures
        r == confirms(input@),
        all_ascii(trimmed(input@)) ==> (r <==> (trimmed(input@).map_values(|c: char| ascii_lower(c)) == "y"@
            || trimmed(input@).map_values(|c: char| ascii_lower(c)) == "yes"@)),
{
    let answer = to_lowercase(trim(input));
    same_text(answer.as_str(), "y") || same_text(answer.as_str(), "yes")
}

/// The rule keeps its place when removing by `name`: its name differs or it has none.
pub open spec fn keeps_name(name: Seq<char>) -> spec_fn(RewriteRule) -> bool {
    |r: RewriteRule| opt_view(r.name) != Some(name)
}

/// What a removal request did.
#[derive(Debug, Clone, PartialEq)]
pub enum RemovalOutcome {
    NoRules,
    Cancelled,
    RemovedAll { count: usize },
    RemovedAt { index: usize, name: Option<String> },
    InvalidIndex { index: usize, len: usize },
    RemovedByName { count: usize },
    NameNotFound,
    NoMethod,
}

/// Removes the rules that carry `name`; returns how many went.
fn remove_named(rules: &mut Vec<RewriteRule>, name: &str) -> (count: usize)
    ensures
        final(rules)@ == old(rules)@.filter(keeps_name(name@)),
        count == old(rules)@.len() - final(rules)@.len(),
{
    let ghost orig = rules@;
    let ghost pred = keeps_name(name@);
    let n = rules.len();
    let mut kept: Vec<RewriteRule> = Vec::new();
    let mut rest = take_rules(rules);
    let mut i: usize = 0;
    proof {
        assert(orig.subrange(0, 0).filter(pred) =~= Seq::<RewriteRule>::empty()) by {
            reveal_with_fuel(Seq::filter, 1);
        }
    }
    while i < n
        invariant
            n == orig.len(),
            i <= n,
            rest@ == orig.subrange(i as int, n as int),
            kept@ == orig.subrange(0, i as int).filter(pred),
            kept@.len() <= i,
            pred == keeps_name(name@),
        decreases n - i,
    {
        let r = rest.remove(0);
        let keep = match &r.name {
            Some(nm) => !same_text(nm.as_str(), name),
            None => true,
        };
        proof {
            assert(keep == pred(r));
            assert(orig.subrange(0, i + 1).drop_last() =~= orig.subrange(0, i as int));
            assert(orig.subrange(0, i + 1).last() == r);
            reveal_with_fuel(Seq::filter, 1);
        }
        if keep {
            kept.push(r);
        }
        proof {
            assert(rest@ =~= orig.subrange(i + 1, n as int));
        }
        i = i + 1;
    }
    proof {
        assert(orig.subrange(0, n as int) =~= orig);
    }
    *rules = kept;
    n - rules.len()
}

/// Carries out a removal request on the saved rules. With `all`, every rule goes when
/// `confirmed`; else with an index (counted from 1) that rule goes; else with a name every rule
/// of that name goes. An empty list is left alone.
pub fn apply_rule_removal(
    rules: &mut Vec<RewriteRule>,
    index: Option<usize>,
    name: Option<&str>,
    all: bool,
    confirmed: bool,
) -> (outcome: RemovalOutcome)
    ensures
        old(rules)@.len() == 0 ==> outcome is NoRules && final(rules)@ == old(rules)@,
        old(rules)@.len() > 0 && all ==> if confirmed {
            outcome == (RemovalOutcome::RemovedAll { count: old(rules)@.len() as usize }) && final(rules)@.len() == 0
        } else {
            outcome is Cancelled && final(rules)@ == old(rules)@
        },
        old(rules)@.len() > 0 && !all && index is Some ==> {
            let i = index->0;
            if 1 <= i <= old(rules)@.len() {
                outcome == (RemovalOutcome::RemovedAt { index: i, name: old(rules)@[i - 1].name })
                    && final(rules)@ == old(rules)@.remove(i - 1)
            } else {
                outcome == (RemovalOutcome::InvalidIndex { index: i, len: old(rules)@.len() as usize })
                    && final(rules)@ == old(rules)@
            }
        },
        old(rules)@.len() > 0 && !all && index is None && name is Some ==> {
            let kept = old(rules)@.filter(keeps_name(name->0@));
            if kept.len() == old(rules)@.len() {
                outcome is NameNotFound && final(rules)@ == old(rules)@
            } else {
                outcome == (RemovalOutcome::RemovedByName { count: (old(rules)@.len() - kept.len()) as usize })
                    && final(rules)@ == kept
            }
        },
        old(rules)@.len() > 0 && !all && index is None && name is None ==> outcome is NoMethod && final(rules)@
            == old(rules)@,
{
    if rules.len() == 0 {
        return RemovalOutcome::NoRules;
    }
    if all {
        if !confirmed {
            return RemovalOutcome::Cancelled;
        }
        let count = rules.len();
        rules.clear();
        return RemovalOutcome::RemovedAll { count };
    }
    if let Some(i) = index {
        if i == 0 || i > rules.len() {
            return RemovalOutcome::InvalidIndex { index: i, len: rules.len() };
        }
        let removed = rules.remove(i - 1);
        return RemovalOutcome::RemovedAt { index: i, name: removed.name };
    }
    if let Some(n) = name {
        let ghost before = rules@;
        let count = remove_named(rules, n);
        if count == 0 {
            proof {
                assert(rules@.len() == before.len());
                filter_same_len_is_identity(before, keeps_name(n@));
            }
            return RemovalOutcome::NameNotFound;
        }
        return RemovalOutcome::RemovedByName { count };
    }
    RemovalOutcome::NoMethod
}

/// Moves the rules out, leaving an empty list.
fn take_rules(rules: &mut Vec<RewriteRule>) -> (r: Vec<RewriteRule>)
    ensures
        r@ == old(rules)@,
        final(rules)@.len() == 0,
{
    let mut e: Vec<RewriteRule> = Vec::new();
    std::mem::swap(rules, &mut e);
    e
}

/// A filter that keeps every element gives back the sequence itself.
pub proof fn filter_same_len_is_identity(s: Seq<RewriteRule>, pred: spec_fn(RewriteRule) -> bool)
    requires
        s.filter(pred).len() == s.len(),
    ensures
        s.filter(pred) == s,
    decreases s.len(),
{
    reveal_with_fuel(Seq::filter, 1);
    if s.len() > 0 {
        lemma_filter_len_le(s.drop_last(), pred);
        if !pred(s.last()) {
            assert(false);
        }
        filter_same_len_is_identity(s.drop_last(), pred);
        assert(s.drop_last().push(s.last()) =~= s);
    }
}

/// A filter never lengthens a sequence.
pub proof fn lemma_filter_len_le(s: Seq<RewriteRule>, pred: spec_fn(RewriteRule) -> bool)
    ensures
        s.filter(pred).len() <= s.len(),
    decreases s.len(),
{
    reveal_with_fuel(Seq::filter, 1);
    if s.len() > 0 {
        lemma_filter_len_le(s.drop_last(), pred);
    }
}

/// `    Label: 'find' → 'replace'`
pub open spec fn field_rule_line(label: Seq<char>, r: SdRuleView) -> Seq<char> {
    "    "@ + label + ": '"@ + r.find + "' → '"@ + r.replace + "'"@
}

/// The line of one field's rewrite, if the rule has one.
pub open spec fn opt_field_line(label: Seq<char>, r: Option<SdRuleView>) -> Seq<Seq<char>> {
    match r {
        Some(x) => seq![field_rule_line(label, x)],
        None => Seq::empty(),
    }
}

/// How the rule at position `i` (counted from 0) is listed: its number and name, then one line
/// per rewritten field, then a blank line.
pub open spec fn rule_block(i: nat, r: RewriteRuleView) -> Seq<Seq<char>> {
    seq![
        "  Rule "@ + decimal(i + 1) + ": "@ + match r.name {
            Some(n) => n,
            None => "Rule #"@ + decimal(i + 1),
        },
    ] + opt_field_line("Track"@, r.track_name) + opt_field_line("Artist"@, r.artist_name) + opt_field_line(
        "Album"@,
        r.album_name,
    ) + opt_field_line("Album Artist"@, r.album_artist_name) + seq![Seq::<char>::empty()]
}

/// The blocks of all rules, in order.
pub open spec fn rule_blocks(rs: Seq<RewriteRule>) -> Seq<Seq<char>>
    decreases rs.len(),
{
    if rs.len() == 0 {
        Seq::empty()
    } else {
        rule_blocks(rs.drop_last()) + rule_block((rs.len() - 1) as nat, rs.last()@)
    }
}

/// What the show-rules command prints.
pub open spec fn active_rules_text(rs: Seq<RewriteRule>) -> Seq<Seq<char>> {
    seq!["📝 Active Rewrite Rules"@, repeated('=', 21)] + if rs.len() == 0 {
        seq!["No rewrite rules configured"@]
    } else {
        seq!["Found "@ + decimal(rs.len()) + " rewrite rules:"@] + rule_blocks(rs)
    }
}

/// Strings by their text.
pub open spec fn rule_lines_view(v: Seq<String>) -> Seq<Seq<char>> {
    v.map_values(|s: String| s@)
}

/// Appends a line.
fn add_line(lines: &mut Vec<String>, s: String)
    ensures
        rule_lines_view(final(lines)@) == rule_lines_view(old(lines)@).push(s@),
{
    lines.push(s);
    proof {
        assert(rule_lines_view(lines@) =~= rule_lines_view(old(lines)@).push(s@));
    }
}

/// Appends the line of one field's rewrite, if there is one.
fn add_field_line(lines: &mut Vec<String>, label: &str, r: &Option<SdRule>)
    ensures
        rule_lines_view(final(lines)@) == rule_lines_view(old(lines)@) + opt_field_line(label@, opt_sd_view(*r)),
{
    match r {
        Some(x) => {
            let mut s = string_of("    ");
            push_str(&mut s, label);
            push_str(&mut s, ": '");
            push_str(&mut s, x.find.as_str());
            push_str(&mut s, "' → '");
            push_str(&mut s, x.replace.as_str());
            push_str(&mut s, "'");
            proof {
                assert(s@ =~= field_rule_line(label@, x@));
            }
            add_line(lines, s);
            proof {
                assert(rule_lines_view(lines@) =~= rule_lines_view(old(lines)@) + opt_field_line(label@, opt_sd_view(*r)));
            }
        },
        None => {
            proof {
                assert(rule_lines_view(lines@) =~= rule_lines_view(old(lines)@) + opt_field_line(label@, opt_sd_view(*r)));
            }
        },
    }
}

/// The heading line of the rule at position `i`.
fn rule_heading(i: usize, name: &Option<String>) -> (r: String)
    requires
        i < usize::MAX,
    ensures
        r@ == "  Rule "@ + decimal(i as nat + 1) + ": "@ + match opt_view(*name) {
            Some(n) => n,
            None => "Rule #"@ + decimal(i as nat + 1),
        },
{
    let mut head = string_of("  Rule ");
    push_decimal(&mut head, (i + 1) as u64);
    push_str(&mut head, ": ");
    match name {
        Some(n) => push_str(&mut head, n.as_str()),
        None => {
            push_str(&mut head, "Rule #");
            push_decimal(&mut head, (i + 1) as u64);
        },
    }
    proof {
        assert(head@ =~= "  Rule "@ + decimal(i as nat + 1) + ": "@ + match opt_view(*name) {
            Some(n) => n,
            None => "Rule #"@ + decimal(i as nat + 1),
        });
    }
    head
}

/// Appends the block of the rule at position `i`.
fn add_rule_block(lines: &mut Vec<String>, i: usize, r: &RewriteRule)
    requires
        i < usize::MAX,
    ensures
        rule_lines_view(final(lines)@) == rule_lines_view(old(lines)@) + rule_block(i as nat, r@),
{
    let ghost before = rule_lines_view(lines@);
    let head = rule_heading(i, &r.name);
    let ghost h = head@;
    add_line(lines, head);
    let ghost s1 = rule_lines_view(lines@);
    add_field_line(lines, "Track", &r.track_name);
    let ghost s2 = rule_lines_view(lines@);
    add_field_line(lines, "Artist", &r.artist_name);
    let ghost s3 = rule_lines_view(lines@);
    add_field_line(lines, "Album", &r.album_name);
    let ghost s4 = rule_lines_view(lines@);
    add_field_line(lines, "Album Artist", &r.album_artist_name);
    let ghost s5 = rule_lines_view(lines@);
    add_line(lines, String::new());
    proof {
        let a = opt_field_line("Track"@, r@.track_name);
        let b = opt_field_line("Artist"@, r@.artist_name);
        let c = opt_field_line("Album"@, r@.album_name);
        let d = opt_field_line("Album Artist"@, r@.album_artist_name);
        let e = seq![Seq::<char>::empty()];
        assert(s1 == before + seq![h]);
        assert(s2 == before + seq![h] + a);
        assert(s3 =~= before + (seq![h] + a + b));
        assert(s4 =~= before + (seq![h] + a + b + c));
        assert(s5 =~= before + (seq![h] + a + b + c + d));
        assert(rule_lines_view(lines@) =~= before + (seq![h] + a + b + c + d + e));
    }
}

/// The lines the show-rules command prints for the saved rules.
pub fn active_rules_lines(rules: &Vec<RewriteRule>) -> (lines: Vec<String>)
    ensures
        rule_lines_view(lines@) == active_rules_text(rules@),
{
    let mut lines: Vec<String> = Vec::new();
    add_line(&mut lines, string_of("📝 Active Rewrite Rules"));
    add_line(&mut lines, repeat_char('=', 21));
    if rules.len() == 0 {
        add_line(&mut lines, string_of("No rewrite rules configured"));
        proof {
            assert(rule_lines_view(lines@) =~= active_rules_text(rules@));
        }
        return lines;
    }
    let mut found = string_of("Found ");
    push_decimal(&mut found, rules.len() as u64);
    push_str(&mut found, " rewrite rules:");
    add_line(&mut lines, found);
    let ghost start = rule_lines_view(lines@);
    proof {
        assert(rules@.subrange(0, 0) =~= Seq::<RewriteRule>::empty());
        assert(rule_lines_view(lines@) =~= start + rule_blocks(rules@.subrange(0, 0)));
    }
    let mut i: usize = 0;
    while i < rules.len()
        invariant
            i <= rules@.len(),
            rule_lines_view(lines@) == start + rule_blocks(rules@.subrange(0, i as int)),
        decreases rules@.len() - i,
    {
        let ghost before = rule_lines_view(lines@);
        add_rule_block(&mut lines, i, &rules[i]);
        proof {
            let sub = rules@.subrange(0, i + 1);
            assert(sub.drop_last() =~= rules@.subrange(0, i as int));
            assert(sub.last() == rules@[i as int]);
            assert(rule_lines_view(lines@) =~= start + rule_blocks(sub));
        }
        i = i + 1;
    }
    proof {
        assert(rules@.subrange(0, i as int) =~= rules@);
    }
    lines
}

/// What the add-rule command prints when it refuses the parts it was given.
pub open spec fn add_rule_error_text(e: AddRuleError) -> Seq<Seq<char>> {
    match e {
        AddRuleError::NoFieldRule => seq![
            "❌ Error: At least one field rule must be specified"@,
            "   Use --track-find/--track-replace, --artist-find/--artist-replace,"@,
            "   --album-find/--album-replace, or --album-artist-find/--album-artist-replace"@,
        ],
        AddRuleError::IncompleteTrackRule => seq![
            "❌ Error: Track rule requires both --track-find and --track-replace"@,
        ],
        AddRuleError::IncompleteArtistRule => seq![
            "❌ Error: Artist rule requires both --artist-find and --artist-replace"@,
        ],
        AddRuleError::IncompleteAlbumRule => seq![
            "❌ Error: Album rule requires both --album-find and --album-replace"@,
        ],
        AddRuleError::IncompleteAlbumArtistRule => seq![
            "❌ Error: Album artist rule requires both --album-artist-find and --album-artist-replace"@,
        ],
    }
}

/// The lines the add-rule command prints when it refuses the parts it was given.
pub fn add_rule_error_lines(e: &AddRuleError) -> (lines: Vec<String>)
    ensures
        rule_lines_view(lines@) == add_rule_error_text(*e),
{
    let mut lines: Vec<String> = Vec::new();
    match e {
        AddRuleError::NoFieldRule => {
            add_line(&mut lines, string_of("❌ Error: At least one field rule must be specified"));
            add_line(&mut lines, string_of("   Use --track-find/--track-replace, --artist-find/--artist-replace,"));
            add_line(
                &mut lines,
                string_of("   --album-find/--album-replace, or --album-artist-find/--album-artist-replace"),
            );
        },
        AddRuleError::IncompleteTrackRule => {
            add_line(&mut lines, string_of("❌ Error: Track rule requires both --track-find and --track-replace"));
        },
        AddRuleError::IncompleteArtistRule => {
            add_line(
                &mut lines,
                string_of("❌ Error: Artist rule requires both --artist-find and --artist-replace"),
            );
        },
        AddRuleError::IncompleteAlbumRule => {
            add_line(&mut lines, string_of("❌ Error: Album rule requires both --album-find and --album-replace"));
        },
        AddRuleError::IncompleteAlbumArtistRule => {
            add_line(
                &mut lines,
                string_of(
                    "❌ Error: Album artist rule requires both --album-artist-find and --album-artist-replace",
                ),
            );
        },
    }
    proof {
        assert(rule_lines_view(lines@) =~= add_rule_error_text(*e));
    }
    lines
}

/// `   Label: 'find' → 'replace'`, for a field the rule rewrites.
pub open spec fn added_field_line(label: Seq<char>, r: Option<SdRuleView>) -> Seq<Seq<char>> {
    match r {
        Some(x) => seq!["   "@ + label + ": '"@ + x.find + "' → '"@ + x.replace + "'"@],
        None => Seq::empty(),
    }
}

/// What the add-rule command prints once the rule is saved: its name, its rewrites, its flags
/// and whether it needs confirmation.
pub open spec fn added_rule_text(name: Option<Seq<char>>, r: RewriteRuleView, flags: Option<Seq<char>>) -> Seq<
    Seq<char>,
> {
    seq![
        "✅ Successfully added rewrite rule:"@,
        "   Name: "@ + match name {
            Some(n) => n,
            None => "(unnamed)"@,
        },
    ] + added_field_line("Track"@, r.track_name) + added_field_line("Artist"@, r.artist_name)
        + added_field_line("Album"@, r.album_name) + added_field_line("Album Artist"@, r.album_artist_name)
        + match flags {
        Some(f) => seq!["   Flags: "@ + f],
        None => Seq::<Seq<char>>::empty(),
    } + if r.requires_confirmation {
        seq!["   Requires confirmation: yes"@]
    } else {
        Seq::<Seq<char>>::empty()
    }
}

/// Appends the line of a field the added rule rewrites.
fn add_added_field_line(lines: &mut Vec<String>, label: &str, r: &Option<SdRule>)
    ensures
        rule_lines_view(final(lines)@) == rule_lines_view(old(lines)@) + added_field_line(label@, opt_sd_view(*r)),
{
    match r {
        Some(x) => {
            let mut s = string_of("   ");
            push_str(&mut s, label);
            push_str(&mut s, ": '");
            push_str(&mut s, x.find.as_str());
            push_str(&mut s, "' → '");
            push_str(&mut s, x.replace.as_str());
            push_str(&mut s, "'");
            add_line(lines, s);
            proof {
                assert(rule_lines_view(lines@) =~= rule_lines_view(old(lines)@) + added_field_line(
                    label@,
                    opt_sd_view(*r),
                ));
            }
        },
        None => {
            proof {
                assert(rule_lines_view(lines@) =~= rule_lines_view(old(lines)@) + added_field_line(
                    label@,
                    opt_sd_view(*r),
                ));
            }
        },
    }
}

/// The lines the add-rule command prints once the rule is saved.
pub fn added_rule_lines(name: Option<&str>, rule: &RewriteRule, flags: Option<&str>) -> (lines: Vec<String>)
    ensures
        rule_lines_view(lines@) == added_rule_text(
            match name {
                Some(n) => Some(n@),
                None => None,
            },
            rule@,
            match flags {
                Some(f) => Some(f@),
                None => None,
            },
        ),
{
    let mut lines: Vec<String> = Vec::new();
    add_line(&mut lines, string_of("✅ Successfully added rewrite rule:"));
    let mut n = string_of("   Name: ");
    match name {
        Some(x) => push_str(&mut n, x),
        None => push_str(&mut n, "(unnamed)"),
    }
    add_line(&mut lines, n);
    let ghost s0 = rule_lines_view(lines@);
    add_added_field_line(&mut lines, "Track", &rule.track_name);
    add_added_field_line(&mut lines, "Artist", &rule.artist_name);
    add_added_field_line(&mut lines, "Album", &rule.album_name);
    add_added_field_line(&mut lines, "Album Artist", &rule.album_artist_name);
    let ghost s1 = rule_lines_view(lines@);
    match flags {
        Some(f) => {
            let mut l = string_of("   Flags: ");
            push_str(&mut l, f);
            add_line(&mut lines, l);
        },
        None => {},
    }
    let ghost s2 = rule_lines_view(lines@);
    if rule.requires_confirmation {
        add_line(&mut lines, string_of("   Requires confirmation: yes"));
    }
    proof {
        let nm = match name {
            Some(n) => Some(n@),
            None => None,
        };
        let fl = match flags {
            Some(f) => Some(f@),
            None => None,
        };
        let r = rule@;
        let a = added_field_line("Track"@, r.track_name);
        let b = added_field_line("Artist"@, r.artist_name);
        let c = added_field_line("Album"@, r.album_name);
        let d = added_field_line("Album Artist"@, r.album_artist_name);
        let head = seq![
            "✅ Successfully added rewrite rule:"@,
            "   Name: "@ + match nm {
                Some(n) => n,
                None => "(unnamed)"@,
            },
        ];
        assert(s0 =~= head);
        assert(s1 =~= head + a + b + c + d);
        assert(rule_lines_view(lines@) =~= added_rule_text(nm, r, fl));
    }
    lines
}

/// The warning shown before every rule is removed.
pub open spec fn remove_all_warning_text(count: nat) -> Seq<char> {
    "⚠️ This will remove ALL "@ + decimal(count) + " rewrite rules."@
}

/// The warning shown before every rule is removed.
pub fn remove_all_warning(count: usize) -> (r: String)
    ensures
        r@ == remove_all_warning_text(count as nat),
{
    let mut s = string_of("⚠️ This will remove ALL ");
    push_decimal(&mut s, count as u64);
    push_str(&mut s, " rewrite rules.");
    proof {
        assert(s@ =~= remove_all_warning_text(count as nat));
    }
    s
}

/// What the remove-rule command prints for what it did; `name` is the name it was asked to
/// remove, if any.
pub open spec fn removal_text(o: RemovalOutcome, name: Seq<char>) -> Seq<Seq<char>> {
    match o {
        RemovalOutcome::NoRules => seq!["❌ No rewrite rules found to remove"@],
        RemovalOutcome::Cancelled => seq!["❌ Operation cancelled"@],
        RemovalOutcome::RemovedAll { .. } => seq!["✅ Removed all rewrite rules"@],
        RemovalOutcome::RemovedAt { index, name: removed } => seq![
            "✅ Removed rule #"@ + decimal(index as nat) + ": "@ + match removed {
                Some(n) => n@,
                None => "(unnamed)"@,
            },
        ],
        RemovalOutcome::InvalidIndex { index, len } => seq![
            "❌ Invalid rule index: "@ + decimal(index as nat),
            "   Valid range: 1-"@ + decimal(len as nat),
        ],
        RemovalOutcome::RemovedByName { count } => if count == 1 {
            seq!["✅ Removed rule: '"@ + name + "'"@]
        } else {
            seq!["✅ Removed "@ + decimal(count as nat) + " rules with name: '"@ + name + "'"@]
        },
        RemovalOutcome::NameNotFound => seq!["❌ No rule found with name: '"@ + name + "'"@],
        RemovalOutcome::NoMethod => seq![
            "❌ Error: Must specify --index, --name, or --all"@,
            "   Use 'show-rules' to see rule indices and names"@,
        ],
    }
}

/// The lines the remove-rule command prints for what it did.
pub fn removal_lines(outcome: &RemovalOutcome, name: &str) -> (lines: Vec<String>)
    ensures
        rule_lines_view(lines@) == removal_text(*outcome, name@),
{
    let mut lines: Vec<String> = Vec::new();
    match outcome {
        RemovalOutcome::NoRules => add_line(&mut lines, string_of("❌ No rewrite rules found to remove")),
        RemovalOutcome::Cancelled => add_line(&mut lines, string_of("❌ Operation cancelled")),
        RemovalOutcome::RemovedAll { .. } => add_line(&mut lines, string_of("✅ Removed all rewrite rules")),
        RemovalOutcome::RemovedAt { index, name: removed } => {
            let mut s = string_of("✅ Removed rule #");
            push_decimal(&mut s, *index as u64);
            push_str(&mut s, ": ");
            match removed {
                Some(n) => push_str(&mut s, n.as_str()),
                None => push_str(&mut s, "(unnamed)"),
            }
            add_line(&mut lines, s);
        },
        RemovalOutcome::InvalidIndex { index, len } => {
            let mut s = string_of("❌ Invalid rule index: ");
            push_decimal(&mut s, *index as u64);
            add_line(&mut lines, s);
            let mut t = string_of("   Valid range: 1-");
            push_decimal(&mut t, *len as u64);
            add_line(&mut lines, t);
        },
        RemovalOutcome::RemovedByName { count } => {
            if *count == 1 {
                let mut s = string_of("✅ Removed rule: '");
                push_str(&mut s, name);
                push_str(&mut s, "'");
                add_line(&mut lines, s);
            } else {
                let mut s = string_of("✅ Removed ");
                push_decimal(&mut s, *count as u64);
                push_str(&mut s, " rules with name: '");
                push_str(&mut s, name);
                push_str(&mut s, "'");
                add_line(&mut lines, s);
            }
        },
        RemovalOutcome::NameNotFound => {
            let mut s = string_of("❌ No rule found with name: '");
            push_str(&mut s, name);
            push_str(&mut s, "'");
            add_line(&mut lines, s);
        },
        RemovalOutcome::NoMethod => {
            add_line(&mut lines, string_of("❌ Error: Must specify --index, --name, or --all"));
            add_line(&mut lines, string_of("   Use 'show-rules' to see rule indices and names"));
        },
    }
    proof {
        assert(rule_lines_view(lines@) =~= removal_text(*outcome, name@));
    }
    lines
}

/// The rewrite of one field from a find and a replacement typed in the rule editor: none while
/// the find is empty.
pub open spec fn typed_field_rule(find: Seq<char>, replace: Seq<char>) -> Option<SdRuleView> {
    if find.len() > 0 {
        Some(SdRuleView { find, replace, flags: None })
    } else {
        None
    }
}

/// The rewrite of one field from the editor's texts.
fn typed_field(find: &str, replace: &str) -> (r: Option<SdRule>)
    ensures
        opt_sd_view(r) == typed_field_rule(find@, replace@),
{
    if find.is_empty() {
        None
    } else {
        Some(SdRule::new(find, replace))
    }
}

/// The rule the desktop rule editor holds: an unnamed rule without confirmation, with a rewrite
/// for each field whose find is not empty.
pub fn rule_from_fields(
    track_find: &str,
    track_replace: &str,
    artist_find: &str,
    artist_replace: &str,
    album_find: &str,
    album_replace: &str,
    album_artist_find: &str,
    album_artist_replace: &str,
) -> (r: RewriteRule)
    ensures
        r@ == (RewriteRuleView {
            name: None,
            track_name: typed_field_rule(track_find@, track_replace@),
            artist_name: typed_field_rule(artist_find@, artist_replace@),
            album_name: typed_field_rule(album_find@, album_replace@),
            album_artist_name: typed_field_rule(album_artist_find@, album_artist_replace@),
            requires_confirmation: false,
        }),
{
    RewriteRule {
        name: None,
        track_name: typed_field(track_find, track_replace),
        artist_name: typed_field(artist_find, artist_replace),
        album_name: typed_field(album_find, album_replace),
        album_artist_name: typed_field(album_artist_find, album_artist_replace),
        requires_confirmation: false,
    }
}

} // verus!
