use vstd::prelude::*;
use crate::pattern::{compile, regex_compile_error, regex_replace_all, replace_all};
use crate::rules::{RewriteRule, RewriteRuleView, SdRule, SdRuleView};
use crate::text::{decimal, push_char, push_decimal, push_str, string_of};
use crate::track::Track;

verus! {

/// Calls `String::pop`: the last character, when there is one, is removed.
#[verifier::external_body]
pub(crate) fn pop_char(s: &mut String)
    ensures
        old(s)@.len() > 0 ==> final(s)@ == old(s)@.drop_last(),
        old(s)@.len() == 0 ==> final(s)@ == old(s)@,
{
    s.pop();
}

/// The six fields of the terminal rule editor and which one has focus.
#[derive(Debug, Clone, PartialEq)]
pub struct RuleEditor {
    pub track_find: String,
    pub track_replace: String,
    pub artist_find: String,
    pub artist_replace: String,
    pub album_find: String,
    pub album_replace: String,
    pub current_field: usize,
    pub editing: bool,
}

/// The terminal rule workshop: tabs, loaded tracks, the rule being written and its preview.
#[derive(Debug, Clone, PartialEq)]
pub struct TuiApp {
    pub current_tab: usize,
    pub tracks: Vec<Track>,
    pub selected: Option<usize>,
    pub tracks_limit: u32,
    pub rule_editor: RuleEditor,
    pub preview_text: String,
    pub loading: bool,
    pub error_message: Option<String>,
}

/// A key the workshop reacts to.
#[derive(Debug, Clone, PartialEq)]
pub enum Key {
    Char(char),
    Tab,
    BackTab,
    Up,
    Down,
    Left,
    Right,
    Enter,
    Backspace,
    Esc,
    Other,
}

/// Work the terminal loop has to carry out after a key.
#[derive(Debug, Clone, PartialEq)]
pub enum TuiAction {
    Nothing,
    Quit,
    LoadRecent,
    LoadArtist(String),
    SaveRule(RewriteRule),
}

/// The result of loading tracks or saving a rule.
#[derive(Debug, Clone, PartialEq)]
pub enum LoadOutcome<T> {
    Loaded(T),
    Failed(String),
    TimedOut,
}

/// The model of the editor.
pub struct EditorView {
    pub fields: Seq<Seq<char>>,
    pub current: usize,
    pub editing: bool,
}

/// The model of the workshop.
pub struct TuiView {
    pub tab: usize,
    pub tracks: Seq<Track>,
    pub selected: Option<usize>,
    pub limit: u32,
    pub editor: EditorView,
    pub preview: Seq<char>,
    pub loading: bool,
    pub error: Option<Seq<char>>,
}

impl View for RuleEditor {
    type V = EditorView;

    open spec fn view(&self) -> EditorView {
        EditorView {
            fields: seq![
                self.track_find@,
                self.track_replace@,
                self.artist_find@,
                self.artist_replace@,
                self.album_find@,
                self.album_replace@,
            ],
            current: self.current_field,
            editing: self.editing,
        }
    }
}

impl View for TuiApp {
    type V = TuiView;

    open spec fn view(&self) -> TuiView {
        TuiView {
            tab: self.current_tab,
            tracks: self.tracks@,
            selected: self.selected,
            limit: self.tracks_limit,
            editor: self.rule_editor@,
            preview: self.preview_text@,
            loading: self.loading,
            error: match self.error_message {
                Some(e) => Some(e@),
                None => None,
            },
        }
    }
}

/// The invariant of the workshop: a tab and a field in range, a selection in range (or the
/// first row of an empty list), and a limit the `-` key can lower without wrapping.
pub open spec fn tui_wf(s: TuiView) -> bool {
    &&& s.tab < 3
    &&& s.editor.current < 6
    &&& s.editor.fields.len() == 6
    &&& s.limit >= 10
    &&& (s.limit % 25 == 0 || s.limit % 25 == 10)
    &&& match s.selected {
        Some(i) => i == 0 || i < s.tracks.len(),
        None => true,
    }
}

/// An empty editor.
pub open spec fn empty_fields() -> Seq<Seq<char>> {
    seq![Seq::empty(), Seq::empty(), Seq::empty(), Seq::empty(), Seq::empty(), Seq::empty()]
}

/// Characters the editor accepts: printable ASCII and the space.
pub open spec fn accepted_char(c: char) -> bool {
    ('!' <= c && c <= '~') || c == ' '
}

/// The selection after moving down the track list.
pub open spec fn selection_down(s: TuiView) -> Option<usize> {
    if s.tab == 0 && s.tracks.len() > 0 {
        Some(
            match s.selected {
                Some(i) => ((i + 1) % (s.tracks.len() as int)) as usize,
                None => 0,
            },
        )
    } else {
        s.selected
    }
}

/// The selection after moving up the track list.
pub open spec fn selection_up(s: TuiView) -> Option<usize> {
    if s.tab == 0 && s.tracks.len() > 0 {
        Some(
            match s.selected {
                Some(i) => ((i + s.tracks.len() - 1) % (s.tracks.len() as int)) as usize,
                None => 0,
            },
        )
    } else {
        s.selected
    }
}

/// The find-and-replace a pair of editor fields gives, when the find is not empty.
pub open spec fn editor_field_rule(find: Seq<char>, replace: Seq<char>) -> Option<SdRuleView> {
    if find.len() > 0 {
        Some(SdRuleView { find, replace, flags: None })
    } else {
        None
    }
}

/// The rule the editor holds.
pub open spec fn editor_rule(e: EditorView) -> RewriteRuleView {
    RewriteRuleView {
        name: None,
        track_name: editor_field_rule(e.fields[0], e.fields[1]),
        artist_name: editor_field_rule(e.fields[2], e.fields[3]),
        album_name: editor_field_rule(e.fields[4], e.fields[5]),
        album_artist_name: None,
        requires_confirmation: false,
    }
}

/// The editor holds at least one find pattern.
pub open spec fn editor_has_rules(e: EditorView) -> bool {
    e.fields[0].len() > 0 || e.fields[2].len() > 0 || e.fields[4].len() > 0
}

/// A field after a find-and-replace, or the compile error of its pattern.
pub open spec fn apply_field(r: Option<SdRuleView>, v: Seq<char>) -> Result<Seq<char>, Seq<char>> {
    match r {
        None => Ok(v),
        Some(r) => match regex_compile_error(r.find) {
            Some(e) => Err(e),
            None => Ok(regex_replace_all(r.find, v, r.replace)),
        },
    }
}

/// A track's album as the edit form shows it: empty when unknown.
pub open spec fn album_text(t: Track) -> Seq<char> {
    match t.album {
        Some(a) => a@,
        None => Seq::empty(),
    }
}

/// The track's name, artist and album after the editor's rule, or the first compile error, in
/// the order track, artist, album.
pub open spec fn rule_outcome(e: EditorView, t: Track) -> Result<(Seq<char>, Seq<char>, Seq<char>), Seq<char>> {
    let rule = editor_rule(e);
    match apply_field(rule.track_name, t.name@) {
        Err(x) => Err(x),
        Ok(n) => match apply_field(rule.artist_name, t.artist@) {
            Err(x) => Err(x),
            Ok(a) => match apply_field(rule.album_name, album_text(t)) {
                Err(x) => Err(x),
                Ok(al) => Ok((n, a, al)),
            },
        },
    }
}

/// The welcome text shown before tracks are loaded.
pub open spec fn welcome_text(limit: u32) -> Seq<char> {
    "Welcome to Rule Workshop!\n\nSimple Rule Editor:\n• Load tracks with 'r'\n• Edit rule fields with Enter\n• Save rule with 's'\n• Clear rule with 'c'\n\nNavigation:\n• ←/→: switch panels\n• ↑/↓: navigate items/fields\n• Enter: edit field\n\nTracks: "@
        + decimal(limit as nat) + " limit, +/- to adjust"@
}

/// The description of the selected track.
pub open spec fn track_header(t: Track) -> Seq<char> {
    "Original Track:\n  Name: "@ + t.name@ + "\n  Artist: "@ + t.artist@ + "\n  Album: "@ + match t.album {
        Some(a) => a@,
        None => "Unknown"@,
    } + "\n\n"@
}

/// What the preview says about the editor's rule on a track.
pub open spec fn rule_preview(e: EditorView, t: Track) -> Seq<char> {
    if !editor_has_rules(e) {
        "Enter find patterns to test the rule"@
    } else {
        match rule_outcome(e, t) {
            Err(x) => "✗ Rule error: "@ + x,
            Ok((n, a, al)) => if n != t.name@ || a != t.artist@ || al != album_text(t) {
                "After Rule Application:\n  Name: "@ + n + "\n  Artist: "@ + a + "\n  Album: "@ + al
                    + "\n\n✓ Rule would make changes"@
            } else {
                "- Rule would not match this track"@
            },
        }
    }
}

/// The preview after it is refreshed: unchanged when the selection points past the list.
pub open spec fn preview_after(s: TuiView) -> Seq<char> {
    if s.tracks.len() == 0 {
        welcome_text(s.limit)
    } else {
        match s.selected {
            Some(i) => if i < s.tracks.len() {
                track_header(s.tracks[i as int]) + rule_preview(s.editor, s.tracks[i as int])
            } else {
                s.preview
            },
            None => "Select a track to see rule preview"@,
        }
    }
}

/// The state with its preview refreshed.
pub open spec fn refreshed(s: TuiView) -> TuiView {
    TuiView { preview: preview_after(s), ..s }
}

/// The editor with focus moved by `step` fields, out of editing.
pub open spec fn editor_moved(e: EditorView, step: int, stop_editing: bool) -> EditorView {
    EditorView {
        current: ((e.current + step) % 6) as usize,
        editing: if stop_editing { false } else { e.editing },
        ..e
    }
}

/// The editor after typing a character.
pub open spec fn editor_typed(e: EditorView, c: char) -> EditorView {
    if accepted_char(c) {
        EditorView { fields: e.fields.update(e.current as int, e.fields[e.current as int].push(c)), ..e }
    } else {
        e
    }
}

/// The editor after a backspace.
pub open spec fn editor_erased(e: EditorView) -> EditorView {
    let f = e.fields[e.current as int];
    EditorView {
        fields: e.fields.update(e.current as int, if f.len() > 0 { f.drop_last() } else { f }),
        ..e
    }
}

/// The artist the `a` key loads: the selected track's, or "The Beatles".
pub open spec fn artist_to_load(s: TuiView) -> Seq<char> {
    match s.selected {
        Some(i) => if s.tracks.len() > 0 && i < s.tracks.len() {
            s.tracks[i as int].artist@
        } else {
            "The Beatles"@
        },
        None => "The Beatles"@,
    }
}

/// The work a key asks of the terminal loop.
pub enum KeyAction {
    Nothing,
    Quit,
    LoadRecent,
    LoadArtist(Seq<char>),
    SaveRule(RewriteRuleView),
}

/// What a key does: the new state, and the work it asks for.
pub open spec fn key_effect(s: TuiView, key: Key) -> (TuiView, KeyAction) {
    let e = s.editor;
    match key {
        Key::Char('q') => (s, KeyAction::Quit),
        Key::Tab => if s.tab == 1 {
            (refreshed(TuiView { editor: editor_moved(e, 1, true), ..s }), KeyAction::Nothing)
        } else {
            (TuiView { tab: ((s.tab + 1) % 3) as usize, ..s }, KeyAction::Nothing)
        },
        Key::BackTab => if s.tab == 1 {
            (refreshed(TuiView { editor: editor_moved(e, 5, true), ..s }), KeyAction::Nothing)
        } else {
            (TuiView { tab: ((s.tab + 2) % 3) as usize, ..s }, KeyAction::Nothing)
        },
        Key::Down => if s.tab == 1 && !e.editing {
            (refreshed(TuiView { editor: editor_moved(e, 1, false), ..s }), KeyAction::Nothing)
        } else if s.tab == 0 {
            (refreshed(TuiView { selected: selection_down(s), ..s }), KeyAction::Nothing)
        } else {
            (s, KeyAction::Nothing)
        },
        Key::Up => if s.tab == 1 && !e.editing {
            (refreshed(TuiView { editor: editor_moved(e, 5, false), ..s }), KeyAction::Nothing)
        } else if s.tab == 0 {
            (refreshed(TuiView { selected: selection_up(s), ..s }), KeyAction::Nothing)
        } else {
            (s, KeyAction::Nothing)
        },
        Key::Left => (TuiView { tab: ((s.tab + 2) % 3) as usize, ..s }, KeyAction::Nothing),
        Key::Right => (TuiView { tab: ((s.tab + 1) % 3) as usize, ..s }, KeyAction::Nothing),
        Key::Enter => if s.tab == 1 {
            (refreshed(TuiView { editor: EditorView { editing: !e.editing, ..e }, ..s }), KeyAction::Nothing)
        } else {
            (s, KeyAction::Nothing)
        },
        Key::Char('r') if !e.editing => (s, KeyAction::LoadRecent),
        Key::Char('a') if !e.editing => (s, KeyAction::LoadArtist(artist_to_load(s))),
        Key::Char('s') if !e.editing => if editor_has_rules(e) {
            (s, KeyAction::SaveRule(editor_rule(e)))
        } else {
            (
                refreshed(TuiView { error: Some("No find patterns entered - nothing to save"@), ..s }),
                KeyAction::Nothing,
            )
        },
        Key::Char('c') if !e.editing => (
            refreshed(TuiView { editor: EditorView { fields: empty_fields(), current: 0, editing: false }, ..s }),
            KeyAction::Nothing,
        ),
        Key::Char('+') => {
            let s2 = TuiView { limit: (s.limit + 25) as u32, ..s };
            (refreshed(s2), if s.tracks.len() > 0 { KeyAction::LoadRecent } else { KeyAction::Nothing })
        },
        Key::Char('=') => {
            let s2 = TuiView { limit: (s.limit + 25) as u32, ..s };
            (refreshed(s2), if s.tracks.len() > 0 { KeyAction::LoadRecent } else { KeyAction::Nothing })
        },
        Key::Char('-') if !e.editing => if s.limit > 10 {
            let l = if s.limit - 25 < 10 { 10u32 } else { (s.limit - 25) as u32 };
            let s2 = TuiView { limit: l, ..s };
            (refreshed(s2), if s.tracks.len() > 0 { KeyAction::LoadRecent } else { KeyAction::Nothing })
        } else {
            (s, KeyAction::Nothing)
        },
        Key::Char(c) if e.editing => (refreshed(TuiView { editor: editor_typed(e, c), ..s }), KeyAction::Nothing),
        Key::Backspace if e.editing => (refreshed(TuiView { editor: editor_erased(e), ..s }), KeyAction::Nothing),
        Key::Esc => (TuiView { error: None, ..s }, KeyAction::Nothing),
        _ => (s, KeyAction::Nothing),
    }
}

/// A key can be handled without overflow: `+` needs room for 25 more tracks.
pub open spec fn key_ok(s: TuiView, key: Key) -> bool {
    (key == Key::Char('+') || key == Key::Char('=')) ==> s.limit + 25 <= u32::MAX
}

/// The work an action value carries, by its model.
pub open spec fn action_view(a: TuiAction) -> KeyAction {
    match a {
        TuiAction::Nothing => KeyAction::Nothing,
        TuiAction::Quit => KeyAction::Quit,
        TuiAction::LoadRecent => KeyAction::LoadRecent,
        TuiAction::LoadArtist(s) => KeyAction::LoadArtist(s@),
        TuiAction::SaveRule(r) => KeyAction::SaveRule(r@),
    }
}

impl RuleEditor {
    /// An empty editor with focus on the first field.
    pub fn new() -> (r: RuleEditor)
        ensures
            r@ == (EditorView { fields: empty_fields(), current: 0, editing: false }),
    {
        let r = RuleEditor {
            track_find: String::new(),
            track_replace: String::new(),
            artist_find: String::new(),
            artist_replace: String::new(),
            album_find: String::new(),
            album_replace: String::new(),
            current_field: 0,
            editing: false,
        };
        proof {
            assert(r@.fields =~= empty_fields());
        }
        r
    }
}

/// A find-and-replace from a pair of editor fields, when the find is not empty.
fn field_rule(find: &String, replace: &String) -> (r: Option<SdRule>)
    ensures
        match r {
            Some(x) => editor_field_rule(find@, replace@) == Some(x@),
            None => editor_field_rule(find@, replace@) is None,
        },
{
    if find.as_str().is_empty() {
        None
    } else {
        Some(SdRule::new(find.as_str(), replace.as_str()))
    }
}

/// Applies an optional find-and-replace to a field.
fn apply_field_exec(r: &Option<SdRule>, v: &str) -> (out: Result<String, String>)
    ensures
        match out {
            Ok(x) => apply_field(crate::rules::opt_sd_view(*r), v@) == Ok::<Seq<char>, Seq<char>>(x@),
            Err(x) => apply_field(crate::rules::opt_sd_view(*r), v@) == Err::<Seq<char>, Seq<char>>(x@),
        },
{
    match r {
        None => Ok(string_of(v)),
        Some(rule) => match compile(rule.find.as_str()) {
            Err(e) => Err(e),
            Ok(re) => Ok(replace_all(&re, v, rule.replace.as_str())),
        },
    }
}

impl TuiApp {
    /// A workshop without tracks: first tab, first row selected, fifty tracks per load.
    pub fn new() -> (r: TuiApp)
        ensures
            r@.tab == 0,
            r@.tracks.len() == 0,
            r@.selected == Some(0usize),
            r@.limit == 50,
            r@.editor == (EditorView { fields: empty_fields(), current: 0, editing: false }),
            r@.preview.len() == 0,
            !r@.loading,
            r@.error is None,
            tui_wf(r@),
    {
        TuiApp {
            current_tab: 0,
            tracks: Vec::new(),
            selected: Some(0),
            tracks_limit: 50,
            rule_editor: RuleEditor::new(),
            preview_text: String::new(),
            loading: false,
            error_message: None,
        }
    }

    /// Moves the track selection down, wrapping around.
    pub fn next_item(&mut self)
        requires
            tui_wf(old(self)@),
        ensures
            final(self)@ == (TuiView { selected: selection_down(old(self)@), ..old(self)@ }),
            tui_wf(final(self)@),
    {
        if self.current_tab == 0 && self.tracks.len() > 0 {
            let i = match self.selected {
                Some(i) => (i + 1) % self.tracks.len(),
                None => 0,
            };
            self.selected = Some(i);
        }
    }

    /// Moves the track selection up, wrapping around.
    pub fn previous_item(&mut self)
        requires
            tui_wf(old(self)@),
        ensures
            final(self)@ == (TuiView { selected: selection_up(old(self)@), ..old(self)@ }),
            tui_wf(final(self)@),
    {
        if self.current_tab == 0 && self.tracks.len() > 0 {
            let len = self.tracks.len();
            let i = match self.selected {
                Some(i) => if i == 0 { len - 1 } else { i - 1 },
                None => 0,
            };
            proof {
                if let Some(j) = self.selected {
                    if j == 0 {
                        assert((j + len - 1) % (len as int) == len - 1) by (nonlinear_arith)
                            requires j == 0, len > 0;
                    } else {
                        assert((j + len - 1) % (len as int) == j - 1) by (nonlinear_arith)
                            requires 0 < j < len;
                    }
                }
            }
            self.selected = Some(i);
        }
    }

    /// Types a character into the focused field; other characters are ignored.
    pub fn handle_text_input(&mut self, c: char)
        requires
            tui_wf(old(self)@),
        ensures
            final(self)@ == (TuiView { editor: editor_typed(old(self)@.editor, c), ..old(self)@ }),
    {
        if ('!' <= c && c <= '~') || c == ' ' {
            let f = self.rule_editor.current_field;
            if f == 0 {
                push_char(&mut self.rule_editor.track_find, c);
            } else if f == 1 {
                push_char(&mut self.rule_editor.track_replace, c);
            } else if f == 2 {
                push_char(&mut self.rule_editor.artist_find, c);
            } else if f == 3 {
                push_char(&mut self.rule_editor.artist_replace, c);
            } else if f == 4 {
                push_char(&mut self.rule_editor.album_find, c);
            } else {
                push_char(&mut self.rule_editor.album_replace, c);
            }
            proof {
                assert(self.rule_editor@.fields =~= old(self).rule_editor@.fields.update(
                    f as int,
                    old(self).rule_editor@.fields[f as int].push(c),
                ));
            }
        }
    }

    /// Removes the last character of the focused field, when it has one.
    pub fn handle_backspace(&mut self)
        requires
            tui_wf(old(self)@),
        ensures
            final(self)@ == (TuiView { editor: editor_erased(old(self)@.editor), ..old(self)@ }),
    {
        let f = self.rule_editor.current_field;
        if f == 0 {
            pop_char(&mut self.rule_editor.track_find);
        } else if f == 1 {
            pop_char(&mut self.rule_editor.track_replace);
        } else if f == 2 {
            pop_char(&mut self.rule_editor.artist_find);
        } else if f == 3 {
            pop_char(&mut self.rule_editor.artist_replace);
        } else if f == 4 {
            pop_char(&mut self.rule_editor.album_find);
        } else {
            pop_char(&mut self.rule_editor.album_replace);
        }
        proof {
            let e = old(self).rule_editor@;
            let fld = e.fields[f as int];
            assert(self.rule_editor@.fields =~= e.fields.update(
                f as int,
                if fld.len() > 0 { fld.drop_last() } else { fld },
            ));
        }
    }

    /// Empties the editor.
    pub fn clear_rule(&mut self)
        ensures
            final(self)@ == (TuiView {
                editor: EditorView { fields: empty_fields(), current: 0, editing: false },
                ..old(self)@
            }),
    {
        self.rule_editor = RuleEditor::new();
    }

    /// The rule the editor holds.
    pub fn rule_from_editor(&self) -> (r: RewriteRule)
        requires
            tui_wf(self@),
        ensures
            r@ == editor_rule(self@.editor),
    {
        let e = &self.rule_editor;
        let mut rule = RewriteRule::new();
        rule.track_name = field_rule(&e.track_find, &e.track_replace);
        rule.artist_name = field_rule(&e.artist_find, &e.artist_replace);
        rule.album_name = field_rule(&e.album_find, &e.album_replace);
        rule
    }

    /// Whether the editor holds at least one find pattern.
    pub fn editor_has_rules(&self) -> (b: bool)
        requires
            tui_wf(self@),
        ensures
            b == editor_has_rules(self@.editor),
    {
        !self.rule_editor.track_find.as_str().is_empty() || !self.rule_editor.artist_find.as_str().is_empty()
            || !self.rule_editor.album_find.as_str().is_empty()
    }

    /// The preview text for the selected track.
    fn rule_preview_text(&self, t: &Track) -> (r: String)
        requires
            tui_wf(self@),
        ensures
            r@ == rule_preview(self@.editor, *t),
    {
        if !self.editor_has_rules() {
            return string_of("Enter find patterns to test the rule");
        }
        let rule = self.rule_from_editor();
        let album = match &t.album {
            Some(a) => a.clone(),
            None => String::new(),
        };
        let n = match apply_field_exec(&rule.track_name, t.name.as_str()) {
            Ok(x) => x,
            Err(x) => {
                let mut m = string_of("✗ Rule error: ");
                push_str(&mut m, x.as_str());
                return m;
            },
        };
        let a = match apply_field_exec(&rule.artist_name, t.artist.as_str()) {
            Ok(x) => x,
            Err(x) => {
                let mut m = string_of("✗ Rule error: ");
                push_str(&mut m, x.as_str());
                return m;
            },
        };
        let al = match apply_field_exec(&rule.album_name, album.as_str()) {
            Ok(x) => x,
            Err(x) => {
                let mut m = string_of("✗ Rule error: ");
                push_str(&mut m, x.as_str());
                return m;
            },
        };
        let changed = !crate::text::same_text(n.as_str(), t.name.as_str()) || !crate::text::same_text(
            a.as_str(),
            t.artist.as_str(),
        ) || !crate::text::same_text(al.as_str(), album.as_str());
        if changed {
            let mut m = string_of("After Rule Application:\n  Name: ");
            push_str(&mut m, n.as_str());
            push_str(&mut m, "\n  Artist: ");
            push_str(&mut m, a.as_str());
            push_str(&mut m, "\n  Album: ");
            push_str(&mut m, al.as_str());
            push_str(&mut m, "\n\n✓ Rule would make changes");
            proof {
                assert(m@ =~= "After Rule Application:\n  Name: "@ + n@ + "\n  Artist: "@ + a@ + "\n  Album: "@ + al@
                    + "\n\n✓ Rule would make changes"@);
            }
            m
        } else {
            string_of("- Rule would not match this track")
        }
    }

    /// Refreshes the preview for the current selection and rule.
    pub fn update_preview(&mut self)
        requires
            tui_wf(old(self)@),
        ensures
            final(self)@ == refreshed(old(self)@),
    {
        if self.tracks.len() == 0 {
            let mut p = string_of(
                "Welcome to Rule Workshop!\n\nSimple Rule Editor:\n• Load tracks with 'r'\n• Edit rule fields with Enter\n• Save rule with 's'\n• Clear rule with 'c'\n\nNavigation:\n• ←/→: switch panels\n• ↑/↓: navigate items/fields\n• Enter: edit field\n\nTracks: ",
            );
            push_decimal(&mut p, self.tracks_limit as u64);
            push_str(&mut p, " limit, +/- to adjust");
            self.preview_text = p;
            return;
        }
        match self.selected {
            Some(i) => {
                if i < self.tracks.len() {
                    let t = &self.tracks[i];
                    let mut p = string_of("Original Track:\n  Name: ");
                    push_str(&mut p, t.name.as_str());
                    push_str(&mut p, "\n  Artist: ");
                    push_str(&mut p, t.artist.as_str());
                    push_str(&mut p, "\n  Album: ");
                    match &t.album {
                        Some(a) => push_str(&mut p, a.as_str()),
                        None => push_str(&mut p, "Unknown"),
                    }
                    push_str(&mut p, "\n\n");
                    let rest = self.rule_preview_text(t);
                    push_str(&mut p, rest.as_str());
                    proof {
                        assert(p@ =~= track_header(*t) + rule_preview(self@.editor, *t));
                    }
                    self.preview_text = p;
                }
            },
            None => {
                self.preview_text = string_of("Select a track to see rule preview");
            },
        }
    }

    /// The artist the `a` key loads.
    pub fn artist_for_loading(&self) -> (r: String)
        ensures
            r@ == artist_to_load(self@),
    {
        match self.selected {
            Some(i) => if self.tracks.len() > 0 && i < self.tracks.len() {
                self.tracks[i].artist.clone()
            } else {
                string_of("The Beatles")
            },
            None => string_of("The Beatles"),
        }
    }
}


/// The state after a recent-tracks load: new tracks with the first selected, or the reason for
/// none; the preview refreshed.
pub open spec fn after_recent_load(s: TuiView, outcome: LoadOutcome<Vec<Track>>) -> TuiView {
    let s2 = match outcome {
        LoadOutcome::Loaded(ts) => if ts@.len() > 0 {
            TuiView { tracks: ts@, selected: Some(0usize), error: None, loading: false, ..s }
        } else {
            TuiView { error: Some("No recent tracks found"@), loading: false, ..s }
        },
        LoadOutcome::Failed(e) => TuiView {
            error: Some("Failed to load recent tracks: "@ + e@),
            loading: false,
            ..s
        },
        LoadOutcome::TimedOut => TuiView {
            error: Some("Timeout loading recent tracks - check your connection"@),
            loading: false,
            ..s
        },
    };
    refreshed(s2)
}

/// The state after an artist's tracks were loaded.
pub open spec fn after_artist_load(s: TuiView, artist: Seq<char>, outcome: LoadOutcome<Vec<Track>>) -> TuiView {
    let s2 = match outcome {
        LoadOutcome::Loaded(ts) => if ts@.len() == 0 {
            TuiView { error: Some("No tracks found for artist '"@ + artist + "'"@), loading: false, ..s }
        } else {
            TuiView { tracks: ts@, selected: Some(0usize), error: None, loading: false, ..s }
        },
        LoadOutcome::Failed(e) => TuiView {
            error: Some("Failed to load tracks for '"@ + artist + "': "@ + e@),
            loading: false,
            ..s
        },
        LoadOutcome::TimedOut => TuiView {
            error: Some("Timeout loading tracks for '"@ + artist + "' - check your connection"@),
            loading: false,
            ..s
        },
    };
    refreshed(s2)
}

/// The state after a rule was saved: on success the editor empties and says so.
pub open spec fn after_save(s: TuiView, outcome: LoadOutcome<()>) -> TuiView {
    let s2 = match outcome {
        LoadOutcome::Loaded(_) => TuiView {
            editor: EditorView { fields: empty_fields(), current: 0, editing: false },
            error: Some("Rule saved successfully!"@),
            loading: false,
            ..s
        },
        LoadOutcome::Failed(e) => TuiView { error: Some("Failed to save rule: "@ + e@), loading: false, ..s },
        LoadOutcome::TimedOut => TuiView { error: Some("Timeout saving rule"@), loading: false, ..s },
    };
    refreshed(s2)
}

impl TuiApp {
    /// Handles one key press: updates the state and says what work the terminal loop has to do.
    pub fn handle_key(&mut self, key: Key) -> (action: TuiAction)
        requires
            tui_wf(old(self)@),
            key_ok(old(self)@, key),
        ensures
            final(self)@ == key_effect(old(self)@, key).0,
            action_view(action) == key_effect(old(self)@, key).1,
            tui_wf(final(self)@),
    {
        let editing = self.rule_editor.editing;
        match key {
            Key::Char('q') => TuiAction::Quit,
            Key::Tab => {
                if self.current_tab == 1 {
                    self.rule_editor.current_field = (self.rule_editor.current_field + 1) % 6;
                    self.rule_editor.editing = false;
                    self.update_preview();
                } else {
                    self.current_tab = (self.current_tab + 1) % 3;
                }
                TuiAction::Nothing
            },
            Key::BackTab => {
                if self.current_tab == 1 {
                    self.rule_editor.current_field = (self.rule_editor.current_field + 5) % 6;
                    self.rule_editor.editing = false;
                    self.update_preview();
                } else {
                    self.current_tab = (self.current_tab + 2) % 3;
                }
                TuiAction::Nothing
            },
            Key::Down => {
                if self.current_tab == 1 && !editing {
                    self.rule_editor.current_field = (self.rule_editor.current_field + 1) % 6;
                    self.update_preview();
                } else if self.current_tab == 0 {
                    self.next_item();
                    self.update_preview();
                }
                TuiAction::Nothing
            },
            Key::Up => {
                if self.current_tab == 1 && !editing {
                    self.rule_editor.current_field = (self.rule_editor.current_field + 5) % 6;
                    self.update_preview();
                } else if self.current_tab == 0 {
                    self.previous_item();
                    self.update_preview();
                }
                TuiAction::Nothing
            },
            Key::Left => {
                self.current_tab = (self.current_tab + 2) % 3;
                TuiAction::Nothing
            },
            Key::Right => {
                self.current_tab = (self.current_tab + 1) % 3;
                TuiAction::Nothing
            },
            Key::Enter => {
                if self.current_tab == 1 {
                    self.rule_editor.editing = !editing;
                    self.update_preview();
                }
                TuiAction::Nothing
            },
            Key::Char('r') if !editing => TuiAction::LoadRecent,
            Key::Char('a') if !editing => TuiAction::LoadArtist(self.artist_for_loading()),
            Key::Char('s') if !editing => {
                if self.editor_has_rules() {
                    TuiAction::SaveRule(self.rule_from_editor())
                } else {
                    self.error_message = Some(string_of("No find patterns entered - nothing to save"));
                    self.update_preview();
                    TuiAction::Nothing
                }
            },
            Key::Char('c') if !editing => {
                self.clear_rule();
                self.update_preview();
                TuiAction::Nothing
            },
            Key::Char('+') | Key::Char('=') => {
                self.tracks_limit = self.tracks_limit + 25;
                self.update_preview();
                if self.tracks.len() > 0 {
                    TuiAction::LoadRecent
                } else {
                    TuiAction::Nothing
                }
            },
            Key::Char('-') if !editing => {
                if self.tracks_limit > 10 {
                    self.tracks_limit = self.tracks_limit - 25;
                    if self.tracks_limit < 10 {
                        self.tracks_limit = 10;
                    }
                    self.update_preview();
                    if self.tracks.len() > 0 {
                        TuiAction::LoadRecent
                    } else {
                        TuiAction::Nothing
                    }
                } else {
                    TuiAction::Nothing
                }
            },
            Key::Char(c) if editing => {
                self.handle_text_input(c);
                self.update_preview();
                TuiAction::Nothing
            },
            Key::Backspace if editing => {
                self.handle_backspace();
                self.update_preview();
                TuiAction::Nothing
            },
            Key::Esc => {
                self.error_message = None;
                TuiAction::Nothing
            },
            _ => TuiAction::Nothing,
        }
    }

    /// Takes in the result of loading recent tracks.
    pub fn finish_recent_load(&mut self, outcome: LoadOutcome<Vec<Track>>)
        requires
            tui_wf(old(self)@),
        ensures
            final(self)@ == after_recent_load(old(self)@, outcome),
            tui_wf(final(self)@),
    {
        self.loading = false;
        self.error_message = None;
        match outcome {
            LoadOutcome::Loaded(ts) => {
                if ts.len() > 0 {
                    self.tracks = ts;
                    self.selected = Some(0);
                } else {
                    self.error_message = Some(string_of("No recent tracks found"));
                }
            },
            LoadOutcome::Failed(e) => {
                let mut m = string_of("Failed to load recent tracks: ");
                push_str(&mut m, e.as_str());
                self.error_message = Some(m);
            },
            LoadOutcome::TimedOut => {
                self.error_message = Some(string_of("Timeout loading recent tracks - check your connection"));
            },
        }
        self.update_preview();
    }

    /// Takes in the result of loading an artist's tracks.
    pub fn finish_artist_load(&mut self, artist: &str, outcome: LoadOutcome<Vec<Track>>)
        requires
            tui_wf(old(self)@),
        ensures
            final(self)@ == after_artist_load(old(self)@, artist@, outcome),
            tui_wf(final(self)@),
    {
        self.loading = false;
        self.error_message = None;
        match outcome {
            LoadOutcome::Loaded(ts) => {
                if ts.len() == 0 {
                    let mut m = string_of("No tracks found for artist '");
                    push_str(&mut m, artist);
                    push_str(&mut m, "'");
                    self.error_message = Some(m);
                } else {
                    self.tracks = ts;
                    self.selected = Some(0);
                }
            },
            LoadOutcome::Failed(e) => {
                let mut m = string_of("Failed to load tracks for '");
                push_str(&mut m, artist);
                push_str(&mut m, "': ");
                push_str(&mut m, e.as_str());
                self.error_message = Some(m);
            },
            LoadOutcome::TimedOut => {
                let mut m = string_of("Timeout loading tracks for '");
                push_str(&mut m, artist);
                push_str(&mut m, "' - check your connection");
                self.error_message = Some(m);
            },
        }
        self.update_preview();
    }

    /// Takes in the result of saving the rule.
    pub fn finish_save(&mut self, outcome: LoadOutcome<()>)
        requires
            tui_wf(old(self)@),
        ensures
            final(self)@ == after_save(old(self)@, outcome),
            tui_wf(final(self)@),
    {
        self.loading = false;
        match outcome {
            LoadOutcome::Loaded(_) => {
                self.clear_rule();
                self.error_message = Some(string_of("Rule saved successfully!"));
            },
            LoadOutcome::Failed(e) => {
                let mut m = string_of("Failed to save rule: ");
                push_str(&mut m, e.as_str());
                self.error_message = Some(m);
            },
            LoadOutcome::TimedOut => {
                self.error_message = Some(string_of("Timeout saving rule"));
            },
        }
        self.update_preview();
    }
}

} // verus!
