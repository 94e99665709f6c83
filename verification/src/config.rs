use vstd::prelude::*;
use crate::paging::lines_of;
use crate::rules::opt_view;
use crate::text::string_of;
use crate::track::copy_opt_string;

verus! {

/// How the scrubber runs.
#[derive(Debug, Clone, PartialEq)]
pub struct ScrubberConfig {
    pub interval: u64,
    pub dry_run: bool,
    pub require_confirmation: bool,
    pub require_proposed_rule_confirmation: bool,
    pub enable_web_interface: bool,
    pub web_port: u16,
    pub track_provider: String,
}

/// Where state is kept.
#[derive(Debug, Clone, PartialEq)]
pub struct StorageConfig {
    pub state_file: String,
}

/// The Last.fm account.
#[derive(Debug, Clone, PartialEq)]
pub struct LastFmConfig {
    pub username: String,
    pub password: String,
    pub base_url: String,
}

/// The OpenAI suggestion provider's settings.
#[derive(Debug, Clone, PartialEq)]
pub struct OpenAIProviderConfig {
    pub api_key: String,
    pub model: Option<String>,
    pub system_prompt: Option<String>,
}

/// Which suggestion providers are on.
#[derive(Debug, Clone, PartialEq)]
pub struct ProvidersConfig {
    pub enable_rewrite_rules: bool,
    pub enable_openai: bool,
    pub enable_musicbrainz: bool,
    pub enable_http: bool,
    pub openai: Option<OpenAIProviderConfig>,
}

/// The configuration of the scrubber, as far as the command line and the settings page touch it.
#[derive(Debug, Clone, PartialEq)]
pub struct ScrobbleScrubberConfig {
    pub scrubber: ScrubberConfig,
    pub storage: StorageConfig,
    pub lastfm: LastFmConfig,
    pub providers: ProvidersConfig,
}

/// A suggestion provider named on the command line.
#[derive(Debug, Clone, PartialEq)]
pub enum ProviderType {
    Musicbrainz,
    Openai,
}

/// The command given on the command line, with its options.
#[allow(inconsistent_fields)]
#[derive(Debug, Clone, PartialEq)]
pub enum Commands {
    Run {
        interval: Option<u64>,
        dry_run: bool,
        require_confirmation: bool,
        require_proposed_rule_confirmation: bool,
        enable_web_interface: bool,
        web_port: Option<u16>,
    },
    Once {
        set_anchor_timestamp: Option<String>,
        dry_run: bool,
        require_confirmation: bool,
        require_proposed_rule_confirmation: bool,
        enable_web_interface: bool,
        web_port: Option<u16>,
    },
    LastN {
        tracks: u32,
        rule_focus: bool,
        no_existing_rules: bool,
        dry_run: bool,
        require_confirmation: bool,
        require_proposed_rule_confirmation: bool,
        enable_web_interface: bool,
        web_port: Option<u16>,
    },
    Artist {
        name: String,
        album: Option<String>,
        dry_run: bool,
        require_confirmation: bool,
        require_proposed_rule_confirmation: bool,
        enable_web_interface: bool,
        web_port: Option<u16>,
    },
    Web { port: Option<u16> },
    ClearSession,
    ShowCache { limit: usize, all_pages: bool },
    ShowRules,
    AddRule {
        name: Option<String>,
        track_find: Option<String>,
        track_replace: Option<String>,
        artist_find: Option<String>,
        artist_replace: Option<String>,
        album_find: Option<String>,
        album_replace: Option<String>,
        album_artist_find: Option<String>,
        album_artist_replace: Option<String>,
        flags: Option<String>,
        require_confirmation: bool,
    },
    RemoveRule { index: Option<usize>, name: Option<String>, all: bool },
    SetAnchor { tracks: u32 },
    SetAnchorTimestamp { timestamp: String },
    ShowRecentTracks { limit: usize },
    RefreshCache { pages: usize },
    ExtendCache { pages: usize },
}

/// The command-line arguments.
#[derive(Debug, Clone, PartialEq)]
pub struct Args {
    pub config: Option<String>,
    pub state_file: Option<String>,
    pub lastfm_username: Option<String>,
    pub lastfm_password: Option<String>,
    pub enable_openai: bool,
    pub openai_api_key: Option<String>,
    pub providers: Vec<ProviderType>,
    pub command: Commands,
}

/// The flags common to the processing commands, applied to the scrubber settings.
pub open spec fn apply_flags(
    c: ScrubberConfig,
    dry_run: bool,
    require_confirmation: bool,
    require_proposed_rule_confirmation: bool,
    enable_web_interface: bool,
    web_port: Option<u16>,
) -> ScrubberConfig {
    ScrubberConfig {
        dry_run: c.dry_run || dry_run,
        require_confirmation: c.require_confirmation || require_confirmation,
        require_proposed_rule_confirmation: c.require_proposed_rule_confirmation
            || require_proposed_rule_confirmation,
        enable_web_interface: c.enable_web_interface || enable_web_interface,
        web_port: match web_port {
            Some(p) => p,
            None => c.web_port,
        },
        ..c
    }
}

/// The scrubber settings after the command's own options.
pub open spec fn apply_command(c: ScrubberConfig, cmd: Commands) -> ScrubberConfig {
    match cmd {
        Commands::Run {
            interval,
            dry_run,
            require_confirmation,
            require_proposed_rule_confirmation,
            enable_web_interface,
            web_port,
        } => apply_flags(
            ScrubberConfig {
                interval: match interval {
                    Some(i) => i,
                    None => c.interval,
                },
                ..c
            },
            dry_run,
            require_confirmation,
            require_proposed_rule_confirmation,
            enable_web_interface,
            web_port,
        ),
        Commands::Once {
            dry_run,
            require_confirmation,
            require_proposed_rule_confirmation,
            enable_web_interface,
            web_port,
            ..
        } => apply_flags(
            c,
            dry_run,
            require_confirmation,
            require_proposed_rule_confirmation,
            enable_web_interface,
            web_port,
        ),
        Commands::LastN {
            dry_run,
            require_confirmation,
            require_proposed_rule_confirmation,
            enable_web_interface,
            web_port,
            ..
        } => apply_flags(
            c,
            dry_run,
            require_confirmation,
            require_proposed_rule_confirmation,
            enable_web_interface,
            web_port,
        ),
        Commands::Artist {
            dry_run,
            require_confirmation,
            require_proposed_rule_confirmation,
            enable_web_interface,
            web_port,
            ..
        } => apply_flags(
            c,
            dry_run,
            require_confirmation,
            require_proposed_rule_confirmation,
            enable_web_interface,
            web_port,
        ),
        Commands::Web { port } => ScrubberConfig {
            enable_web_interface: true,
            web_port: match port {
                Some(p) => p,
                None => c.web_port,
            },
            ..c
        },
        _ => c,
    }
}

/// The Last.fm user name once the command line is applied.
pub open spec fn merged_username(c: ScrobbleScrubberConfig, a: Args) -> Seq<char> {
    match a.lastfm_username {
        Some(u) => u@,
        None => c.lastfm.username@,
    }
}

/// Some provider of the given kind was named.
pub open spec fn names_musicbrainz(ps: Seq<ProviderType>) -> bool {
    exists|i: int| 0 <= i < ps.len() && ps[i] is Musicbrainz
}

/// Some provider of the given kind was named.
pub open spec fn names_openai(ps: Seq<ProviderType>) -> bool {
    exists|i: int| 0 <= i < ps.len() && ps[i] is Openai
}

/// The model of the OpenAI settings.
pub open spec fn openai_view(o: Option<OpenAIProviderConfig>) -> Option<(Seq<char>, Option<Seq<char>>, Option<Seq<char>>)> {
    match o {
        Some(x) => Some((x.api_key@, opt_view(x.model), opt_view(x.system_prompt))),
        None => None,
    }
}

/// The configuration after the command line is merged in, by the texts and flags it ends with.
/// `user_state_file` is the per-user state file for the merged user name.
pub open spec fn merged_ok(
    c: ScrobbleScrubberConfig,
    a: Args,
    user_state_file: Seq<char>,
    r: ScrobbleScrubberConfig,
) -> bool {
    let sc = apply_command(c.scrubber, a.command);
    &&& r.scrubber.interval == sc.interval
    &&& r.scrubber.dry_run == sc.dry_run
    &&& r.scrubber.require_confirmation == sc.require_confirmation
    &&& r.scrubber.require_proposed_rule_confirmation == sc.require_proposed_rule_confirmation
    &&& r.scrubber.enable_web_interface == sc.enable_web_interface
    &&& r.scrubber.web_port == sc.web_port
    &&& r.scrubber.track_provider@ == c.scrubber.track_provider@
    &&& r.lastfm.username@ == merged_username(c, a)
    &&& r.lastfm.password@ == match a.lastfm_password {
        Some(p) => p@,
        None => c.lastfm.password@,
    }
    &&& r.lastfm.base_url@ == c.lastfm.base_url@
    &&& r.storage.state_file@ == match a.state_file {
        Some(f) => f@,
        None => if merged_username(c, a).len() > 0 {
            user_state_file
        } else {
            c.storage.state_file@
        },
    }
    &&& openai_view(r.providers.openai) == match a.openai_api_key {
        Some(k) => match c.providers.openai {
            Some(o) => Some((k@, opt_view(o.model), opt_view(o.system_prompt))),
            None => Some((k@, None, None)),
        },
        None => openai_view(c.providers.openai),
    }
    &&& if a.providers@.len() > 0 {
        &&& !r.providers.enable_rewrite_rules
        &&& !r.providers.enable_http
        &&& r.providers.enable_musicbrainz == names_musicbrainz(a.providers@)
        &&& r.providers.enable_openai == names_openai(a.providers@)
    } else {
        &&& r.providers.enable_rewrite_rules == c.providers.enable_rewrite_rules
        &&& r.providers.enable_http == c.providers.enable_http
        &&& r.providers.enable_musicbrainz == c.providers.enable_musicbrainz
        &&& r.providers.enable_openai == (c.providers.enable_openai || a.enable_openai)
    }
}

/// The Last.fm user name once the command line is applied: the one given there, else the
/// configured one.
pub fn effective_username(config: &ScrobbleScrubberConfig, args: &Args) -> (r: String)
    ensures
        r@ == merged_username(*config, *args),
{
    match &args.lastfm_username {
        Some(u) => u.clone(),
        None => config.lastfm.username.clone(),
    }
}

/// The common processing flags: each given flag switches its setting on; a given port replaces
/// the configured one.
fn apply_common_flags(
    c: &mut ScrubberConfig,
    dry_run: bool,
    require_confirmation: bool,
    require_proposed_rule_confirmation: bool,
    enable_web_interface: bool,
    web_port: Option<u16>,
)
    ensures
        *final(c) == apply_flags(
            *old(c),
            dry_run,
            require_confirmation,
            require_proposed_rule_confirmation,
            enable_web_interface,
            web_port,
        ),
{
    if dry_run {
        c.dry_run = true;
    }
    if require_confirmation {
        c.require_confirmation = true;
    }
    if require_proposed_rule_confirmation {
        c.require_proposed_rule_confirmation = true;
    }
    if enable_web_interface {
        c.enable_web_interface = true;
    }
    if let Some(p) = web_port {
        c.web_port = p;
    }
}

/// Applies the command's own options to the scrubber settings.
fn apply_command_options(c: &mut ScrubberConfig, command: &Commands)
    ensures
        *final(c) == apply_command(*old(c), *command),
{
    match command {
        Commands::Run {
            interval,
            dry_run,
            require_confirmation,
            require_proposed_rule_confirmation,
            enable_web_interface,
            web_port,
        } => {
            if let Some(i) = interval {
                c.interval = *i;
            }
            apply_common_flags(
                c,
                *dry_run,
                *require_confirmation,
                *require_proposed_rule_confirmation,
                *enable_web_interface,
                *web_port,
            );
        },
        Commands::Once {
            dry_run,
            require_confirmation,
            require_proposed_rule_confirmation,
            enable_web_interface,
            web_port,
            ..
        } => {
            apply_common_flags(
                c,
                *dry_run,
                *require_confirmation,
                *require_proposed_rule_confirmation,
                *enable_web_interface,
                *web_port,
            );
        },
        Commands::LastN {
            dry_run,
            require_confirmation,
            require_proposed_rule_confirmation,
            enable_web_interface,
            web_port,
            ..
        } => {
            apply_common_flags(
                c,
                *dry_run,
                *require_confirmation,
                *require_proposed_rule_confirmation,
                *enable_web_interface,
                *web_port,
            );
        },
        Commands::Artist {
            dry_run,
            require_confirmation,
            require_proposed_rule_confirmation,
            enable_web_interface,
            web_port,
            ..
        } => {
            apply_common_flags(
                c,
                *dry_run,
                *require_confirmation,
                *require_proposed_rule_confirmation,
                *enable_web_interface,
                *web_port,
            );
        },
        Commands::Web { port } => {
            c.enable_web_interface = true;
            if let Some(p) = port {
                c.web_port = *p;
            }
        },
        _ => {},
    }
}

/// Switches on exactly the named providers.
fn select_providers(p: &mut ProvidersConfig, providers: &Vec<ProviderType>)
    ensures
        !final(p).enable_rewrite_rules,
        !final(p).enable_http,
        final(p).enable_musicbrainz == names_musicbrainz(providers@),
        final(p).enable_openai == names_openai(providers@),
        final(p).openai == old(p).openai,
{
    p.enable_rewrite_rules = false;
    p.enable_openai = false;
    p.enable_musicbrainz = false;
    p.enable_http = false;
    let mut i: usize = 0;
    while i < providers.len()
        invariant
            i <= providers@.len(),
            !p.enable_rewrite_rules,
            !p.enable_http,
            p.openai == old(p).openai,
            p.enable_musicbrainz == exists|j: int| 0 <= j < i && providers@[j] is Musicbrainz,
            p.enable_openai == exists|j: int| 0 <= j < i && providers@[j] is Openai,
        decreases providers@.len() - i,
    {
        match &providers[i] {
            ProviderType::Musicbrainz => {
                p.enable_musicbrainz = true;
            },
            ProviderType::Openai => {
                p.enable_openai = true;
            },
        }
        i = i + 1;
    }
}

/// Merges the command line into the configuration: first the command's own options, then the
/// global ones; then, when no state file was given and a user name is known, the per-user state
/// file; then the OpenAI key; and when providers are named, exactly those are switched on.
pub fn merge_args_into_config(
    config: ScrobbleScrubberConfig,
    args: &Args,
    user_state_file: String,
) -> (r: ScrobbleScrubberConfig)
    ensures
        merged_ok(config, *args, user_state_file@, r),
{
    let mut config = config;
    apply_command_options(&mut config.scrubber, &args.command);
    if let Some(f) = &args.state_file {
        config.storage.state_file = f.clone();
    }
    if let Some(u) = &args.lastfm_username {
        config.lastfm.username = u.clone();
    }
    if let Some(p) = &args.lastfm_password {
        config.lastfm.password = p.clone();
    }
    if args.enable_openai {
        config.providers.enable_openai = true;
    }
    if args.state_file.is_none() && !config.lastfm.username.as_str().is_empty() {
        config.storage.state_file = user_state_file;
    }
    if let Some(key) = &args.openai_api_key {
        match config.providers.openai {
            None => {
                config.providers.openai = Some(
                    OpenAIProviderConfig { api_key: key.clone(), model: None, system_prompt: None },
                );
            },
            Some(o) => {
                config.providers.openai = Some(OpenAIProviderConfig { api_key: key.clone(), ..o });
            },
        }
    }
    if args.providers.len() > 0 {
        select_providers(&mut config.providers, &args.providers);
    }
    config
}

/// The configuration changes that force the scrubber to restart: any of its run settings,
/// provider switches or settings, state file or account. The MusicBrainz provider settings are
/// compared by the caller and passed in as `musicbrainz_changed`.
pub open spec fn restart_needed(
    old: Option<ScrobbleScrubberConfig>,
    new: ScrobbleScrubberConfig,
    musicbrainz_changed: bool,
) -> bool {
    match old {
        None => true,
        Some(o) => o.scrubber.interval != new.scrubber.interval || o.scrubber.dry_run != new.scrubber.dry_run
            || o.scrubber.track_provider@ != new.scrubber.track_provider@ || o.providers.enable_rewrite_rules
            != new.providers.enable_rewrite_rules || o.providers.enable_openai != new.providers.enable_openai
            || o.providers.enable_musicbrainz != new.providers.enable_musicbrainz || openai_view(
            o.providers.openai,
        ) != openai_view(new.providers.openai) || musicbrainz_changed || o.storage.state_file@
            != new.storage.state_file@ || o.lastfm.username@ != new.lastfm.username@ || o.lastfm.password@
            != new.lastfm.password@ || o.lastfm.base_url@ != new.lastfm.base_url@,
    }
}

/// Whether two optional texts are equal.
fn opt_text_eq(a: &Option<String>, b: &Option<String>) -> (r: bool)
    ensures
        r == (opt_view(*a) == opt_view(*b)),
{
    match (a, b) {
        (Some(x), Some(y)) => *x == *y,
        (None, None) => true,
        _ => false,
    }
}

/// Whether two OpenAI settings are equal.
fn openai_eq(a: &Option<OpenAIProviderConfig>, b: &Option<OpenAIProviderConfig>) -> (r: bool)
    ensures
        r == (openai_view(*a) == openai_view(*b)),
{
    match (a, b) {
        (Some(x), Some(y)) => x.api_key == y.api_key && opt_text_eq(&x.model, &y.model) && opt_text_eq(
            &x.system_prompt,
            &y.system_prompt,
        ),
        (None, None) => true,
        _ => false,
    }
}

/// Whether a configuration change needs the scrubber to restart.
pub fn check_if_scrubber_restart_needed(
    old_config: &Option<ScrobbleScrubberConfig>,
    new_config: &ScrobbleScrubberConfig,
    musicbrainz_changed: bool,
) -> (r: bool)
    ensures
        r == restart_needed(*old_config, *new_config, musicbrainz_changed),
{
    match old_config {
        None => true,
        Some(o) => o.scrubber.interval != new_config.scrubber.interval || o.scrubber.dry_run
            != new_config.scrubber.dry_run || !(o.scrubber.track_provider == new_config.scrubber.track_provider)
            || o.providers.enable_rewrite_rules != new_config.providers.enable_rewrite_rules
            || o.providers.enable_openai != new_config.providers.enable_openai
            || o.providers.enable_musicbrainz != new_config.providers.enable_musicbrainz || !openai_eq(
            &o.providers.openai,
            &new_config.providers.openai,
        ) || musicbrainz_changed || !(o.storage.state_file == new_config.storage.state_file) || !(
        o.lastfm.username == new_config.lastfm.username) || !(o.lastfm.password == new_config.lastfm.password)
            || !(o.lastfm.base_url == new_config.lastfm.base_url),
    }
}

/// Copies optional OpenAI settings.
pub fn copy_openai(o: &Option<OpenAIProviderConfig>) -> (r: Option<OpenAIProviderConfig>)
    ensures
        r == *o,
{
    match o {
        Some(x) => Some(
            OpenAIProviderConfig {
                api_key: x.api_key.clone(),
                model: copy_opt_string(&x.model),
                system_prompt: copy_opt_string(&x.system_prompt),
            },
        ),
        None => None,
    }
}

/// How the last-N command describes its mode.
pub open spec fn last_n_mode_text(rule_focus: bool, no_existing_rules: bool) -> Seq<char> {
    if rule_focus && no_existing_rules {
        " (PATTERN ANALYSIS MODE - rule focus, no existing rules)"@
    } else if rule_focus {
        " (rule focus mode)"@
    } else if no_existing_rules {
        " (no existing rules)"@
    } else {
        ""@
    }
}

/// How the last-N command describes its mode.
pub fn last_n_mode_info(rule_focus: bool, no_existing_rules: bool) -> (r: &'static str)
    ensures
        r@ == last_n_mode_text(rule_focus, no_existing_rules),
{
    if rule_focus && no_existing_rules {
        " (PATTERN ANALYSIS MODE - rule focus, no existing rules)"
    } else if rule_focus {
        " (rule focus mode)"
    } else if no_existing_rules {
        " (no existing rules)"
    } else {
        ""
    }
}

/// Which suggestion providers a run uses.
#[derive(Debug, Clone, PartialEq)]
pub struct ProviderSelection {
    /// The rewrite rules suggest edits.
    pub rewrite_rules: bool,
    /// The OpenAI provider's settings, when it suggests edits.
    pub openai: Option<OpenAIProviderConfig>,
    /// The OpenAI provider runs in rule-focus mode.
    pub openai_rule_focus: bool,
    /// MusicBrainz suggests corrections.
    pub musicbrainz: bool,
    /// The names of the providers reported as active, in order.
    pub active: Vec<String>,
}

/// The last-N command asked to leave the existing rewrite rules out.
pub open spec fn skips_existing_rules(cmd: Commands) -> bool {
    cmd matches Commands::LastN { no_existing_rules, .. } && no_existing_rules
}

/// The last-N command asked for rule-focus mode.
pub open spec fn asks_rule_focus(cmd: Commands) -> bool {
    cmd matches Commands::LastN { rule_focus, .. } && rule_focus
}

/// The OpenAI settings a run uses: those of the configuration, else those from the environment,
/// and none when the provider is off.
pub open spec fn chosen_openai(p: ProvidersConfig, env_openai: Option<OpenAIProviderConfig>) -> Option<OpenAIProviderConfig> {
    if !p.enable_openai {
        None
    } else if p.openai is Some {
        p.openai
    } else {
        env_openai
    }
}

/// The names of the providers reported as active.
pub open spec fn active_provider_names(p: ProvidersConfig, cmd: Commands) -> Seq<Seq<char>> {
    (if p.enable_rewrite_rules && !skips_existing_rules(cmd) { seq!["RewriteRules"@] } else { Seq::empty() })
        + (if p.enable_openai { seq!["OpenAI"@] } else { Seq::empty() })
        + (if p.enable_musicbrainz { seq!["MusicBrainz"@] } else { Seq::empty() })
        + (if p.enable_http { seq!["HTTP"@] } else { Seq::empty() })
}

/// Decides the suggestion providers of a run from the provider settings and the command;
/// `env_openai` holds the OpenAI settings that the environment gives, used when the
/// configuration has none.
pub fn suggestion_providers(
    p: &ProvidersConfig,
    command: &Commands,
    env_openai: Option<OpenAIProviderConfig>,
) -> (r: ProviderSelection)
    ensures
        r.rewrite_rules == (p.enable_rewrite_rules && !skips_existing_rules(*command)),
        r.openai == chosen_openai(*p, env_openai),
        r.openai_rule_focus == (r.openai is Some && asks_rule_focus(*command)),
        r.musicbrainz == p.enable_musicbrainz,
        lines_of(r.active@) == active_provider_names(*p, *command),
{
    let (skip, focus) = match command {
        Commands::LastN { rule_focus, no_existing_rules, .. } => (*no_existing_rules, *rule_focus),
        _ => (false, false),
    };
    let rewrite_rules = p.enable_rewrite_rules && !skip;
    let openai = if !p.enable_openai {
        None
    } else if p.openai.is_some() {
        copy_openai(&p.openai)
    } else {
        env_openai
    };
    let openai_rule_focus = openai.is_some() && focus;
    let mut active: Vec<String> = Vec::new();
    if rewrite_rules {
        active.push(string_of("RewriteRules"));
    }
    let ghost a1 = lines_of(active@);
    if p.enable_openai {
        active.push(string_of("OpenAI"));
    }
    proof {
        assert(lines_of(active@) =~= a1 + (if p.enable_openai { seq!["OpenAI"@] } else { Seq::<Seq<char>>::empty() }));
    }
    let ghost a2 = lines_of(active@);
    if p.enable_musicbrainz {
        active.push(string_of("MusicBrainz"));
    }
    proof {
        assert(lines_of(active@) =~= a2 + (if p.enable_musicbrainz { seq!["MusicBrainz"@] } else { Seq::<Seq<char>>::empty() }));
    }
    let ghost a3 = lines_of(active@);
    if p.enable_http {
        active.push(string_of("HTTP"));
    }
    proof {
        assert(lines_of(active@) =~= a3 + (if p.enable_http { seq!["HTTP"@] } else { Seq::<Seq<char>>::empty() }));
        assert(a1 =~= (if rewrite_rules { seq!["RewriteRules"@] } else { Seq::<Seq<char>>::empty() }));
        assert(lines_of(active@) =~= active_provider_names(*p, *command));
    }
    ProviderSelection { rewrite_rules, openai, openai_rule_focus, musicbrainz: p.enable_musicbrainz, active }
}

} // verus!
