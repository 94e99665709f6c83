use scrobble_scrubber::config::{
    check_if_scrubber_restart_needed, copy_openai, effective_username, merge_args_into_config, Args, Commands,
    LastFmConfig, OpenAIProviderConfig, ProviderType, ProvidersConfig, ScrobbleScrubberConfig, ScrubberConfig,
    StorageConfig, suggestion_providers,
};

fn base() -> ScrobbleScrubberConfig {
    ScrobbleScrubberConfig {
        scrubber: ScrubberConfig {
            interval: 300,
            dry_run: false,
            require_confirmation: false,
            require_proposed_rule_confirmation: false,
            enable_web_interface: false,
            web_port: 8080,
            track_provider: "lastfm".to_string(),
        },
        storage: StorageConfig { state_file: "state.db".to_string() },
        lastfm: LastFmConfig {
            username: String::new(),
            password: "pw".to_string(),
            base_url: "https://www.last.fm".to_string(),
        },
        providers: ProvidersConfig {
            enable_rewrite_rules: true,
            enable_openai: false,
            enable_musicbrainz: false,
            enable_http: false,
            openai: None,
        },
    }
}

fn args(command: Commands) -> Args {
    Args {
        config: None,
        state_file: None,
        lastfm_username: None,
        lastfm_password: None,
        enable_openai: false,
        openai_api_key: None,
        providers: Vec::new(),
        command,
    }
}

#[test]
fn run_options_override_scrubber_settings() {
    let a = args(Commands::Run {
        interval: Some(60),
        dry_run: true,
        require_confirmation: false,
        require_proposed_rule_confirmation: true,
        enable_web_interface: false,
        web_port: Some(9000),
    });
    let c = merge_args_into_config(base(), &a, "unused".to_string());
    assert_eq!(c.scrubber.interval, 60);
    assert!(c.scrubber.dry_run);
    assert!(!c.scrubber.require_confirmation);
    assert!(c.scrubber.require_proposed_rule_confirmation);
    assert_eq!(c.scrubber.web_port, 9000);
    assert_eq!(c.storage.state_file, "state.db");
}

#[test]
fn flags_never_switch_settings_off() {
    let mut cfg = base();
    cfg.scrubber.dry_run = true;
    let a = args(Commands::Once {
        set_anchor_timestamp: None,
        dry_run: false,
        require_confirmation: false,
        require_proposed_rule_confirmation: false,
        enable_web_interface: false,
        web_port: None,
    });
    let c = merge_args_into_config(cfg, &a, String::new());
    assert!(c.scrubber.dry_run);
    assert_eq!(c.scrubber.web_port, 8080);
}

#[test]
fn web_command_enables_the_interface() {
    let c = merge_args_into_config(base(), &args(Commands::Web { port: Some(1234) }), String::new());
    assert!(c.scrubber.enable_web_interface);
    assert_eq!(c.scrubber.web_port, 1234);
    let d = merge_args_into_config(base(), &args(Commands::ShowRules), String::new());
    assert_eq!(d, base());
}

#[test]
fn user_name_selects_the_user_state_file() {
    let mut a = args(Commands::ShowRules);
    a.lastfm_username = Some("alice".to_string());
    a.lastfm_password = Some("secret".to_string());
    let c = merge_args_into_config(base(), &a, "/data/alice/state.db".to_string());
    assert_eq!(c.lastfm.username, "alice");
    assert_eq!(c.lastfm.password, "secret");
    assert_eq!(c.storage.state_file, "/data/alice/state.db");
    assert_eq!(effective_username(&base(), &a), "alice");
    assert_eq!(effective_username(&base(), &args(Commands::ShowRules)), "");

    a.state_file = Some("mine.db".to_string());
    let d = merge_args_into_config(base(), &a, "/data/alice/state.db".to_string());
    assert_eq!(d.storage.state_file, "mine.db");
}

#[test]
fn openai_key_and_named_providers() {
    let mut a = args(Commands::ShowRules);
    a.openai_api_key = Some("k1".to_string());
    a.enable_openai = true;
    let c = merge_args_into_config(base(), &a, String::new());
    assert!(c.providers.enable_openai);
    assert_eq!(
        c.providers.openai,
        Some(OpenAIProviderConfig { api_key: "k1".to_string(), model: None, system_prompt: None })
    );
    let mut cfg = base();
    cfg.providers.openai =
        Some(OpenAIProviderConfig { api_key: "old".to_string(), model: Some("gpt".to_string()), system_prompt: None });
    let d = merge_args_into_config(cfg, &a, String::new());
    assert_eq!(d.providers.openai.as_ref().unwrap().api_key, "k1");
    assert_eq!(d.providers.openai.as_ref().unwrap().model.as_deref(), Some("gpt"));

    let mut p = args(Commands::ShowRules);
    p.providers = vec![ProviderType::Musicbrainz];
    let e = merge_args_into_config(base(), &p, String::new());
    assert!(!e.providers.enable_rewrite_rules);
    assert!(e.providers.enable_musicbrainz);
    assert!(!e.providers.enable_openai);
    assert!(!e.providers.enable_http);
}

#[test]
fn restart_needed_on_relevant_changes() {
    let old = Some(base());
    assert!(check_if_scrubber_restart_needed(&None, &base(), false));
    assert!(!check_if_scrubber_restart_needed(&old, &base(), false));
    assert!(check_if_scrubber_restart_needed(&old, &base(), true));
    let mut n = base();
    n.scrubber.interval = 10;
    assert!(check_if_scrubber_restart_needed(&old, &n, false));
    let mut n = base();
    n.lastfm.password = "other".to_string();
    assert!(check_if_scrubber_restart_needed(&old, &n, false));
    let mut n = base();
    n.providers.openai = Some(OpenAIProviderConfig { api_key: "k".to_string(), model: None, system_prompt: None });
    assert!(check_if_scrubber_restart_needed(&old, &n, false));
    let mut n = base();
    n.scrubber.web_port = 1;
    n.scrubber.require_confirmation = true;
    assert!(!check_if_scrubber_restart_needed(&old, &n, false));
}

#[test]
fn openai_settings_copy() {
    let o = Some(OpenAIProviderConfig {
        api_key: "k".to_string(),
        model: Some("m".to_string()),
        system_prompt: Some("p".to_string()),
    });
    assert_eq!(copy_openai(&o), o);
    assert_eq!(copy_openai(&None), None);
}

fn last_n(rule_focus: bool, no_existing_rules: bool) -> Commands {
    Commands::LastN {
        tracks: 20,
        rule_focus,
        no_existing_rules,
        dry_run: false,
        require_confirmation: false,
        require_proposed_rule_confirmation: false,
        enable_web_interface: false,
        web_port: None,
    }
}

fn key(k: &str) -> OpenAIProviderConfig {
    OpenAIProviderConfig { api_key: k.to_string(), model: None, system_prompt: None }
}

#[test]
fn providers_of_a_plain_run() {
    let p = base().providers;
    let sel = suggestion_providers(&p, &Commands::ShowRules, Some(key("env")));
    assert!(sel.rewrite_rules);
    assert_eq!(sel.openai, None);
    assert!(!sel.openai_rule_focus);
    assert!(!sel.musicbrainz);
    assert_eq!(sel.active, vec!["RewriteRules"]);
}

#[test]
fn pattern_analysis_leaves_existing_rules_out() {
    let mut p = base().providers;
    p.enable_openai = true;
    p.openai = Some(key("cfg"));
    p.enable_musicbrainz = true;
    p.enable_http = true;
    let sel = suggestion_providers(&p, &last_n(true, true), Some(key("env")));
    assert!(!sel.rewrite_rules);
    assert_eq!(sel.openai, Some(key("cfg")));
    assert!(sel.openai_rule_focus);
    assert!(sel.musicbrainz);
    assert_eq!(sel.active, vec!["OpenAI", "MusicBrainz", "HTTP"]);
    let sel = suggestion_providers(&p, &last_n(false, false), None);
    assert!(sel.rewrite_rules);
    assert!(!sel.openai_rule_focus);
    assert_eq!(sel.active, vec!["RewriteRules", "OpenAI", "MusicBrainz", "HTTP"]);
}

#[test]
fn openai_settings_fall_back_to_the_environment() {
    let mut p = base().providers;
    p.enable_openai = true;
    let sel = suggestion_providers(&p, &last_n(true, false), Some(key("env")));
    assert_eq!(sel.openai, Some(key("env")));
    assert!(sel.openai_rule_focus);
    let sel = suggestion_providers(&p, &last_n(true, false), None);
    assert_eq!(sel.openai, None);
    assert!(!sel.openai_rule_focus);
    assert_eq!(sel.active, vec!["RewriteRules", "OpenAI"]);
}
