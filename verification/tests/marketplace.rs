use scarab_client::marketplace::installer::{status_text, InstallProgress, InstallStatus};
use scarab_client::marketplace::overlay::{format_number, MarketplaceState};
use scarab_client::marketplace::plugin_card::{render_stars, truncate};
use scarab_client::marketplace::search::{
    apply_filters, plugin_matches_category, plugin_matches_query, sort_plugins, PluginInfo, SearchState,
    SortOrder,
};

fn plugin(name: &str, description: &str, author: &str, tags: &[&str], downloads: u64) -> PluginInfo {
    PluginInfo {
        name: name.to_string(),
        description: description.to_string(),
        author: author.to_string(),
        license: "MIT".to_string(),
        latest_version: "1.0.0".to_string(),
        tags: tags.iter().map(|t| t.to_string()).collect(),
        downloads,
        downloads_recent: 0,
        rating_key: 4.0f32.to_bits(),
        rating_count: 10,
        updated_at: 0,
    }
}

fn create_test_plugin() -> PluginInfo {
    plugin("test-plugin", "A test plugin", "test-author", &["test"], 0)
}

fn named(name: &str, downloads: u64) -> PluginInfo {
    plugin(name, &format!("Plugin {}", name), "author", &[], downloads)
}

#[test]
fn test_truncate() {
    assert_eq!(truncate("short", 10), "short");
    assert_eq!(truncate("this is a very long string", 10), "this is...");
    assert_eq!(truncate("exact", 5), "exact");
}

#[test]
fn truncate_with_tiny_limit_keeps_only_the_ellipsis() {
    assert_eq!(truncate("abcdef", 2), "...");
    assert_eq!(truncate("abcd", 3), "...");
}

#[test]
fn stars_for_whole_and_half_ratings() {
    assert_eq!(render_stars(5, false), "★★★★★");
    assert_eq!(render_stars(4, true), "★★★★⯨");
    assert_eq!(render_stars(3, false), "★★★☆☆");
    assert_eq!(render_stars(0, false), "☆☆☆☆☆");
}

#[test]
fn test_install_progress_lifecycle() {
    let mut progress = InstallProgress::default();
    assert!(!progress.is_active());
    assert_eq!(progress.status, InstallStatus::Idle);

    progress.start_installation("test-plugin".to_string(), None);
    assert!(progress.is_active());
    assert_eq!(progress.status, InstallStatus::Downloading);
    assert_eq!(progress.progress, 0);

    progress.set_progress(50);
    assert_eq!(progress.progress, 50);

    progress.complete();
    assert!(!progress.is_active());
    assert_eq!(progress.status, InstallStatus::Complete);
    assert_eq!(progress.progress, 100);
}

#[test]
fn test_install_progress_failure() {
    let mut progress = InstallProgress::default();
    progress.start_installation("test-plugin".to_string(), None);
    assert!(progress.is_active());
    progress.fail("Network error".to_string());
    assert!(!progress.is_active());
    assert!(matches!(progress.status, InstallStatus::Failed(_)));
}

#[test]
fn test_progress_clamping() {
    let mut progress = InstallProgress::default();
    progress.set_progress(150);
    assert_eq!(progress.progress, 100);
}

#[test]
fn test_status_text() {
    assert_eq!(status_text(&InstallStatus::Idle), "Idle");
    assert_eq!(status_text(&InstallStatus::Downloading), "Downloading...");
    assert_eq!(status_text(&InstallStatus::Complete), "Complete");
    assert_eq!(status_text(&InstallStatus::Failed("error".to_string())), "Failed");
}

#[test]
fn elapsed_time_runs_from_start_to_end() {
    let mut progress = InstallProgress::default();
    progress.start_installation_at("p".to_string(), None, 100);
    assert_eq!(progress.elapsed_seconds_at(130), 30);
    progress.complete_at(142);
    assert_eq!(progress.elapsed_seconds_at(500), 42);
}

#[test]
fn test_marketplace_state_navigation() {
    let mut state = MarketplaceState::default();
    state.filtered_plugins = vec![named("plugin1", 0), named("plugin2", 0), named("plugin3", 0)];
    assert_eq!(state.selected_index, 0);
    state.select_next();
    assert_eq!(state.selected_index, 1);
    state.select_next();
    assert_eq!(state.selected_index, 2);
    state.select_next();
    assert_eq!(state.selected_index, 0);
    state.select_previous();
    assert_eq!(state.selected_index, 2);
}

#[test]
fn test_category_navigation() {
    let mut state = MarketplaceState::default();
    assert_eq!(state.category, "All");
    state.next_category();
    assert_eq!(state.category, "Prompt");
    state.prev_category();
    assert_eq!(state.category, "All");
    state.prev_category();
    assert_eq!(state.category, "Network");
}

#[test]
fn test_format_number() {
    assert_eq!(format_number(1234), "1,234");
    assert_eq!(format_number(1234567), "1,234,567");
    assert_eq!(format_number(42), "42");
}

#[test]
fn format_number_edges() {
    assert_eq!(format_number(0), "0");
    assert_eq!(format_number(999), "999");
    assert_eq!(format_number(1000), "1,000");
    assert_eq!(format_number(u64::MAX), "18,446,744,073,709,551,615");
}

#[test]
fn test_search_state() {
    let mut state = SearchState::default();
    state.push_char('t');
    state.push_char('e');
    state.push_char('s');
    state.push_char('t');
    assert_eq!(state.query, "test");
    state.pop_char();
    assert_eq!(state.query, "tes");
    state.clear();
    assert!(state.query.is_empty());
}

#[test]
fn test_plugin_matches_query() {
    let plugin = create_test_plugin();
    assert!(plugin_matches_query(&plugin, "test"));
    assert!(plugin_matches_query(&plugin, "TEST"));
    assert!(plugin_matches_query(&plugin, "plugin"));
    assert!(plugin_matches_query(&plugin, "author"));
    assert!(!plugin_matches_query(&plugin, "nonexistent"));
}

#[test]
fn test_plugin_matches_category() {
    let mut plugin = create_test_plugin();
    plugin.tags = vec!["git".to_string(), "vcs".to_string()];
    assert!(plugin_matches_category(&plugin, "All"));
    assert!(plugin_matches_category(&plugin, "VCS"));
    assert!(!plugin_matches_category(&plugin, "DevOps"));
}

#[test]
fn test_apply_filters() {
    let plugins = vec![named("popular", 10000), named("unpopular", 100), named("medium", 5000)];
    let mut search = SearchState::default();
    search.sort = SortOrder::Popular;
    let filtered = apply_filters(&plugins, &search, "All");
    assert_eq!(filtered[0].name, "popular");
    assert_eq!(filtered[1].name, "medium");
    assert_eq!(filtered[2].name, "unpopular");
}

#[test]
fn test_sort_plugins() {
    let mut plugins = vec![named("a", 100), named("c", 300), named("b", 200)];
    sort_plugins(&mut plugins, SortOrder::Name);
    assert_eq!(plugins[0].name, "a");
    assert_eq!(plugins[1].name, "b");
    assert_eq!(plugins[2].name, "c");
    sort_plugins(&mut plugins, SortOrder::Popular);
    assert_eq!(plugins[0].name, "c");
    assert_eq!(plugins[1].name, "b");
    assert_eq!(plugins[2].name, "a");
}

#[test]
fn sort_keeps_equal_keys_in_order() {
    let mut plugins = vec![named("x", 5), named("y", 7), named("z", 5)];
    sort_plugins(&mut plugins, SortOrder::Popular);
    let names: Vec<&str> = plugins.iter().map(|p| p.name.as_str()).collect();
    assert_eq!(names, vec!["y", "x", "z"]);
}

#[test]
fn filters_by_query_and_category() {
    let plugins = vec![
        plugin("git-helper", "Git tools", "a", &["git"], 1),
        plugin("prompt-x", "Prompt", "b", &["prompt"], 2),
    ];
    let mut search = SearchState::default();
    search.set_query("GIT".to_string());
    let r = apply_filters(&plugins, &search, "All");
    assert_eq!(r.len(), 1);
    assert_eq!(r[0].name, "git-helper");
    let none = apply_filters(&plugins, &search, "Prompt");
    assert!(none.is_empty());
}
