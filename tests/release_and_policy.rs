use mq_update::error::UpdateError;
use mq_update::policy::{
    confirmation_outcome, parse_version_output, plan_update, should_update, verify_installed,
    Decision, Installation, Product, Report, Verification,
};
use mq_update::release::{
    asset_name, asset_names, check_download_status, check_release_status, normalize_tag,
    release_url, select_asset, Asset, Release,
};

fn asset(name: &str) -> Asset {
    Asset { name: name.to_string(), download_url: format!("https://example.com/{}", name) }
}

fn release(tag: &str, names: &[&str]) -> Release {
    Release { tag: tag.to_string(), assets: names.iter().map(|n| asset(n)).collect() }
}

#[test]
fn tags_get_a_leading_v() {
    assert_eq!(normalize_tag("0.5.12"), "v0.5.12");
    assert_eq!(normalize_tag("v0.5.12"), "v0.5.12");
    assert_eq!(normalize_tag(""), "v");
}

#[test]
fn release_urls() {
    assert_eq!(
        release_url("harehare/mq", None),
        "https://api.github.com/repos/harehare/mq/releases/latest"
    );
    assert_eq!(
        release_url("harehare/mq", Some("0.5.12")),
        "https://api.github.com/repos/harehare/mq/releases/tags/v0.5.12"
    );
    assert_eq!(
        release_url("harehare/mq-check", Some("v0.1.0")),
        "https://api.github.com/repos/harehare/mq-check/releases/tags/v0.1.0"
    );
}

#[test]
fn release_statuses() {
    assert!(check_release_status(200).is_ok());
    assert!(check_release_status(299).is_ok());
    assert!(matches!(check_release_status(404), Err(UpdateError::NotFound)));
    assert!(matches!(check_release_status(500), Err(UpdateError::Network { status: 500 })));
    assert!(matches!(check_release_status(302), Err(UpdateError::Network { status: 302 })));
}

#[test]
fn download_statuses() {
    assert!(check_download_status(200).is_ok());
    assert!(matches!(check_download_status(404), Err(UpdateError::Network { status: 404 })));
    assert!(matches!(check_download_status(199), Err(UpdateError::Network { status: 199 })));
}

#[test]
fn release_version_drops_the_v() {
    assert_eq!(release("v0.5.12", &[]).version(), "0.5.12");
    assert_eq!(release("0.5.12", &[]).version(), "0.5.12");
}

#[test]
fn asset_name_joins_binary_and_triple() {
    assert_eq!(asset_name("bin", "x86_64-unknown-linux-gnu"), "bin-x86_64-unknown-linux-gnu");
}

#[test]
fn selector_finds_the_matching_asset() {
    let assets = release("v1", &["bin-x86_64-unknown-linux-gnu"]).assets;
    match select_asset(&assets, "bin", "x86_64-unknown-linux-gnu") {
        Ok(a) => {
            assert_eq!(a.name, "bin-x86_64-unknown-linux-gnu");
            assert_eq!(a.download_url, "https://example.com/bin-x86_64-unknown-linux-gnu");
        }
        Err(_) => panic!("asset not selected"),
    }
}

#[test]
fn selector_reports_missing_asset_with_available_names() {
    let assets = release("v1", &["bin-x86_64-unknown-linux-gnu"]).assets;
    match select_asset(&assets, "bin", "aarch64-apple-darwin") {
        Err(UpdateError::AssetNotFound { expected, available }) => {
            assert_eq!(expected, "bin-aarch64-apple-darwin");
            assert_eq!(available, vec!["bin-x86_64-unknown-linux-gnu".to_string()]);
        }
        _ => panic!("expected AssetNotFound"),
    }
}

#[test]
fn selector_is_exact_and_takes_the_first_match() {
    let mut assets = release("v1", &["bin-x86_64-unknown-linux-gnu.tar.gz", "bin-x86_64"]).assets;
    assert!(select_asset(&assets, "bin", "x86_64-unknown-linux-gnu").is_err());
    assets.push(Asset {
        name: "bin-x86_64-unknown-linux-gnu".to_string(),
        download_url: "first".to_string(),
    });
    assets.push(Asset {
        name: "bin-x86_64-unknown-linux-gnu".to_string(),
        download_url: "second".to_string(),
    });
    match select_asset(&assets, "bin", "x86_64-unknown-linux-gnu") {
        Ok(a) => assert_eq!(a.download_url, "first"),
        Err(_) => panic!("asset not selected"),
    }
    assert_eq!(asset_names(&assets).len(), 4);
}

#[test]
fn selector_on_no_assets() {
    match select_asset(&Vec::new(), "mq", "x86_64-apple-darwin") {
        Err(UpdateError::AssetNotFound { expected, available }) => {
            assert_eq!(expected, "mq-x86_64-apple-darwin");
            assert!(available.is_empty());
        }
        _ => panic!("expected AssetNotFound"),
    }
}

#[test]
fn product_names() {
    let p = Product::for_subcommand(None);
    assert_eq!(p.binary, "mq");
    assert_eq!(p.repository, "harehare/mq");
    let p = Product::for_subcommand(Some("check"));
    assert_eq!(p.binary, "mq-check");
    assert_eq!(p.repository, "harehare/mq-check");
}

#[test]
fn equal_versions_skip_the_update() {
    assert!(!should_update(Some("0.5.12"), "0.5.12", false, false));
}

#[test]
fn version_comparison_is_textual() {
    assert!(should_update(Some("0.5.2"), "0.5.12", false, false));
    assert!(should_update(Some("0.6.0"), "0.5.12", false, false));
}

#[test]
fn force_and_new_install_always_update() {
    assert!(should_update(Some("0.5.12"), "0.5.12", true, false));
    assert!(should_update(None, "0.5.12", false, true));
    assert!(should_update(None, "0.5.12", false, false));
}

#[test]
fn plan_stops_when_up_to_date() {
    let install = Installation::existing(Some("0.5.12".to_string()));
    let rel = release("v0.5.12", &["mq-x86_64-apple-darwin"]);
    match plan_update(&install, &rel, "mq", "x86_64-apple-darwin", false) {
        Ok(Decision::UpToDate { version }) => assert_eq!(version, "0.5.12"),
        _ => panic!("expected up to date"),
    }
}

#[test]
fn plan_proceeds_for_another_version() {
    let install = Installation::existing(Some("0.5.2".to_string()));
    let rel = release("v0.5.12", &["mq-aarch64-apple-darwin", "mq-x86_64-apple-darwin"]);
    match plan_update(&install, &rel, "mq", "x86_64-apple-darwin", false) {
        Ok(Decision::Proceed(p)) => {
            assert_eq!(p.target_version, "0.5.12");
            assert_eq!(p.asset.name, "mq-x86_64-apple-darwin");
            assert!(p.needs_confirmation());
            assert_eq!(p.report(), Report::Updated);
        }
        _ => panic!("expected a plan"),
    }
}

#[test]
fn plan_forced_reinstall_skips_nothing() {
    let install = Installation::existing(Some("0.5.12".to_string()));
    let rel = release("v0.5.12", &["mq-x86_64-apple-darwin"]);
    match plan_update(&install, &rel, "mq", "x86_64-apple-darwin", true) {
        Ok(Decision::Proceed(p)) => {
            assert!(!p.needs_confirmation());
            assert_eq!(p.report(), Report::Updated);
        }
        _ => panic!("expected a plan"),
    }
}

#[test]
fn plan_for_new_install() {
    let install = Installation::new_install();
    let rel = release("v0.5.12", &["mq-x86_64-unknown-linux-gnu"]);
    match plan_update(&install, &rel, "mq", "x86_64-unknown-linux-gnu", false) {
        Ok(Decision::Proceed(p)) => {
            assert!(p.is_new_install);
            assert!(!p.needs_confirmation());
            assert_eq!(p.report(), Report::Installed);
        }
        _ => panic!("expected a plan"),
    }
}

#[test]
fn plan_without_matching_asset_fails() {
    let install = Installation::existing(Some("0.5.2".to_string()));
    let rel = release("v0.5.12", &["mq-x86_64-apple-darwin"]);
    match plan_update(&install, &rel, "mq", "aarch64-unknown-linux-musl", false) {
        Err(UpdateError::AssetNotFound { expected, available }) => {
            assert_eq!(expected, "mq-aarch64-unknown-linux-musl");
            assert_eq!(available, vec!["mq-x86_64-apple-darwin".to_string()]);
        }
        _ => panic!("expected AssetNotFound"),
    }
}

#[test]
fn confirmation_answers() {
    assert!(confirmation_outcome("").is_ok());
    assert!(confirmation_outcome("\n").is_ok());
    assert!(confirmation_outcome("y\n").is_ok());
    assert!(confirmation_outcome("  Y ").is_ok());
    assert!(matches!(confirmation_outcome("n\n"), Err(UpdateError::Cancelled)));
    assert!(matches!(confirmation_outcome("yes"), Err(UpdateError::Cancelled)));
}

#[test]
fn version_output_is_parsed() {
    assert_eq!(parse_version_output("mq 0.5.12\n").ok(), Some("0.5.12".to_string()));
    assert!(matches!(parse_version_output(" \n"), Err(UpdateError::Parse)));
}

#[test]
fn installed_version_is_verified() {
    assert!(matches!(verify_installed("mq 0.5.12\n", "0.5.12"), Verification::Confirmed));
    match verify_installed("mq 0.5.2", "0.5.12") {
        Verification::Mismatch { found } => assert_eq!(found, "0.5.2"),
        _ => panic!("expected a mismatch"),
    }
    assert!(matches!(verify_installed("", "0.5.12"), Verification::Unreadable));
}
