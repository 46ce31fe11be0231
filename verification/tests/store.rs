use media_auth::CredStore;
use media_auth::DiscordAuthRequest;
use media_auth::ShikimoriAuthRequest;
use media_auth::SoundcloudAuthRequest;
use media_auth::UserCredentials;
use media_auth::discord_authenticate;
use media_auth::get_config_status;
use media_auth::shikimori_authenticate;
use media_auth::soundcloud_authenticate;

fn row(service: &str, token: &str) -> UserCredentials {
    UserCredentials {
        service: service.to_string(),
        access_token: token.to_string(),
        refresh_token: None,
        expires_at: None,
    }
}

#[test]
fn get_on_empty_store_finds_nothing() {
    let store = CredStore::new();
    assert!(store.get("spotify").is_none());
    assert!(!store.contains("spotify"));
}

#[test]
fn upsert_then_get_roundtrips() {
    let mut store = CredStore::new();
    store.upsert(UserCredentials {
        service: "spotify".to_string(),
        access_token: "tok".to_string(),
        refresh_token: Some("r".to_string()),
        expires_at: Some(7),
    });
    let got = store.get("spotify").expect("row");
    assert_eq!(got.service, "spotify");
    assert_eq!(got.access_token, "tok");
    assert_eq!(got.refresh_token.as_deref(), Some("r"));
    assert_eq!(got.expires_at, Some(7));
}

#[test]
fn upsert_replaces_the_existing_row() {
    let mut store = CredStore::new();
    store.upsert(row("spotify", "old"));
    store.upsert(row("other", "kept"));
    store.upsert(UserCredentials {
        service: "spotify".to_string(),
        access_token: "new".to_string(),
        refresh_token: Some("r".to_string()),
        expires_at: Some(1),
    });
    let got = store.get("spotify").expect("row");
    assert_eq!(got.access_token, "new");
    assert_eq!(got.refresh_token.as_deref(), Some("r"));
    assert_eq!(store.get("other").expect("row").access_token, "kept");
}

#[test]
fn rows_are_keyed_per_service() {
    let mut store = CredStore::new();
    store.upsert(row("discord", "d"));
    store.upsert(row("shikimori", "s"));
    assert_eq!(store.get("discord").expect("row").access_token, "d");
    assert_eq!(store.get("shikimori").expect("row").access_token, "s");
    assert!(store.get("soundcloud").is_none());
}

#[test]
fn config_status_reports_stored_services() {
    let mut store = CredStore::new();
    let empty = get_config_status(&store);
    assert!(!empty.spotify_client && !empty.soundcloud && !empty.shikimori && !empty.discord);
    let msg = discord_authenticate(
        &mut store,
        DiscordAuthRequest { bot_token: "bot".to_string() },
    )
    .expect("connected");
    assert_eq!(msg, "Discord connected successfully");
    let msg = shikimori_authenticate(
        &mut store,
        ShikimoriAuthRequest { access_token: "shk".to_string() },
    )
    .expect("connected");
    assert_eq!(msg, "Shikimori connected successfully");
    let msg = soundcloud_authenticate(
        &mut store,
        SoundcloudAuthRequest {
            client_id: "scid".to_string(),
            redirect_uri: "http://localhost/cb".to_string(),
        },
    )
    .expect("connected");
    assert_eq!(msg, "SoundCloud connected successfully");
    let status = get_config_status(&store);
    assert!(!status.spotify_client);
    assert!(status.soundcloud && status.shikimori && status.discord);
    assert_eq!(store.get("discord").expect("row").access_token, "bot");
    assert_eq!(store.get("shikimori").expect("row").access_token, "shk");
    assert_eq!(store.get("soundcloud").expect("row").access_token, "scid");
    assert_eq!(store.get("discord").expect("row").refresh_token, None);
    assert_eq!(store.get("discord").expect("row").expires_at, None);
}
