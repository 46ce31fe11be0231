use media_auth::build_auth_url;
use media_auth::discord_message_url;
use media_auth::exchange_code_body;
use media_auth::format_track_line;
use media_auth::refresh_body;
use media_auth::token_endpoint_url;

#[test]
fn auth_url_is_exact() {
    let url = build_auth_url("abc", "http://localhost/cb", "xyz", "CH");
    assert_eq!(
        url,
        "https://accounts.spotify.com/authorize?response_type=code&client_id=abc\
         &redirect_uri=http%3A%2F%2Flocalhost%2Fcb\
         &scope=user-read-email+user-read-private+playlist-read-private+user-library-read\
         &state=xyz&code_challenge_method=S256&code_challenge=CH"
    );
}

#[test]
fn form_encoding_handles_reserved_and_unreserved_bytes() {
    let url = build_auth_url("a b", "c~d", "e*f-g.h_i", "j=k&l");
    assert!(url.contains("client_id=a+b"));
    assert!(url.contains("redirect_uri=c%7Ed"));
    assert!(url.contains("state=e*f-g.h_i"));
    assert!(url.contains("code_challenge=j%3Dk%26l"));
}

#[test]
fn form_encoding_escapes_multibyte_characters_bytewise() {
    let url = build_auth_url("\u{e9}", "cb", "s", "c");
    assert!(url.contains("client_id=%C3%A9"));
}

#[test]
fn exchange_body_is_exact() {
    let body = exchange_code_body("thecode", "http://localhost/cb", "abc", "ver123");
    assert_eq!(
        body,
        "grant_type=authorization_code&code=thecode\
         &redirect_uri=http%3A%2F%2Flocalhost%2Fcb&client_id=abc&code_verifier=ver123"
    );
}

#[test]
fn refresh_body_is_exact() {
    assert_eq!(
        refresh_body("r0", "abc"),
        "grant_type=refresh_token&refresh_token=r0&client_id=abc"
    );
}

#[test]
fn form_urlencode_encodes_a_bare_string() {
    assert_eq!(media_auth::form_urlencode("a b/c"), "a+b%2Fc");
    assert_eq!(media_auth::form_urlencode(""), "");
    assert_eq!(media_auth::form_urlencode("AZaz09*-._"), "AZaz09*-._");
}

#[test]
fn token_endpoint_is_fixed() {
    assert_eq!(token_endpoint_url(), "https://accounts.spotify.com/api/token");
}

#[test]
fn message_url_embeds_channel() {
    assert_eq!(
        discord_message_url("12345"),
        "https://discord.com/api/v10/channels/12345/messages"
    );
}

#[test]
fn track_line_joins_artists() {
    let artists = vec!["A".to_string(), "B".to_string(), "C".to_string()];
    assert_eq!(format_track_line("Song", &artists), "Song - A, B, C");
    let one = vec!["A".to_string()];
    assert_eq!(format_track_line("Song", &one), "Song - A");
    let none: Vec<String> = vec![];
    assert_eq!(format_track_line("Song", &none), "Song - ");
}
