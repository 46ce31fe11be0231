//! OAuth 2.0 authorization-code-with-PKCE core for a personal media hub.
//!
//! The crate holds the protocol logic of the hub's backend: building the
//! provider authorization URL, tracking the in-flight PKCE context, turning
//! token-endpoint responses into stored credential rows, and deciding when a
//! stored access token must be refreshed. Network transport and durable
//! storage are external collaborators; the logic here is written against
//! their get/upsert and request/response contracts.

mod authorize;
mod clock;
mod credentials;
mod errors;
mod lifecycle;
mod models;
mod pkce;
mod services;
mod store;
mod urlenc;
mod wire;

pub use authorize::ExchangeRequest;
pub use authorize::SpotifyAuthMemory;
pub use authorize::SpotifyAuthRequest;
pub use authorize::spec_authorization_issued;
pub use authorize::spec_client_row;
pub use authorize::spotify_authenticate;
pub use authorize::spotify_begin_auth;
pub use authorize::spotify_complete_auth;
pub use credentials::CredView;
pub use credentials::UserCredentials;
pub use credentials::str_eq;
pub use credentials::view_opt_string;
pub use errors::AuthError;
pub use errors::spec_error_message;
pub use lifecycle::AuthState;
pub use lifecycle::REFRESH_MARGIN_SECS;
pub use lifecycle::RefreshRequest;
pub use lifecycle::TokenPlan;
pub use lifecycle::credential_state;
pub use lifecycle::ensure_access_token;
pub use lifecycle::ensure_access_token_now;
pub use lifecycle::finish_code_exchange;
pub use lifecycle::finish_refresh;
pub use lifecycle::lemma_refresh_owed;
pub use lifecycle::lemma_rotation_optional;
pub use lifecycle::lemma_valid_token_served;
pub use lifecycle::lemma_within_margin_refreshes;
pub use lifecycle::prepare_refresh;
pub use lifecycle::spec_client_service;
pub use lifecycle::spec_credential_state;
pub use lifecycle::spec_exchanged_row;
pub use lifecycle::spec_expiry;
pub use lifecycle::spec_refresh_prepared;
pub use lifecycle::spec_refreshed_row;
pub use lifecycle::spec_row_view;
pub use lifecycle::spec_token_plan_ok;
pub use lifecycle::spec_user_service;
pub use models::Anime;
pub use models::Track;
pub use models::format_track_line;
pub use models::spec_artists_joined;
pub use models::spec_track_line;
pub use pkce::challenge_of;
pub use pkce::is_b64url_char;
pub use pkce::is_valid_verifier;
pub use services::ConfigStatus;
pub use services::DiscordAuthRequest;
pub use services::DiscordMessageRequest;
pub use services::ShikimoriAuthRequest;
pub use services::SoundcloudAuthRequest;
pub use services::discord_authenticate;
pub use services::get_config_status;
pub use services::shikimori_authenticate;
pub use services::soundcloud_authenticate;
pub use services::spec_static_row;
pub use store::CredStore;
pub use urlenc::chars_of_ascii;
pub use urlenc::form_urlencode;
pub use urlenc::is_form_unreserved_byte;
pub use urlenc::spec_form_byte;
pub use urlenc::spec_form_encode;
pub use wire::TokenResponse;
pub use wire::build_auth_url;
pub use wire::discord_message_url;
pub use wire::enc;
pub use wire::exchange_code_body;
pub use wire::refresh_body;
pub use wire::spec_auth_url;
pub use wire::spec_exchange_body;
pub use wire::spec_refresh_body;
pub use wire::spec_scope;
pub use wire::token_endpoint_url;
