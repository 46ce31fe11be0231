//! The static-bearer-token integrations and the small command helpers
//! around them: each of these services stores a single opaque token with no
//! refresh semantics, and the backend only reports which of them are
//! configured.

use vstd::prelude::*;

use crate::credentials::CredView;
use crate::credentials::UserCredentials;
use crate::store::CredStore;

verus! {

use vstd::string::StringExecFns;

/// Which services have a credential row stored.
pub struct ConfigStatus {
    /// Whether the reserved provider client-credentials row exists.
    pub spotify_client: bool,
    /// Whether a SoundCloud token is stored.
    pub soundcloud: bool,
    /// Whether a Shikimori token is stored.
    pub shikimori: bool,
    /// Whether a Discord bot token is stored.
    pub discord: bool,
}

/// What a caller supplies to connect the Discord integration.
pub struct DiscordAuthRequest {
    /// The bot token presented to the chat service's API.
    pub bot_token: String,
}

/// A message to post to a channel of the chat service.
pub struct DiscordMessageRequest {
    /// The channel posted to.
    pub channel_id: String,
    /// The message text.
    pub content: String,
}

/// What a caller supplies to connect the Shikimori integration.
pub struct ShikimoriAuthRequest {
    /// The bearer token presented to the service's API.
    pub access_token: String,
}

/// What a caller supplies to connect the SoundCloud integration.
pub struct SoundcloudAuthRequest {
    /// The client id presented to the service's API.
    pub client_id: String,
    /// Unused by the service's token-less API access; kept for the caller's
    /// interface.
    pub redirect_uri: String,
}

/// A static-token credential row: a single opaque token under the service's
/// name, no refresh semantics and no expiry tracked.
pub open spec fn spec_static_row(service: Seq<char>, token: Seq<char>) -> CredView {
    CredView { service, access_token: token, refresh_token: None, expires_at: None }
}

/// Reports which services have a credential row stored.
pub fn get_config_status(store: &CredStore) -> (r: ConfigStatus)
    requires
        store.wf(),
    ensures
        r.spotify_client == store@.contains_key(("spotify_client")@),
        r.soundcloud == store@.contains_key(("soundcloud")@),
        r.shikimori == store@.contains_key(("shikimori")@),
        r.discord == store@.contains_key(("discord")@),
{
    ConfigStatus {
        spotify_client: store.contains("spotify_client"),
        soundcloud: store.contains("soundcloud"),
        shikimori: store.contains("shikimori"),
        discord: store.contains("discord"),
    }
}

/// Stores the Discord bot token as that service's static credential row.
pub fn discord_authenticate(store: &mut CredStore, request: DiscordAuthRequest) -> (r: Result<
    String,
    crate::errors::AuthError,
>)
    requires
        old(store).wf(),
    ensures
        final(store).wf(),
        final(store)@ == old(store)@.insert(
            ("discord")@,
            spec_static_row(("discord")@, request.bot_token@),
        ),
        r matches Ok(m) && m@ == ("Discord connected successfully")@,
{
    store.upsert(
        UserCredentials {
            service: String::from_str("discord"),
            access_token: request.bot_token,
            refresh_token: None,
            expires_at: None,
        },
    );
    Ok(String::from_str("Discord connected successfully"))
}

/// Stores the Shikimori access token as that service's static credential
/// row.
pub fn shikimori_authenticate(store: &mut CredStore, request: ShikimoriAuthRequest) -> (r: Result<
    String,
    crate::errors::AuthError,
>)
    requires
        old(store).wf(),
    ensures
        final(store).wf(),
        final(store)@ == old(store)@.insert(
            ("shikimori")@,
            spec_static_row(("shikimori")@, request.access_token@),
        ),
        r matches Ok(m) && m@ == ("Shikimori connected successfully")@,
{
    store.upsert(
        UserCredentials {
            service: String::from_str("shikimori"),
            access_token: request.access_token,
            refresh_token: None,
            expires_at: None,
        },
    );
    Ok(String::from_str("Shikimori connected successfully"))
}

/// Stores the SoundCloud client id as that service's static credential row.
pub fn soundcloud_authenticate(store: &mut CredStore, request: SoundcloudAuthRequest) -> (r: Result<
    String,
    crate::errors::AuthError,
>)
    requires
        old(store).wf(),
    ensures
        final(store).wf(),
        final(store)@ == old(store)@.insert(
            ("soundcloud")@,
            spec_static_row(("soundcloud")@, request.client_id@),
        ),
        r matches Ok(m) && m@ == ("SoundCloud connected successfully")@,
{
    store.upsert(
        UserCredentials {
            service: String::from_str("soundcloud"),
            access_token: request.client_id,
            refresh_token: None,
            expires_at: None,
        },
    );
    Ok(String::from_str("SoundCloud connected successfully"))
}

} // verus!
