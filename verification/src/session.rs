//! The browser-side session cache.
//!
//! Two storage slots remember that a sign-in happened and which user it was,
//! so that the page can show the signed-in view at once on reload while the
//! identity provider re-validates the real token. `SessionRecord` holds what
//! those two slots contain; the functions below decide what is written to
//! them and how it is read back.

use vstd::prelude::*;

verus! {

/// Storage key of the "a session is active" marker.
pub const SESSION_KEY: &'static str = "privy_session_active";

/// Storage key of the signed-in user's identifier.
pub const USER_ID_KEY: &'static str = "privy_user_id";

/// The value stored under `SESSION_KEY` while a session is cached.
pub open spec fn active_marker() -> Seq<char> {
    seq!['1']
}

/// What the two session slots of the browser storage hold; `None` is an
/// absent entry.
pub struct SessionRecord {
    /// Value under `SESSION_KEY`.
    pub active: Option<String>,
    /// Value under `USER_ID_KEY`.
    pub user_id: Option<String>,
}

/// The contents of a `SessionRecord`, as character sequences.
pub struct SessionView {
    pub active: Option<Seq<char>>,
    pub user_id: Option<Seq<char>>,
}

pub open spec fn opt_view(o: Option<String>) -> Option<Seq<char>> {
    match o {
        Some(s) => Some(s@),
        None => None,
    }
}

impl View for SessionRecord {
    type V = SessionView;

    open spec fn view(&self) -> SessionView {
        SessionView { active: opt_view(self.active), user_id: opt_view(self.user_id) }
    }
}

/// The record after a session for `user_id` was saved.
pub open spec fn saved(user_id: Seq<char>) -> SessionView {
    SessionView { active: Some(active_marker()), user_id: Some(user_id) }
}

/// The record after the session was cleared.
pub open spec fn cleared() -> SessionView {
    SessionView { active: None, user_id: None }
}

/// A session is cached when the marker slot holds exactly the marker.
pub open spec fn is_cached(r: SessionView) -> bool {
    r.active == Some(active_marker())
}

/// Clones an optional string, keeping its contents.
pub fn clone_opt_string(o: &Option<String>) -> (r: Option<String>)
    ensures
        opt_view(r) == opt_view(*o),
{
    match o {
        Some(s) => Some(s.clone()),
        None => None,
    }
}

impl SessionRecord {
    /// A record of empty storage.
    pub fn empty() -> (r: SessionRecord)
        ensures
            r@ == cleared(),
    {
        SessionRecord { active: None, user_id: None }
    }
}

/// Remembers that `user_id` signed in.
pub fn save_session(storage: &mut SessionRecord, user_id: &str)
    ensures
        final(storage)@ == saved(user_id@),
{
    let marker = String::from_str("1");
    proof {
        reveal_strlit("1");
    }
    assert(marker@ =~= active_marker());
    storage.active = Some(marker);
    storage.user_id = Some(String::from_str(user_id));
}

/// Forgets the cached session.
pub fn clear_session(storage: &mut SessionRecord)
    ensures
        final(storage)@ == cleared(),
{
    storage.active = None;
    storage.user_id = None;
}

/// True if a session was saved and not cleared since.
pub fn has_cached_session(storage: &SessionRecord) -> (b: bool)
    ensures
        b == is_cached(storage@),
{
    match &storage.active {
        Some(v) => {
            let marker = String::from_str("1");
            proof {
                reveal_strlit("1");
            }
            assert(marker@ =~= active_marker());
            *v == marker
        },
        None => false,
    }
}

/// The identifier of the user whose session is cached, if any.
pub fn cached_user_id(storage: &SessionRecord) -> (r: Option<String>)
    ensures
        opt_view(r) == storage@.user_id,
{
    clone_opt_string(&storage.user_id)
}

/// Saving a session makes it cached, under the given user.
pub proof fn law_save_then_read(user_id: Seq<char>)
    ensures
        is_cached(saved(user_id)),
        saved(user_id).user_id == Some(user_id),
{
}

/// Clearing a session leaves nothing cached and no user, whatever was
/// saved before.
pub proof fn law_clear_then_read()
    ensures
        !is_cached(cleared()),
        cleared().user_id is None,
{
}

/// The marker written by a save is the single character `1`, and a record
/// counts as cached exactly when its marker slot holds that.
pub proof fn law_marker_is_one(r: SessionView, user_id: Seq<char>)
    ensures
        saved(user_id).active == Some(seq!['1']),
        is_cached(r) <==> r.active == Some(seq!['1']),
{
}

} // verus!
