//! The authentication state machine.
//!
//! The page keeps one `AuthState`. Each user request and each reply of the
//! identity provider or of a wallet extension is one transition below; the
//! asynchronous work itself (wallet pop-ups, provider calls) is done by the
//! caller, which then reports the outcome through the matching transition.

use vstd::prelude::*;
use crate::session::{
    SessionRecord, SessionView, save_session, clear_session, has_cached_session, saved, cleared,
    is_cached, opt_view,
};
use crate::user::{PrivyUser, PrivyUserView, WalletType, user_view};

verus! {

/// The reactive authentication state of the page.
pub struct AuthState {
    /// True while a request to the provider or a wallet is under way.
    pub loading: bool,
    /// True once the user is signed in (by e-mail, wallet, or a cached session).
    pub authenticated: bool,
    /// The provider's user, when signed in through the provider.
    pub user: Option<PrivyUser>,
    /// Address of the connected browser wallet.
    pub wallet_address: Option<String>,
    /// Kind of the connected browser wallet.
    pub wallet_type: Option<WalletType>,
    /// Message of the last failed request.
    pub error: Option<String>,
    /// True between sending an e-mail code and verifying it.
    pub email_otp_sent: bool,
}

pub struct AuthView {
    pub loading: bool,
    pub authenticated: bool,
    pub user: Option<PrivyUserView>,
    pub wallet_address: Option<Seq<char>>,
    pub wallet_type: Option<WalletType>,
    pub error: Option<Seq<char>>,
    pub email_otp_sent: bool,
}

impl View for AuthState {
    type V = AuthView;

    open spec fn view(&self) -> AuthView {
        AuthView {
            loading: self.loading,
            authenticated: self.authenticated,
            user: user_view(self.user),
            wallet_address: opt_view(self.wallet_address),
            wallet_type: self.wallet_type,
            error: opt_view(self.error),
            email_otp_sent: self.email_otp_sent,
        }
    }
}

/// Fallback message of a failed wallet or e-mail request.
pub open spec fn operation_failed_message() -> Seq<char> {
    "Operation failed \u{2014} please try again."@
}

/// Fallback message of a failed provider login.
pub open spec fn login_failed_message() -> Seq<char> {
    "Login failed \u{2014} please try again."@
}

// ---------------------------------------------------------------------------
// The transitions, as functions of views
// ---------------------------------------------------------------------------

/// State on page load: loading, and optimistically signed in when the
/// browser cache says a session exists.
pub open spec fn initial(cached: bool) -> AuthView {
    AuthView {
        loading: true,
        authenticated: cached,
        user: None,
        wallet_address: None,
        wallet_type: None,
        error: None,
        email_otp_sent: false,
    }
}

/// A request starts: loading, and the previous error is dropped.
pub open spec fn begun(s: AuthView) -> AuthView {
    AuthView { loading: true, error: None, ..s }
}

/// A browser wallet answered with its address.
pub open spec fn wallet_connected(s: AuthView, address: Seq<char>, wt: WalletType) -> AuthView {
    AuthView {
        wallet_address: Some(address),
        wallet_type: Some(wt),
        authenticated: true,
        loading: false,
        ..s
    }
}

/// The provider signed `u` in.
pub open spec fn signed_in(s: AuthView, u: PrivyUserView) -> AuthView {
    AuthView { user: Some(u), authenticated: true, loading: false, ..s }
}

/// A request failed with `message`, or with `fallback` when the failure
/// carried no text.
pub open spec fn failed(s: AuthView, message: Option<Seq<char>>, fallback: Seq<char>) -> AuthView {
    AuthView {
        error: Some(
            match message {
                Some(m) => m,
                None => fallback,
            },
        ),
        loading: false,
        ..s
    }
}

/// The provider sent the one-time code by e-mail.
pub open spec fn code_sent(s: AuthView) -> AuthView {
    AuthView { email_otp_sent: true, loading: false, ..s }
}

/// The e-mail code was accepted and the provider signed `u` in.
pub open spec fn code_verified(s: AuthView, u: PrivyUserView) -> AuthView {
    signed_in(AuthView { email_otp_sent: false, ..s }, u)
}

/// The user chose to enter another e-mail address.
pub open spec fn otp_reset(s: AuthView) -> AuthView {
    AuthView { email_otp_sent: false, error: None, ..s }
}

/// The browser wallet was disconnected; a provider session, if any, stays.
pub open spec fn wallet_disconnected(s: AuthView) -> AuthView {
    AuthView {
        wallet_address: None,
        wallet_type: None,
        authenticated: if s.user is None {
            false
        } else {
            s.authenticated
        },
        ..s
    }
}

/// Everything about who was signed in is forgotten.
pub open spec fn logged_out(s: AuthView) -> AuthView {
    AuthView {
        user: None,
        wallet_address: None,
        wallet_type: None,
        authenticated: false,
        email_otp_sent: false,
        ..s
    }
}

/// The provider finished starting up and reported the current user, if any.
pub open spec fn init_ready(s: AuthView, u: Option<PrivyUserView>) -> AuthView {
    match u {
        Some(u) => AuthView { authenticated: true, user: Some(u), loading: false, ..s },
        None => AuthView { authenticated: false, loading: false, ..s },
    }
}

/// The session cache after the provider reported the current user.
pub open spec fn init_ready_cache(u: Option<PrivyUserView>) -> SessionView {
    match u {
        Some(u) => saved(u.id),
        None => cleared(),
    }
}

/// The provider failed to start: nothing changes but the loading flag.
pub open spec fn init_failed(s: AuthView) -> AuthView {
    AuthView { loading: false, ..s }
}

/// What a page that requires sign-in shows.
#[derive(Clone, Copy, Debug, PartialEq, Eq, Structural)]
pub enum Gate {
    /// The provider is still starting: a full-page loader.
    Loading,
    /// Signed in: the page itself.
    Allowed,
    /// Signed out: a redirect to the sign-in page.
    Redirect,
}

pub open spec fn gate_of(s: AuthView) -> Gate {
    if s.loading {
        Gate::Loading
    } else if s.authenticated {
        Gate::Allowed
    } else {
        Gate::Redirect
    }
}

// ---------------------------------------------------------------------------
// The executable transitions
// ---------------------------------------------------------------------------

fn operation_failed_text() -> (r: String)
    ensures
        r@ == operation_failed_message(),
{
    String::from_str("Operation failed \u{2014} please try again.")
}

fn login_failed_text() -> (r: String)
    ensures
        r@ == login_failed_message(),
{
    String::from_str("Login failed \u{2014} please try again.")
}

impl AuthState {
    /// The state on page load, read from the session cache.
    pub fn new(storage: &SessionRecord) -> (s: AuthState)
        ensures
            s@ == initial(is_cached(storage@)),
    {
        AuthState {
            loading: true,
            authenticated: has_cached_session(storage),
            user: None,
            wallet_address: None,
            wallet_type: None,
            error: None,
            email_otp_sent: false,
        }
    }

    /// The provider started and reported `user` (the signed-in user, or none):
    /// the session cache is refreshed accordingly.
    pub fn on_init_ready(&mut self, storage: &mut SessionRecord, user: Option<PrivyUser>)
        ensures
            final(self)@ == init_ready(old(self)@, user_view(user)),
            final(storage)@ == init_ready_cache(user_view(user)),
    {
        match user {
            Some(u) => {
                save_session(storage, u.id.as_str());
                self.authenticated = true;
                self.user = Some(u);
            },
            None => {
                clear_session(storage);
                self.authenticated = false;
            },
        }
        self.loading = false;
    }

    /// The provider failed to start.
    pub fn on_init_failed(&mut self)
        ensures
            final(self)@ == init_failed(old(self)@),
    {
        self.loading = false;
    }

    /// A wallet connection, e-mail request or login starts.
    pub fn begin_loading(&mut self)
        ensures
            final(self)@ == begun(old(self)@),
    {
        self.loading = true;
        self.error = None;
    }

    /// A browser wallet of kind `wtype` connected with `address`.
    pub fn on_wallet_connected(&mut self, address: String, wtype: WalletType)
        ensures
            final(self)@ == wallet_connected(old(self)@, address@, wtype),
    {
        self.wallet_address = Some(address);
        self.wallet_type = Some(wtype);
        self.authenticated = true;
        self.loading = false;
    }

    /// The provider signed `user` in; the session is cached for the next load.
    pub fn on_privy_login(&mut self, storage: &mut SessionRecord, user: PrivyUser)
        ensures
            final(self)@ == signed_in(old(self)@, user@),
            final(storage)@ == saved(user@.id),
    {
        save_session(storage, user.id.as_str());
        self.user = Some(user);
        self.authenticated = true;
        self.loading = false;
    }

    /// A wallet or e-mail request failed; `message` is the failure's text, if
    /// it had one.
    pub fn on_error(&mut self, message: Option<String>)
        ensures
            final(self)@ == failed(old(self)@, opt_view(message), operation_failed_message()),
    {
        let msg = match message {
            Some(m) => m,
            None => operation_failed_text(),
        };
        self.error = Some(msg);
        self.loading = false;
    }

    /// A provider login failed; `message` is the failure's text, if it had one.
    pub fn on_login_error(&mut self, message: Option<String>)
        ensures
            final(self)@ == failed(old(self)@, opt_view(message), login_failed_message()),
    {
        let msg = match message {
            Some(m) => m,
            None => login_failed_text(),
        };
        self.error = Some(msg);
        self.loading = false;
    }

    /// The one-time code was sent by e-mail.
    pub fn on_email_code_sent(&mut self)
        ensures
            final(self)@ == code_sent(old(self)@),
    {
        self.email_otp_sent = true;
        self.loading = false;
    }

    /// The e-mail code was accepted and the provider signed `user` in.
    pub fn on_email_verified(&mut self, storage: &mut SessionRecord, user: PrivyUser)
        ensures
            final(self)@ == code_verified(old(self)@, user@),
            final(storage)@ == saved(user@.id),
    {
        self.email_otp_sent = false;
        self.on_privy_login(storage, user);
    }

    /// The user goes back to entering an e-mail address.
    pub fn reset_email_otp(&mut self)
        ensures
            final(self)@ == otp_reset(old(self)@),
    {
        self.email_otp_sent = false;
        self.error = None;
    }

    /// Whether disconnecting (or signing out) must first ask the Phantom
    /// extension to disconnect; other wallets offer no such call.
    pub fn needs_phantom_disconnect(&self) -> (b: bool)
        ensures
            b == (self@.wallet_type == Some(WalletType::Phantom)),
    {
        match self.wallet_type {
            Some(WalletType::Phantom) => true,
            _ => false,
        }
    }

    /// The browser wallet was disconnected.
    pub fn finish_disconnect_wallet(&mut self)
        ensures
            final(self)@ == wallet_disconnected(old(self)@),
    {
        self.wallet_address = None;
        self.wallet_type = None;
        if self.user.is_none() {
            self.authenticated = false;
        }
    }

    /// Sign-out finished: the cached session and every trace of the user are
    /// dropped.
    pub fn finish_logout(&mut self, storage: &mut SessionRecord)
        ensures
            final(self)@ == logged_out(old(self)@),
            final(storage)@ == cleared(),
    {
        clear_session(storage);
        self.user = None;
        self.wallet_address = None;
        self.wallet_type = None;
        self.authenticated = false;
        self.email_otp_sent = false;
    }

    /// What a page that requires sign-in shows now.
    pub fn gate(&self) -> (g: Gate)
        ensures
            g == gate_of(self@),
    {
        if self.loading {
            Gate::Loading
        } else if self.authenticated {
            Gate::Allowed
        } else {
            Gate::Redirect
        }
    }
}

// ---------------------------------------------------------------------------
// Laws
// ---------------------------------------------------------------------------

/// Signing out leaves no user, no wallet, no pending e-mail code and no
/// cached session, whatever the state before; the next page load then starts
/// signed out.
pub proof fn law_logout_forgets_everything(s: AuthView)
    ensures
        !logged_out(s).authenticated,
        logged_out(s).user is None,
        logged_out(s).wallet_address is None,
        logged_out(s).wallet_type is None,
        !logged_out(s).email_otp_sent,
        !is_cached(cleared()),
        !initial(is_cached(cleared())).authenticated,
{
}

/// A sign-in through the provider is remembered: the next page load starts
/// signed in, and the cache names that user.
pub proof fn law_login_survives_reload(s: AuthView, u: PrivyUserView)
    ensures
        signed_in(s, u).authenticated,
        initial(is_cached(saved(u.id))).authenticated,
        saved(u.id).user_id == Some(u.id),
{
}

/// Connecting a wallet and then disconnecting it removes the wallet and
/// leaves the user signed in exactly when a provider user is present.
pub proof fn law_connect_then_disconnect(s: AuthView, address: Seq<char>, wt: WalletType)
    ensures
        ({
            let t = wallet_disconnected(wallet_connected(s, address, wt));
            &&& t.wallet_address is None
            &&& t.wallet_type is None
            &&& t.authenticated == (s.user is Some)
            &&& t.user == s.user
        }),
{
}

/// Every reply, success or failure, ends the loading state.
pub proof fn law_replies_end_loading(
    s: AuthView,
    u: PrivyUserView,
    ou: Option<PrivyUserView>,
    address: Seq<char>,
    wt: WalletType,
    message: Option<Seq<char>>,
    fallback: Seq<char>,
)
    ensures
        !wallet_connected(s, address, wt).loading,
        !signed_in(s, u).loading,
        !failed(s, message, fallback).loading,
        !code_sent(s).loading,
        !code_verified(s, u).loading,
        !init_ready(s, ou).loading,
        !init_failed(s).loading,
{
}

/// A request that fails reports the failure's own text, or the fallback when
/// it had none; starting a new request clears it again.
pub proof fn law_failure_is_reported(s: AuthView, m: Seq<char>, fallback: Seq<char>)
    ensures
        failed(begun(s), Some(m), fallback).error == Some(m),
        failed(begun(s), None, fallback).error == Some(fallback),
        begun(failed(s, Some(m), fallback)).error is None,
{
}

/// The e-mail flow: after sending a code the page waits for it; verifying it
/// signs the user in and ends the wait; resetting only ends the wait.
pub proof fn law_email_flow(s: AuthView, u: PrivyUserView)
    ensures
        code_sent(begun(s)).email_otp_sent,
        ({
            let t = code_verified(begun(code_sent(begun(s))), u);
            &&& !t.email_otp_sent
            &&& t.authenticated
            &&& t.user == Some(u)
            &&& !t.loading
        }),
        ({
            let t = otp_reset(code_sent(s));
            &&& !t.email_otp_sent
            &&& t.authenticated == s.authenticated
            &&& t.user == s.user
            &&& t.wallet_address == s.wallet_address
        }),
{
}

/// A page that requires sign-in is shown only to a signed-in user once
/// loading is over.
pub proof fn law_gate(s: AuthView)
    ensures
        gate_of(s) == Gate::Allowed <==> (!s.loading && s.authenticated),
        gate_of(logged_out(init_failed(s))) == Gate::Redirect,
{
}

/// While the provider is starting the guard shows the loader, whatever the
/// authenticated flag says; afterwards it shows the page to a signed-in user
/// and redirects anyone else.
pub proof fn law_gate_cases(s: AuthView)
    ensures
        s.loading ==> gate_of(s) == Gate::Loading,
        !s.loading && s.authenticated ==> gate_of(s) == Gate::Allowed,
        !s.loading && !s.authenticated ==> gate_of(s) == Gate::Redirect,
        gate_of(initial(true)) == Gate::Loading,
{
}

/// A provider sign-in (directly or by e-mail code) changes only who is
/// signed in: the connected browser wallet, the error text and (for a direct
/// sign-in) the e-mail flag are kept.
pub proof fn law_sign_in_keeps_wallet(s: AuthView, u: PrivyUserView)
    ensures
        signed_in(s, u).wallet_address == s.wallet_address,
        signed_in(s, u).wallet_type == s.wallet_type,
        signed_in(s, u).error == s.error,
        signed_in(s, u).email_otp_sent == s.email_otp_sent,
        signed_in(s, u).user == Some(u),
        code_verified(s, u).wallet_address == s.wallet_address,
        code_verified(s, u).wallet_type == s.wallet_type,
        signed_in(begun(wallet_connected(s, s.wallet_address.unwrap_or(Seq::empty()), WalletType::MetaMask)), u).wallet_type
            == Some(WalletType::MetaMask),
{
}

} // verus!
