//! What the pages show and when their buttons act, as functions of the
//! authentication state and of the form fields.

use vstd::prelude::*;
use crate::user::WalletType;

verus! {

/// The icon in front of the connected wallet's address in the navigation bar.
pub open spec fn badge_icon(wt: Option<WalletType>) -> Seq<char> {
    match wt {
        Some(WalletType::MetaMask) => "\u{1F98A}"@,
        Some(WalletType::Phantom) => "\u{1F47B}"@,
        None => "\u{1F511}"@,
    }
}

/// See `badge_icon`.
pub fn wallet_badge_icon(wt: Option<WalletType>) -> (r: &'static str)
    ensures
        r@ == badge_icon(wt),
{
    match wt {
        Some(WalletType::MetaMask) => "\u{1F98A}",
        Some(WalletType::Phantom) => "\u{1F47B}",
        None => "\u{1F511}",
    }
}

/// The name shown before the connected wallet's address on the dashboard.
pub open spec fn wallet_name(wt: Option<WalletType>) -> Seq<char> {
    match wt {
        Some(WalletType::MetaMask) => "MetaMask"@,
        Some(WalletType::Phantom) => "Phantom"@,
        None => "Wallet"@,
    }
}

/// See `wallet_name`.
pub fn wallet_label(wt: Option<WalletType>) -> (r: &'static str)
    ensures
        r@ == wallet_name(wt),
{
    match wt {
        Some(WalletType::MetaMask) => "MetaMask",
        Some(WalletType::Phantom) => "Phantom",
        None => "Wallet",
    }
}

/// Which groups of action panels the dashboard shows.
#[derive(Clone, Copy, Debug, PartialEq, Eq, Structural)]
pub struct DashboardLayout {
    /// Panels of the connected browser wallet, if any.
    pub browser_panels: Option<WalletType>,
    /// Panels of the provider's embedded Ethereum wallet.
    pub privy_evm_panels: bool,
    /// Panels of the provider's embedded Solana wallet.
    pub privy_solana_panels: bool,
    /// The notice asking to connect a wallet or sign in by e-mail.
    pub no_wallet_notice: bool,
}

/// The dashboard shows the panels of every wallet at hand, and the notice
/// exactly when there is none.
pub open spec fn layout_of(
    wallet_type: Option<WalletType>,
    has_privy_evm: bool,
    has_privy_solana: bool,
) -> DashboardLayout {
    DashboardLayout {
        browser_panels: wallet_type,
        privy_evm_panels: has_privy_evm,
        privy_solana_panels: has_privy_solana,
        no_wallet_notice: wallet_type is None && !has_privy_evm && !has_privy_solana,
    }
}

/// See `layout_of`; `has_privy_evm` and `has_privy_solana` tell whether the
/// provider reports an embedded wallet address of that kind.
pub fn dashboard_layout(
    wallet_type: Option<WalletType>,
    has_privy_evm: bool,
    has_privy_solana: bool,
) -> (r: DashboardLayout)
    ensures
        r == layout_of(wallet_type, has_privy_evm, has_privy_solana),
{
    let no_browser_wallet = wallet_type.is_none();
    let no_privy_wallets = !has_privy_evm && !has_privy_solana;
    DashboardLayout {
        browser_panels: wallet_type,
        privy_evm_panels: has_privy_evm,
        privy_solana_panels: has_privy_solana,
        no_wallet_notice: no_browser_wallet && no_privy_wallets,
    }
}

/// Length of a one-time e-mail code, in bytes.
pub const OTP_LENGTH: usize = 6;

/// The "Send code" button is disabled while loading or with no address.
pub fn send_code_disabled(loading: bool, email: &str) -> (b: bool)
    ensures
        b == (loading || email@.len() == 0),
{
    loading || email.is_empty()
}

/// The "Verify" button is disabled while loading or until six bytes of code
/// are typed.
pub fn verify_code_disabled(loading: bool, code: &str) -> (b: bool)
    ensures
        b == (loading || code.len() < 6),
{
    loading || code.len() < OTP_LENGTH
}

/// A click on "Send code" asks for a code only when an address is typed.
pub fn should_send_code(email: &str) -> (b: bool)
    ensures
        b == (email@.len() > 0),
{
    !email.is_empty()
}

/// A click on "Verify" submits only when both the address and the code are
/// typed.
pub fn should_verify_code(email: &str, code: &str) -> (b: bool)
    ensures
        b == (email@.len() > 0 && code@.len() > 0),
{
    !email.is_empty() && !code.is_empty()
}

/// An action panel submits only when every required field is filled in.
pub fn fields_filled(fields: &Vec<String>) -> (b: bool)
    ensures
        b == (forall|i: int| 0 <= i < fields@.len() ==> #[trigger] fields@[i]@.len() > 0),
{
    let n = fields.len();
    let mut i: usize = 0;
    while i < n
        invariant
            n == fields@.len(),
            i <= n,
            forall|k: int| 0 <= k < i ==> #[trigger] fields@[k]@.len() > 0,
        decreases n - i,
    {
        if fields[i].as_str().is_empty() {
            return false;
        }
        i = i + 1;
    }
    true
}

/// The dashboard shows the panels of each wallet at hand, and the notice
/// exactly when no wallet of any kind is at hand.
pub proof fn law_layout(wallet_type: Option<WalletType>, has_privy_evm: bool, has_privy_solana: bool)
    ensures
        ({
            let l = layout_of(wallet_type, has_privy_evm, has_privy_solana);
            &&& l.browser_panels == wallet_type
            &&& l.privy_evm_panels == has_privy_evm
            &&& l.privy_solana_panels == has_privy_solana
            &&& l.no_wallet_notice <==> (wallet_type is None && !has_privy_evm && !has_privy_solana)
        }),
{
}

} // verus!
