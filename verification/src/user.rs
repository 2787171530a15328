//! The signed-in user as the identity provider reports it, reduced to what
//! the front end reads.

use vstd::prelude::*;
use crate::address::{truncate_address, truncated};
use crate::session::opt_view;

verus! {

/// Which browser wallet extension a session is connected through.
#[derive(Clone, Copy, Debug, PartialEq, Eq, Structural)]
pub enum WalletType {
    MetaMask,
    Phantom,
}

/// The embedded wallet attached to a user.
#[derive(Clone, Debug)]
pub struct WalletInfo {
    pub address: String,
    pub chain_type: String,
    pub wallet_client: Option<String>,
}

pub struct WalletInfoView {
    pub address: Seq<char>,
    pub chain_type: Seq<char>,
    pub wallet_client: Option<Seq<char>>,
}

impl View for WalletInfo {
    type V = WalletInfoView;

    open spec fn view(&self) -> WalletInfoView {
        WalletInfoView {
            address: self.address@,
            chain_type: self.chain_type@,
            wallet_client: opt_view(self.wallet_client),
        }
    }
}

/// One account linked to the user; `address` is that account's `address`
/// field when it is a string (an e-mail address, or a wallet address).
#[derive(Clone, Debug)]
pub struct LinkedAccount {
    pub address: Option<String>,
}

impl View for LinkedAccount {
    type V = Option<Seq<char>>;

    open spec fn view(&self) -> Option<Seq<char>> {
        opt_view(self.address)
    }
}

/// A user of the identity provider.
#[derive(Clone, Debug)]
pub struct PrivyUser {
    pub id: String,
    pub wallet: Option<WalletInfo>,
    pub linked_accounts: Vec<LinkedAccount>,
}

pub struct PrivyUserView {
    pub id: Seq<char>,
    pub wallet: Option<WalletInfoView>,
    pub linked_accounts: Seq<Option<Seq<char>>>,
}

pub open spec fn wallet_view(w: Option<WalletInfo>) -> Option<WalletInfoView> {
    match w {
        Some(w) => Some(w@),
        None => None,
    }
}

impl View for PrivyUser {
    type V = PrivyUserView;

    open spec fn view(&self) -> PrivyUserView {
        PrivyUserView {
            id: self.id@,
            wallet: wallet_view(self.wallet),
            linked_accounts: self.linked_accounts@.map_values(|a: LinkedAccount| a@),
        }
    }
}

pub open spec fn user_view(u: Option<PrivyUser>) -> Option<PrivyUserView> {
    match u {
        Some(u) => Some(u@),
        None => None,
    }
}

/// The first linked account that has an address.
pub open spec fn first_address(accounts: Seq<Option<Seq<char>>>) -> Option<Seq<char>>
    decreases accounts.len(),
{
    if accounts.len() == 0 {
        None
    } else if accounts[0] is Some {
        accounts[0]
    } else {
        first_address(accounts.drop_first())
    }
}

/// The text of the e-mail badge: the first linked address, or else the
/// shortened user identifier.
pub open spec fn badge_text(u: PrivyUserView) -> Seq<char> {
    match first_address(u.linked_accounts) {
        Some(a) => a,
        None => truncated(u.id),
    }
}

/// The label shown for a signed-in user (see `badge_text`).
pub fn email_label(user: &PrivyUser) -> (r: String)
    ensures
        r@ == badge_text(user@),
{
    let n = user.linked_accounts.len();
    let ghost accts = user@.linked_accounts;
    let mut i: usize = 0;
    assert(accts.subrange(0, n as int) =~= accts);
    while i < n
        invariant
            n == user.linked_accounts@.len(),
            accts == user.linked_accounts@.map_values(|a: LinkedAccount| a@),
            i <= n,
            first_address(accts) == first_address(accts.subrange(i as int, n as int)),
        decreases n - i,
    {
        let ghost rest = accts.subrange(i as int, n as int);
        assert(rest[0] == user.linked_accounts@[i as int]@);
        match &user.linked_accounts[i].address {
            Some(a) => {
                return a.clone();
            },
            None => {
                assert(rest.drop_first() =~= accts.subrange(i + 1, n as int));
            },
        }
        i = i + 1;
    }
    assert(accts.subrange(n as int, n as int).len() == 0);
    truncate_address(user.id.as_str())
}

/// The badge's address is the first present linked address: if account `j`
/// has an address and no account before it does, that address is chosen;
/// if no account has one, none is.
pub proof fn law_first_address(accounts: Seq<Option<Seq<char>>>, j: int)
    ensures
        (0 <= j < accounts.len() && accounts[j] is Some && (forall|k: int|
            0 <= k < j ==> #[trigger] accounts[k] is None)) ==> first_address(accounts)
            == accounts[j],
        (forall|k: int| 0 <= k < accounts.len() ==> #[trigger] accounts[k] is None) ==> first_address(
            accounts,
        ) is None,
    decreases accounts.len(),
{
    if accounts.len() > 0 {
        let rest = accounts.drop_first();
        law_first_address(rest, j - 1);
        if 0 <= j < accounts.len() && accounts[j] is Some && (forall|k: int|
            0 <= k < j ==> #[trigger] accounts[k] is None) {
            if j > 0 {
                assert(accounts[0] is None);
                assert(rest[j - 1] == accounts[j]);
                assert forall|k: int| 0 <= k < j - 1 implies #[trigger] rest[k] is None by {
                    assert(rest[k] == accounts[k + 1]);
                }
            }
        }
        if forall|k: int| 0 <= k < accounts.len() ==> #[trigger] accounts[k] is None {
            assert(accounts[0] is None);
            assert forall|k: int| 0 <= k < rest.len() implies #[trigger] rest[k] is None by {
                assert(rest[k] == accounts[k + 1]);
            }
        }
    }
}

/// A user with a linked address is labelled by the first such address; a
/// user with none by the shortened identifier.
pub proof fn law_badge_text(u: PrivyUserView, j: int)
    ensures
        (0 <= j < u.linked_accounts.len() && u.linked_accounts[j] is Some && (forall|k: int|
            0 <= k < j ==> #[trigger] u.linked_accounts[k] is None)) ==> badge_text(u)
            == u.linked_accounts[j]->0,
        (forall|k: int|
            0 <= k < u.linked_accounts.len() ==> #[trigger] u.linked_accounts[k] is None)
            ==> badge_text(u) == truncated(u.id),
{
    law_first_address(u.linked_accounts, j);
}

} // verus!
