//! Outcomes of calls into wallet extensions and the identity provider:
//! which error text a failure shows, and what a reply must contain.

use vstd::prelude::*;
use crate::user::WalletType;

verus! {

/// The first text that a JavaScript error offers, in order of preference:
/// its `message` property, the error itself when it is a string, then its
/// object description; `fallback` when it offers none.
pub open spec fn first_text(
    message: Option<Seq<char>>,
    as_string: Option<Seq<char>>,
    object_text: Option<Seq<char>>,
    fallback: Seq<char>,
) -> Seq<char> {
    match message {
        Some(m) => m,
        None => match as_string {
            Some(s) => s,
            None => match object_text {
                Some(o) => o,
                None => fallback,
            },
        },
    }
}

pub open spec fn opt_str(o: Option<String>) -> Option<Seq<char>> {
    match o {
        Some(s) => Some(s@),
        None => None,
    }
}

/// Fallback text of a JavaScript error from the provider bridge.
pub open spec fn unknown_js_error() -> Seq<char> {
    "unknown JS error"@
}

/// Fallback text of a JavaScript error shown in an action panel.
pub open spec fn unknown_error() -> Seq<char> {
    "Unknown error"@
}

/// The text of a JavaScript error raised by a provider call (see
/// `first_text`).
pub fn describe_js_error(
    message: Option<String>,
    as_string: Option<String>,
    object_text: Option<String>,
) -> (r: String)
    ensures
        r@ == first_text(opt_str(message), opt_str(as_string), opt_str(object_text), unknown_js_error()),
{
    match message {
        Some(m) => m,
        None => match as_string {
            Some(s) => s,
            None => match object_text {
                Some(o) => o,
                None => String::from_str("unknown JS error"),
            },
        },
    }
}

/// The text of a JavaScript error shown in an action panel: its `message`
/// property, else the error itself when it is a string, else a fixed text.
pub fn describe_action_error(message: Option<String>, as_string: Option<String>) -> (r: String)
    ensures
        r@ == first_text(opt_str(message), opt_str(as_string), None, unknown_error()),
{
    match message {
        Some(m) => m,
        None => match as_string {
            Some(s) => s,
            None => String::from_str("Unknown error"),
        },
    }
}

/// A call of the provider bridge that answers with a string.
#[derive(Clone, Copy, Debug, PartialEq, Eq, Structural)]
pub enum BridgeCall {
    ConnectMetaMask,
    ConnectPhantom,
    SignMessageMetaMask,
    SendEthMetaMask,
    SendErc20MetaMask,
    CallContractMetaMask,
    SignMessagePhantom,
    SendSolPhantom,
    SendSplTokenPhantom,
    InvokeProgramPhantom,
    SignMessagePrivyEvm,
    SendEthPrivy,
    SendErc20Privy,
    CallContractPrivy,
    SignMessagePrivySolana,
    SendSolPrivy,
    SendSplTokenPrivy,
    InvokeProgramPrivy,
}

/// The bridge function's JavaScript name.
pub open spec fn call_name(c: BridgeCall) -> Seq<char> {
    match c {
        BridgeCall::ConnectMetaMask => "connectMetaMask"@,
        BridgeCall::ConnectPhantom => "connectPhantom"@,
        BridgeCall::SignMessageMetaMask => "signMessageMetaMask"@,
        BridgeCall::SendEthMetaMask => "sendEthMetaMask"@,
        BridgeCall::SendErc20MetaMask => "sendERC20MetaMask"@,
        BridgeCall::CallContractMetaMask => "callContractMetaMask"@,
        BridgeCall::SignMessagePhantom => "signMessagePhantom"@,
        BridgeCall::SendSolPhantom => "sendSolPhantom"@,
        BridgeCall::SendSplTokenPhantom => "sendSPLTokenPhantom"@,
        BridgeCall::InvokeProgramPhantom => "invokeProgramPhantom"@,
        BridgeCall::SignMessagePrivyEvm => "signMessagePrivyEvm"@,
        BridgeCall::SendEthPrivy => "sendEthPrivy"@,
        BridgeCall::SendErc20Privy => "sendERC20Privy"@,
        BridgeCall::CallContractPrivy => "callContractPrivy"@,
        BridgeCall::SignMessagePrivySolana => "signMessagePrivySolana"@,
        BridgeCall::SendSolPrivy => "sendSolPrivy"@,
        BridgeCall::SendSplTokenPrivy => "sendSPLTokenPrivy"@,
        BridgeCall::InvokeProgramPrivy => "invokeProgramPrivy"@,
    }
}

/// What the call answers with: an address, a signature text, a transaction
/// hash or a transaction signature.
pub open spec fn expected_kind(c: BridgeCall) -> Seq<char> {
    match c {
        BridgeCall::ConnectMetaMask | BridgeCall::ConnectPhantom => "string address"@,
        BridgeCall::SignMessageMetaMask
        | BridgeCall::SignMessagePhantom
        | BridgeCall::SignMessagePrivyEvm
        | BridgeCall::SignMessagePrivySolana => "string"@,
        BridgeCall::SendEthMetaMask
        | BridgeCall::SendErc20MetaMask
        | BridgeCall::CallContractMetaMask
        | BridgeCall::SendEthPrivy
        | BridgeCall::SendErc20Privy
        | BridgeCall::CallContractPrivy => "tx hash"@,
        BridgeCall::SendSolPhantom
        | BridgeCall::SendSplTokenPhantom
        | BridgeCall::InvokeProgramPhantom
        | BridgeCall::SendSolPrivy
        | BridgeCall::SendSplTokenPrivy
        | BridgeCall::InvokeProgramPrivy => "signature"@,
    }
}

/// The error when the call answered with something that is not a string.
pub open spec fn missing_value_message(c: BridgeCall) -> Seq<char> {
    call_name(c) + ": expected "@ + expected_kind(c)
}

impl BridgeCall {
    /// The bridge function's JavaScript name.
    pub fn name(&self) -> (r: &'static str)
        ensures
            r@ == call_name(*self),
    {
        match self {
            BridgeCall::ConnectMetaMask => "connectMetaMask",
            BridgeCall::ConnectPhantom => "connectPhantom",
            BridgeCall::SignMessageMetaMask => "signMessageMetaMask",
            BridgeCall::SendEthMetaMask => "sendEthMetaMask",
            BridgeCall::SendErc20MetaMask => "sendERC20MetaMask",
            BridgeCall::CallContractMetaMask => "callContractMetaMask",
            BridgeCall::SignMessagePhantom => "signMessagePhantom",
            BridgeCall::SendSolPhantom => "sendSolPhantom",
            BridgeCall::SendSplTokenPhantom => "sendSPLTokenPhantom",
            BridgeCall::InvokeProgramPhantom => "invokeProgramPhantom",
            BridgeCall::SignMessagePrivyEvm => "signMessagePrivyEvm",
            BridgeCall::SendEthPrivy => "sendEthPrivy",
            BridgeCall::SendErc20Privy => "sendERC20Privy",
            BridgeCall::CallContractPrivy => "callContractPrivy",
            BridgeCall::SignMessagePrivySolana => "signMessagePrivySolana",
            BridgeCall::SendSolPrivy => "sendSolPrivy",
            BridgeCall::SendSplTokenPrivy => "sendSPLTokenPrivy",
            BridgeCall::InvokeProgramPrivy => "invokeProgramPrivy",
        }
    }

    fn expected(&self) -> (r: &'static str)
        ensures
            r@ == expected_kind(*self),
    {
        match self {
            BridgeCall::ConnectMetaMask | BridgeCall::ConnectPhantom => "string address",
            BridgeCall::SignMessageMetaMask
            | BridgeCall::SignMessagePhantom
            | BridgeCall::SignMessagePrivyEvm
            | BridgeCall::SignMessagePrivySolana => "string",
            BridgeCall::SendEthMetaMask
            | BridgeCall::SendErc20MetaMask
            | BridgeCall::CallContractMetaMask
            | BridgeCall::SendEthPrivy
            | BridgeCall::SendErc20Privy
            | BridgeCall::CallContractPrivy => "tx hash",
            BridgeCall::SendSolPhantom
            | BridgeCall::SendSplTokenPhantom
            | BridgeCall::InvokeProgramPhantom
            | BridgeCall::SendSolPrivy
            | BridgeCall::SendSplTokenPrivy
            | BridgeCall::InvokeProgramPrivy => "signature",
        }
    }

    /// The error shown when the call did not answer with a string.
    pub fn missing_value(&self) -> (r: String)
        ensures
            r@ == missing_value_message(*self),
    {
        String::from_str(self.name()).concat(": expected ").concat(self.expected())
    }
}

/// The result of a bridge call: `outcome` is the JavaScript error's text
/// when the call failed, or else the answer when it is a string. A call that
/// succeeded without a string answer fails with the call's own message.
pub fn settle_call(call: BridgeCall, outcome: Result<Option<String>, String>) -> (r: Result<
    String,
    String,
>)
    ensures
        match outcome {
            Err(e) => r matches Err(m) && m@ == e@,
            Ok(Some(v)) => r matches Ok(s) && s@ == v@,
            Ok(None) => r matches Err(m) && m@ == missing_value_message(call),
        },
{
    match outcome {
        Err(e) => Err(e),
        Ok(Some(v)) => Ok(v),
        Ok(None) => Err(call.missing_value()),
    }
}

/// Why a wallet extension cannot be used.
pub open spec fn provider_problem(kind: WalletType, present: bool, flagged: bool) -> Option<
    Seq<char>,
> {
    if !present {
        Some(
            match kind {
                WalletType::MetaMask => "MetaMask not installed"@,
                WalletType::Phantom => "Phantom not installed"@,
            },
        )
    } else if !flagged {
        Some(
            match kind {
                WalletType::MetaMask => "MetaMask not found \u{2014} another wallet may be active"@,
                WalletType::Phantom => "Phantom not found \u{2014} another Solana wallet may be active"@,
            },
        )
    } else {
        None
    }
}

/// Checks the injected provider object of a wallet extension: `present` is
/// whether the page has the object (`window.ethereum` or `window.solana`),
/// `flagged` whether it identifies itself as that wallet (`isMetaMask` or
/// `isPhantom`).
pub fn check_injected_provider(kind: WalletType, present: bool, flagged: bool) -> (r: Result<
    (),
    String,
>)
    ensures
        match provider_problem(kind, present, flagged) {
            None => r is Ok,
            Some(p) => r matches Err(m) && m@ == p,
        },
{
    if !present {
        match kind {
            WalletType::MetaMask => Err(String::from_str("MetaMask not installed")),
            WalletType::Phantom => Err(String::from_str("Phantom not installed")),
        }
    } else if !flagged {
        match kind {
            WalletType::MetaMask => Err(
                String::from_str("MetaMask not found \u{2014} another wallet may be active"),
            ),
            WalletType::Phantom => Err(
                String::from_str("Phantom not found \u{2014} another Solana wallet may be active"),
            ),
        }
    } else {
        Ok(())
    }
}

pub open spec fn no_public_key_message() -> Seq<char> {
    "Phantom: no public key \u{2014} call connect() first"@
}

pub open spec fn public_key_text_failed_message() -> Seq<char> {
    "Phantom: publicKey.toString() failed"@
}

/// The connected Phantom account's public key: `has_key` is whether the
/// extension exposes a key object, `text` what its `toString()` returned
/// when that was a string.
pub fn phantom_public_key(has_key: bool, text: Option<String>) -> (r: Result<String, String>)
    ensures
        !has_key ==> (r matches Err(m) && m@ == no_public_key_message()),
        has_key ==> (match text {
            Some(t) => r matches Ok(k) && k@ == t@,
            None => r matches Err(m) && m@ == public_key_text_failed_message(),
        }),
{
    if !has_key {
        return Err(String::from_str("Phantom: no public key \u{2014} call connect() first"));
    }
    match text {
        Some(t) => Ok(t),
        None => Err(String::from_str("Phantom: publicKey.toString() failed")),
    }
}

/// An injected provider that is present and identifies itself as the wallet
/// is usable, for either wallet; a missing one never is, nor one that does
/// not identify itself.
pub proof fn law_provider_usable(kind: WalletType, present: bool, flagged: bool)
    ensures
        present && flagged ==> provider_problem(kind, present, flagged) is None,
        !present ==> provider_problem(kind, present, flagged) is Some,
        !flagged ==> provider_problem(kind, present, flagged) is Some,
        provider_problem(WalletType::MetaMask, true, true) is None,
        provider_problem(WalletType::Phantom, true, true) is None,
{
}

} // verus!
