use privy_wa::accounts::parse_account_list;
use privy_wa::address::truncate_address;
use privy_wa::auth::{AuthState, Gate};
use privy_wa::eth::{chain_id_from_reply, parse_chain_id, personal_sign_params, personal_sign_payload, ChainIdError};
use privy_wa::session::{cached_user_id, clear_session, has_cached_session, save_session, SessionRecord, SESSION_KEY, USER_ID_KEY};
use privy_wa::ui::{dashboard_layout, fields_filled, send_code_disabled, should_send_code, should_verify_code, verify_code_disabled, wallet_badge_icon, wallet_label, DashboardLayout};
use privy_wa::user::{email_label, LinkedAccount, PrivyUser, WalletInfo, WalletType};
use privy_wa::wallet::{check_injected_provider, describe_action_error, describe_js_error, phantom_public_key, settle_call, BridgeCall};

fn user(id: &str, linked: Vec<Option<&str>>) -> PrivyUser {
    PrivyUser {
        id: id.to_string(),
        wallet: None,
        linked_accounts: linked.into_iter().map(|a| LinkedAccount { address: a.map(|s| s.to_string()) }).collect(),
    }
}

fn signed_out_state() -> AuthState {
    let store = SessionRecord::empty();
    let mut s = AuthState::new(&store);
    s.loading = false;
    s
}

// ---------------------------------------------------------------- address

#[test]
fn truncate_long_address() {
    assert_eq!(truncate_address("0x1234567890abcdef"), "0x1234\u{2026}cdef");
}

#[test]
fn truncate_exactly_ten() {
    assert_eq!(truncate_address("abcdefghij"), "abcdef\u{2026}ghij");
}

#[test]
fn truncate_short_kept() {
    assert_eq!(truncate_address("abcdefghi"), "abcdefghi");
    assert_eq!(truncate_address(""), "");
}

#[test]
fn truncate_counts_characters_not_bytes() {
    assert_eq!(truncate_address("ééééééééé"), "ééééééééé");
    assert_eq!(truncate_address("éééééééééé"), "éééééé\u{2026}éééé");
}

// ---------------------------------------------------------------- session

#[test]
fn session_keys() {
    assert_eq!(SESSION_KEY, "privy_session_active");
    assert_eq!(USER_ID_KEY, "privy_user_id");
}

#[test]
fn session_save_then_read() {
    let mut s = SessionRecord::empty();
    assert!(!has_cached_session(&s));
    assert_eq!(cached_user_id(&s), None);
    save_session(&mut s, "did:privy:abc");
    assert!(has_cached_session(&s));
    assert_eq!(s.active.as_deref(), Some("1"));
    assert_eq!(cached_user_id(&s), Some("did:privy:abc".to_string()));
}

#[test]
fn session_clear_then_read() {
    let mut s = SessionRecord::empty();
    save_session(&mut s, "u");
    clear_session(&mut s);
    assert!(!has_cached_session(&s));
    assert_eq!(cached_user_id(&s), None);
}

#[test]
fn session_marker_must_be_one() {
    let s = SessionRecord { active: Some("true".to_string()), user_id: None };
    assert!(!has_cached_session(&s));
}

// ---------------------------------------------------------------- auth

#[test]
fn auth_initial_from_cache() {
    let mut store = SessionRecord::empty();
    let s = AuthState::new(&store);
    assert!(s.loading && !s.authenticated);
    save_session(&mut store, "u");
    let s = AuthState::new(&store);
    assert!(s.loading && s.authenticated);
    assert!(s.user.is_none() && s.wallet_address.is_none() && !s.email_otp_sent);
}

#[test]
fn auth_init_ready_with_user_caches_it() {
    let mut store = SessionRecord::empty();
    let mut s = AuthState::new(&store);
    s.on_init_ready(&mut store, Some(user("u7", vec![])));
    assert!(!s.loading && s.authenticated);
    assert_eq!(s.user.as_ref().unwrap().id, "u7");
    assert_eq!(cached_user_id(&store), Some("u7".to_string()));
}

#[test]
fn auth_init_ready_without_user_clears_cache() {
    let mut store = SessionRecord::empty();
    save_session(&mut store, "old");
    let mut s = AuthState::new(&store);
    assert!(s.authenticated);
    s.on_init_ready(&mut store, None);
    assert!(!s.loading && !s.authenticated);
    assert!(!has_cached_session(&store));
}

#[test]
fn auth_init_failed_keeps_optimistic_state() {
    let mut store = SessionRecord::empty();
    save_session(&mut store, "old");
    let mut s = AuthState::new(&store);
    s.on_init_failed();
    assert!(!s.loading && s.authenticated);
}

#[test]
fn auth_wallet_connect() {
    let mut s = signed_out_state();
    s.error = Some("old".to_string());
    s.begin_loading();
    assert!(s.loading && s.error.is_none());
    s.on_wallet_connected("0xabc".to_string(), WalletType::MetaMask);
    assert!(!s.loading && s.authenticated);
    assert_eq!(s.wallet_address.as_deref(), Some("0xabc"));
    assert_eq!(s.wallet_type, Some(WalletType::MetaMask));
    assert!(!s.needs_phantom_disconnect());
}

#[test]
fn auth_errors_use_fallbacks() {
    let mut s = signed_out_state();
    s.begin_loading();
    s.on_error(None);
    assert_eq!(s.error.as_deref(), Some("Operation failed \u{2014} please try again."));
    assert!(!s.loading);
    s.begin_loading();
    s.on_error(Some("User rejected".to_string()));
    assert_eq!(s.error.as_deref(), Some("User rejected"));
    s.begin_loading();
    s.on_login_error(None);
    assert_eq!(s.error.as_deref(), Some("Login failed \u{2014} please try again."));
}

#[test]
fn auth_email_flow() {
    let mut store = SessionRecord::empty();
    let mut s = signed_out_state();
    s.begin_loading();
    s.on_email_code_sent();
    assert!(s.email_otp_sent && !s.loading);
    s.begin_loading();
    s.on_email_verified(&mut store, user("e1", vec![Some("a@b.c")]));
    assert!(!s.email_otp_sent && s.authenticated && !s.loading);
    assert_eq!(cached_user_id(&store), Some("e1".to_string()));
}

#[test]
fn auth_reset_otp() {
    let mut s = signed_out_state();
    s.on_email_code_sent();
    s.error = Some("bad code".to_string());
    s.reset_email_otp();
    assert!(!s.email_otp_sent && s.error.is_none());
}

#[test]
fn auth_disconnect_wallet_without_user_signs_out() {
    let mut s = signed_out_state();
    s.on_wallet_connected("So1".to_string(), WalletType::Phantom);
    assert!(s.needs_phantom_disconnect());
    s.finish_disconnect_wallet();
    assert!(!s.authenticated && s.wallet_address.is_none() && s.wallet_type.is_none());
}

#[test]
fn auth_disconnect_wallet_with_user_stays_signed_in() {
    let mut store = SessionRecord::empty();
    let mut s = signed_out_state();
    s.on_privy_login(&mut store, user("u", vec![]));
    s.on_wallet_connected("0x1".to_string(), WalletType::MetaMask);
    s.finish_disconnect_wallet();
    assert!(s.authenticated && s.user.is_some() && s.wallet_address.is_none());
}

#[test]
fn auth_logout_clears_everything() {
    let mut store = SessionRecord::empty();
    let mut s = signed_out_state();
    s.on_privy_login(&mut store, user("u", vec![]));
    s.on_wallet_connected("0x1".to_string(), WalletType::Phantom);
    s.on_email_code_sent();
    s.finish_logout(&mut store);
    assert!(!s.authenticated && s.user.is_none() && s.wallet_address.is_none());
    assert!(s.wallet_type.is_none() && !s.email_otp_sent);
    assert!(!has_cached_session(&store));
    assert!(!AuthState::new(&store).authenticated);
}

#[test]
fn auth_gate() {
    let mut s = signed_out_state();
    s.loading = true;
    assert_eq!(s.gate(), Gate::Loading);
    s.loading = false;
    assert_eq!(s.gate(), Gate::Redirect);
    s.authenticated = true;
    assert_eq!(s.gate(), Gate::Allowed);
}

// ---------------------------------------------------------------- user

#[test]
fn email_label_prefers_first_address() {
    let u = user("did:privy:0123456789", vec![None, Some("me@x.io"), Some("other@x.io")]);
    assert_eq!(email_label(&u), "me@x.io");
}

#[test]
fn email_label_falls_back_to_short_id() {
    let u = user("did:privy:0123456789", vec![None]);
    assert_eq!(email_label(&u), "did:pr\u{2026}6789");
}

#[test]
fn wallet_info_holds_fields() {
    let w = WalletInfo { address: "0x1".into(), chain_type: "ethereum".into(), wallet_client: None };
    assert_eq!(w.chain_type, "ethereum");
}

// ---------------------------------------------------------------- eth

#[test]
fn sign_payload_ascii() {
    assert_eq!(personal_sign_payload("hi"), "0x6869");
    assert_eq!(personal_sign_payload(""), "0x");
}

#[test]
fn sign_payload_utf8_and_high_bytes() {
    assert_eq!(personal_sign_payload("é\n"), "0xc3a90a");
}

#[test]
fn sign_params_lowercase_address() {
    let (m, a) = personal_sign_params("Hello", "0xABCdef");
    assert_eq!(m, "0x48656c6c6f");
    assert_eq!(a, "0xabcdef");
}

#[test]
fn chain_id_values() {
    assert_eq!(parse_chain_id("0x1"), Ok(1));
    assert_eq!(parse_chain_id("0xa4b1"), Ok(42161));
    assert_eq!(parse_chain_id("0xAA36A7"), Ok(11155111));
    assert_eq!(parse_chain_id("89"), Ok(137));
    assert_eq!(parse_chain_id("0x0x10"), Ok(16));
    assert_eq!(parse_chain_id("+f"), Ok(15));
    assert_eq!(parse_chain_id("0xffffffffffffffff"), Ok(u64::MAX));
}

#[test]
fn chain_id_errors() {
    assert_eq!(parse_chain_id(""), Err(ChainIdError::Empty));
    assert_eq!(parse_chain_id("0x"), Err(ChainIdError::Empty));
    assert_eq!(parse_chain_id("+"), Err(ChainIdError::InvalidDigit));
    assert_eq!(parse_chain_id("-1"), Err(ChainIdError::InvalidDigit));
    assert_eq!(parse_chain_id("0X1"), Err(ChainIdError::InvalidDigit));
    assert_eq!(parse_chain_id("0xg"), Err(ChainIdError::InvalidDigit));
    assert_eq!(parse_chain_id("0x10000000000000000"), Err(ChainIdError::PosOverflow));
    assert_eq!(parse_chain_id("0xfffffffffffffffffz"), Err(ChainIdError::PosOverflow));
}

#[test]
fn chain_id_agrees_with_std() {
    let samples = [
        "", "0x", "0x1", "1", "+", "-", "+1", "++1", "-1", "0x0x", "0xx1", "0X1", " 1", "1 ", "é", "0xé",
        "ff", "FF", "fF", "0xffffffffffffffff", "0x10000000000000000", "0x00000000000000000001",
        "fffffffffffffffff", "ffffffffffffffffz", "fffffffffffffffffz", "z", "0x12g4", "0x0x0x7",
    ];
    for s in samples.iter() {
        let expected = u64::from_str_radix(s.trim_start_matches("0x"), 16);
        let got = parse_chain_id(s);
        match (expected, got) {
            (Ok(a), Ok(b)) => assert_eq!(a, b, "{}", s),
            (Err(e), Err(k)) => assert_eq!(e.to_string(), k.message(), "{}", s),
            (e, g) => panic!("{}: std {:?}, library {:?}", s, e, g),
        }
    }
}

#[test]
fn chain_id_reply() {
    assert_eq!(chain_id_from_reply(Some("0x89".to_string())), Ok(137));
    assert_eq!(chain_id_from_reply(None), Err("eth_chainId: not a string".to_string()));
    assert_eq!(chain_id_from_reply(Some("".to_string())), Err("cannot parse integer from empty string".to_string()));
    assert_eq!(chain_id_from_reply(Some("0xq".to_string())), Err("invalid digit found in string".to_string()));
    assert_eq!(
        chain_id_from_reply(Some("0x1ffffffffffffffff".to_string())),
        Err("number too large to fit in target type".to_string())
    );
}

#[test]
fn chain_id_round_trip_samples() {
    for id in [0u64, 1, 15, 16, 255, 137, 11155111, u64::MAX] {
        assert_eq!(parse_chain_id(&format!("0x{:x}", id)), Ok(id));
    }
}

// ---------------------------------------------------------------- accounts

#[test]
fn accounts_lines_trimmed() {
    let got = parse_account_list("  Abc1  \n\nDef2\r\n   \n\tGhi3");
    assert_eq!(got, vec!["Abc1".to_string(), "Def2".to_string(), "Ghi3".to_string()]);
}

#[test]
fn accounts_empty_input() {
    assert!(parse_account_list("").is_empty());
    assert!(parse_account_list("\n \n\u{3000}\n").is_empty());
}

#[test]
fn accounts_agree_with_std() {
    let samples = [
        "a\nb", "a\r\nb\r\n", " a b \n", "\u{a0}x\u{2003}\ny\u{85}", "\n\n\nz", "single", "a\rb\n", "\u{feff}k\n",
    ];
    for s in samples.iter() {
        let expected: Vec<String> = s.lines().map(|l| l.trim().to_string()).filter(|l| !l.is_empty()).collect();
        assert_eq!(parse_account_list(s), expected, "{:?}", s);
    }
}

#[test]
fn accounts_clean_entries() {
    for a in parse_account_list(" p1 \n p 2 \n") {
        assert!(!a.is_empty() && a.trim() == a && !a.contains('\n'));
    }
}

// ---------------------------------------------------------------- wallet

#[test]
fn js_error_preference() {
    assert_eq!(describe_js_error(Some("m".into()), Some("s".into()), Some("o".into())), "m");
    assert_eq!(describe_js_error(None, Some("s".into()), Some("o".into())), "s");
    assert_eq!(describe_js_error(None, None, Some("[object Object]".into())), "[object Object]");
    assert_eq!(describe_js_error(None, None, None), "unknown JS error");
    assert_eq!(describe_action_error(None, None), "Unknown error");
    assert_eq!(describe_action_error(None, Some("s".into())), "s");
}

#[test]
fn bridge_call_results() {
    assert_eq!(settle_call(BridgeCall::SendEthPrivy, Ok(Some("0xhash".into()))), Ok("0xhash".to_string()));
    assert_eq!(settle_call(BridgeCall::SendEthPrivy, Err("rejected".into())), Err("rejected".to_string()));
    assert_eq!(
        settle_call(BridgeCall::ConnectMetaMask, Ok(None)),
        Err("connectMetaMask: expected string address".to_string())
    );
    assert_eq!(
        settle_call(BridgeCall::SendSplTokenPhantom, Ok(None)),
        Err("sendSPLTokenPhantom: expected signature".to_string())
    );
    assert_eq!(
        settle_call(BridgeCall::SendErc20MetaMask, Ok(None)),
        Err("sendERC20MetaMask: expected tx hash".to_string())
    );
    assert_eq!(
        settle_call(BridgeCall::SignMessagePrivySolana, Ok(None)),
        Err("signMessagePrivySolana: expected string".to_string())
    );
    assert_eq!(BridgeCall::InvokeProgramPrivy.name(), "invokeProgramPrivy");
}

#[test]
fn provider_checks() {
    assert_eq!(check_injected_provider(WalletType::MetaMask, false, false), Err("MetaMask not installed".to_string()));
    assert_eq!(
        check_injected_provider(WalletType::MetaMask, true, false),
        Err("MetaMask not found \u{2014} another wallet may be active".to_string())
    );
    assert_eq!(check_injected_provider(WalletType::Phantom, false, true), Err("Phantom not installed".to_string()));
    assert_eq!(
        check_injected_provider(WalletType::Phantom, true, false),
        Err("Phantom not found \u{2014} another Solana wallet may be active".to_string())
    );
    assert_eq!(check_injected_provider(WalletType::Phantom, true, true), Ok(()));
}

#[test]
fn phantom_key() {
    assert_eq!(phantom_public_key(false, Some("k".into())), Err("Phantom: no public key \u{2014} call connect() first".to_string()));
    assert_eq!(phantom_public_key(true, None), Err("Phantom: publicKey.toString() failed".to_string()));
    assert_eq!(phantom_public_key(true, Some("Key1".into())), Ok("Key1".to_string()));
}

// ---------------------------------------------------------------- ui

#[test]
fn ui_labels() {
    assert_eq!(wallet_label(Some(WalletType::MetaMask)), "MetaMask");
    assert_eq!(wallet_label(Some(WalletType::Phantom)), "Phantom");
    assert_eq!(wallet_label(None), "Wallet");
    assert_eq!(wallet_badge_icon(Some(WalletType::MetaMask)), "\u{1F98A}");
    assert_eq!(wallet_badge_icon(Some(WalletType::Phantom)), "\u{1F47B}");
    assert_eq!(wallet_badge_icon(None), "\u{1F511}");
}

#[test]
fn ui_dashboard_layout() {
    assert_eq!(
        dashboard_layout(None, false, false),
        DashboardLayout { browser_panels: None, privy_evm_panels: false, privy_solana_panels: false, no_wallet_notice: true }
    );
    assert_eq!(
        dashboard_layout(Some(WalletType::Phantom), false, true),
        DashboardLayout {
            browser_panels: Some(WalletType::Phantom),
            privy_evm_panels: false,
            privy_solana_panels: true,
            no_wallet_notice: false
        }
    );
    assert!(!dashboard_layout(None, true, false).no_wallet_notice);
}

#[test]
fn ui_email_buttons() {
    assert!(send_code_disabled(false, ""));
    assert!(send_code_disabled(true, "a@b.c"));
    assert!(!send_code_disabled(false, "a@b.c"));
    assert!(verify_code_disabled(false, "12345"));
    assert!(!verify_code_disabled(false, "123456"));
    assert!(verify_code_disabled(true, "123456"));
    assert!(should_send_code("x") && !should_send_code(""));
    assert!(should_verify_code("x", "1") && !should_verify_code("x", "") && !should_verify_code("", "1"));
}

#[test]
fn ui_fields_filled() {
    assert!(fields_filled(&vec!["a".to_string(), "b".to_string()]));
    assert!(!fields_filled(&vec!["a".to_string(), "".to_string()]));
    assert!(fields_filled(&vec![]));
}
