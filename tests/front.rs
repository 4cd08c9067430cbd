use grin_gui_core::chain::ChainType;
use grin_gui_core::menu::{handle_message, LocalViewInteraction, Mode, StateContainer};
use grin_gui_core::theme::TextInputStyle;
use grin_gui_core::wallet::{dir_name_of_lowercase, unique_display_name, wallet_dir_name, Wallet};

#[test]
fn menu_selects_mode() {
    let mut state = StateContainer::default();
    assert_eq!(Mode::Wallet, state.mode);
    handle_message(&mut state, LocalViewInteraction::SelectMode(Mode::Node));
    assert_eq!(Mode::Node, state.mode);
}

#[test]
fn wallet_defaults() {
    let w = Wallet::default();
    assert_eq!("Default", w.display_name);
    assert!(w.use_embedded_node);
    assert_eq!(ChainType::Mainnet, w.chain_type);
    let w = Wallet::new(Some("/tmp/w".to_owned()), "mine".to_owned(), ChainType::Testnet);
    assert_eq!(Some("/tmp/w".to_owned()), w.tld);
    assert_eq!(ChainType::Testnet, w.chain_type);
    assert_eq!(TextInputStyle::Default, TextInputStyle::default());
}

fn wallet_named(name: &str) -> Wallet {
    Wallet::new(None, name.to_owned(), ChainType::Mainnet)
}

#[test]
fn unique_wallet_names() {
    assert_eq!("Default", unique_display_name("Default", &vec![]));
    assert_eq!("Default", unique_display_name("Default", &vec![wallet_named("Default 1")]));
    assert_eq!(
        "Default 2",
        unique_display_name("Default", &vec![wallet_named("Default 1"), wallet_named("Default")])
    );
    let many: Vec<Wallet> = (1..=11)
        .map(|i| wallet_named(&format!("Default {}", i)))
        .chain(std::iter::once(wallet_named("Default")))
        .collect();
    assert_eq!("Default 12", unique_display_name("Default", &many));
}

#[test]
fn wallet_directory_names() {
    assert_eq!("default_1", wallet_dir_name("Default 1"));
    assert_eq!("my_main_wallet", wallet_dir_name("My Main Wallet"));
    assert_eq!("a_b", dir_name_of_lowercase("a b"));
    assert_eq!("", wallet_dir_name(""));
}
