use mercadobitcoin::coin::Coin;

fn all_coins() -> Vec<Coin> {
    vec![
        Coin::AAVE,
        Coin::ACMFT,
        Coin::ACORDO01,
        Coin::ASRFT,
        Coin::ATMFT,
        Coin::AXS,
        Coin::BAL,
        Coin::BARFT,
        Coin::BAT,
        Coin::BCH,
        Coin::BTC,
        Coin::CAIFT,
        Coin::CHZ,
        Coin::COMP,
        Coin::CRV,
        Coin::DAI,
        Coin::DAL,
        Coin::ENJ,
        Coin::ETH,
        Coin::GALFT,
        Coin::GRT,
        Coin::IMOB01,
        Coin::JUVFT,
        Coin::KNC,
        Coin::LINK,
        Coin::LTC,
        Coin::MANA,
        Coin::MBCONS01,
        Coin::MBCONS02,
        Coin::MBFP01,
        Coin::MBFP02,
        Coin::MBFP03,
        Coin::MBFP04,
        Coin::MBPRK01,
        Coin::MBPRK02,
        Coin::MBPRK03,
        Coin::MBPRK04,
        Coin::MBVASCO01,
        Coin::MCO2,
        Coin::MKR,
        Coin::OGFT,
        Coin::PAXG,
        Coin::PSGFT,
        Coin::REI,
        Coin::REN,
        Coin::SNX,
        Coin::UMA,
        Coin::UNI,
        Coin::USDC,
        Coin::WBX,
        Coin::XRP,
        Coin::YFI,
        Coin::ZRX,
    ]
}

#[test]
fn btc_coin() {
    let coin = Coin::BTC;
    assert_eq!("BTC", coin.as_ref());
}

#[test]
fn symbols_nonempty_uppercase_ascii() {
    for c in all_coins() {
        let s = c.symbol();
        assert!(!s.is_empty());
        for ch in s.chars() {
            assert!(ch.is_ascii_uppercase() || ch.is_ascii_digit());
        }
    }
}

#[test]
fn symbols_pairwise_distinct() {
    let coins = all_coins();
    assert_eq!(coins.len(), 53);
    for (i, a) in coins.iter().enumerate() {
        for (j, b) in coins.iter().enumerate() {
            if i != j {
                assert_ne!(a.symbol(), b.symbol());
            }
        }
    }
}

#[test]
fn symbol_and_as_ref_agree() {
    for c in all_coins() {
        assert_eq!(c.symbol(), c.as_ref());
    }
}
