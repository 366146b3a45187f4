//! The catalog of tradable instruments and its symbol mapping.
//!
//! Each variant maps to the exchange's canonical uppercase symbol, used
//! verbatim as a URL path segment. The mapping is total and injective.

use vstd::prelude::*;

verus! {

/// Acronym of a tradable digital asset recognized by the exchange.
#[derive(Debug, Clone, Copy, PartialEq, Eq, Structural)]
pub enum Coin {
    AAVE,
    ACMFT,
    ACORDO01,
    ASRFT,
    ATMFT,
    AXS,
    BAL,
    BARFT,
    BAT,
    BCH,
    BTC,
    CAIFT,
    CHZ,
    COMP,
    CRV,
    DAI,
    DAL,
    ENJ,
    ETH,
    GALFT,
    GRT,
    IMOB01,
    JUVFT,
    KNC,
    LINK,
    LTC,
    MANA,
    MBCONS01,
    MBCONS02,
    MBFP01,
    MBFP02,
    MBFP03,
    MBFP04,
    MBPRK01,
    MBPRK02,
    MBPRK03,
    MBPRK04,
    MBVASCO01,
    MCO2,
    MKR,
    OGFT,
    PAXG,
    PSGFT,
    REI,
    REN,
    SNX,
    UMA,
    UNI,
    USDC,
    WBX,
    XRP,
    YFI,
    ZRX,
}

/// The canonical symbol of a coin, as a sequence of characters.
pub open spec fn spec_symbol(c: Coin) -> Seq<char> {
    match c {
        Coin::AAVE => "AAVE"@,
        Coin::ACMFT => "ACMFT"@,
        Coin::ACORDO01 => "ACORDO01"@,
        Coin::ASRFT => "ASRFT"@,
        Coin::ATMFT => "ATMFT"@,
        Coin::AXS => "AXS"@,
        Coin::BAL => "BAL"@,
        Coin::BARFT => "BARFT"@,
        Coin::BAT => "BAT"@,
        Coin::BCH => "BCH"@,
        Coin::BTC => "BTC"@,
        Coin::CAIFT => "CAIFT"@,
        Coin::CHZ => "CHZ"@,
        Coin::COMP => "COMP"@,
        Coin::CRV => "CRV"@,
        Coin::DAI => "DAI"@,
        Coin::DAL => "DAL"@,
        Coin::ENJ => "ENJ"@,
        Coin::ETH => "ETH"@,
        Coin::GALFT => "GALFT"@,
        Coin::GRT => "GRT"@,
        Coin::IMOB01 => "IMOB01"@,
        Coin::JUVFT => "JUVFT"@,
        Coin::KNC => "KNC"@,
        Coin::LINK => "LINK"@,
        Coin::LTC => "LTC"@,
        Coin::MANA => "MANA"@,
        Coin::MBCONS01 => "MBCONS01"@,
        Coin::MBCONS02 => "MBCONS02"@,
        Coin::MBFP01 => "MBFP01"@,
        Coin::MBFP02 => "MBFP02"@,
        Coin::MBFP03 => "MBFP03"@,
        Coin::MBFP04 => "MBFP04"@,
        Coin::MBPRK01 => "MBPRK01"@,
        Coin::MBPRK02 => "MBPRK02"@,
        Coin::MBPRK03 => "MBPRK03"@,
        Coin::MBPRK04 => "MBPRK04"@,
        Coin::MBVASCO01 => "MBVASCO01"@,
        Coin::MCO2 => "MCO2"@,
        Coin::MKR => "MKR"@,
        Coin::OGFT => "OGFT"@,
        Coin::PAXG => "PAXG"@,
        Coin::PSGFT => "PSGFT"@,
        Coin::REI => "REI"@,
        Coin::REN => "REN"@,
        Coin::SNX => "SNX"@,
        Coin::UMA => "UMA"@,
        Coin::UNI => "UNI"@,
        Coin::USDC => "USDC"@,
        Coin::WBX => "WBX"@,
        Coin::XRP => "XRP"@,
        Coin::YFI => "YFI"@,
        Coin::ZRX => "ZRX"@,
    }
}

impl Coin {
    /// The canonical symbol, exactly `spec_symbol`.
    pub fn symbol(&self) -> (r: &'static str)
        ensures
            r@ == spec_symbol(*self),
    {
        match self {
            Coin::AAVE => "AAVE",
            Coin::ACMFT => "ACMFT",
            Coin::ACORDO01 => "ACORDO01",
            Coin::ASRFT => "ASRFT",
            Coin::ATMFT => "ATMFT",
            Coin::AXS => "AXS",
            Coin::BAL => "BAL",
            Coin::BARFT => "BARFT",
            Coin::BAT => "BAT",
            Coin::BCH => "BCH",
            Coin::BTC => "BTC",
            Coin::CAIFT => "CAIFT",
            Coin::CHZ => "CHZ",
            Coin::COMP => "COMP",
            Coin::CRV => "CRV",
            Coin::DAI => "DAI",
            Coin::DAL => "DAL",
            Coin::ENJ => "ENJ",
            Coin::ETH => "ETH",
            Coin::GALFT => "GALFT",
            Coin::GRT => "GRT",
            Coin::IMOB01 => "IMOB01",
            Coin::JUVFT => "JUVFT",
            Coin::KNC => "KNC",
            Coin::LINK => "LINK",
            Coin::LTC => "LTC",
            Coin::MANA => "MANA",
            Coin::MBCONS01 => "MBCONS01",
            Coin::MBCONS02 => "MBCONS02",
            Coin::MBFP01 => "MBFP01",
            Coin::MBFP02 => "MBFP02",
            Coin::MBFP03 => "MBFP03",
            Coin::MBFP04 => "MBFP04",
            Coin::MBPRK01 => "MBPRK01",
            Coin::MBPRK02 => "MBPRK02",
            Coin::MBPRK03 => "MBPRK03",
            Coin::MBPRK04 => "MBPRK04",
            Coin::MBVASCO01 => "MBVASCO01",
            Coin::MCO2 => "MCO2",
            Coin::MKR => "MKR",
            Coin::OGFT => "OGFT",
            Coin::PAXG => "PAXG",
            Coin::PSGFT => "PSGFT",
            Coin::REI => "REI",
            Coin::REN => "REN",
            Coin::SNX => "SNX",
            Coin::UMA => "UMA",
            Coin::UNI => "UNI",
            Coin::USDC => "USDC",
            Coin::WBX => "WBX",
            Coin::XRP => "XRP",
            Coin::YFI => "YFI",
            Coin::ZRX => "ZRX",
        }
    }

    /// The canonical symbol, under the name the catalog has always exposed.
    pub fn as_ref(&self) -> (r: &'static str)
        ensures
            r@ == spec_symbol(*self),
    {
        self.symbol()
    }
}


/// A well-formed symbol: non-empty, every character an uppercase ASCII letter
/// or an ASCII digit.
pub open spec fn symbol_wf(s: Seq<char>) -> bool {
    s.len() > 0 && forall|i: int|
        0 <= i < s.len() ==> (('A' <= s[i] && s[i] <= 'Z') || ('0' <= s[i] && s[i] <= '9'))
}

/// Law: every coin's symbol is a non-empty uppercase-ASCII string, and the
/// mapping from coin to symbol is injective — no two coins share a symbol.
#[verifier::rlimit(100)]
pub proof fn lemma_symbol_catalog()
    ensures
        forall|c: Coin| #[trigger] symbol_wf(spec_symbol(c)),
        forall|c1: Coin, c2: Coin| spec_symbol(c1) == spec_symbol(c2) ==> c1 == c2,
{
    reveal_strlit("AAVE");
    reveal_strlit("ACMFT");
    reveal_strlit("ACORDO01");
    reveal_strlit("ASRFT");
    reveal_strlit("ATMFT");
    reveal_strlit("AXS");
    reveal_strlit("BAL");
    reveal_strlit("BARFT");
    reveal_strlit("BAT");
    reveal_strlit("BCH");
    reveal_strlit("BTC");
    reveal_strlit("CAIFT");
    reveal_strlit("CHZ");
    reveal_strlit("COMP");
    reveal_strlit("CRV");
    reveal_strlit("DAI");
    reveal_strlit("DAL");
    reveal_strlit("ENJ");
    reveal_strlit("ETH");
    reveal_strlit("GALFT");
    reveal_strlit("GRT");
    reveal_strlit("IMOB01");
    reveal_strlit("JUVFT");
    reveal_strlit("KNC");
    reveal_strlit("LINK");
    reveal_strlit("LTC");
    reveal_strlit("MANA");
    reveal_strlit("MBCONS01");
    reveal_strlit("MBCONS02");
    reveal_strlit("MBFP01");
    reveal_strlit("MBFP02");
    reveal_strlit("MBFP03");
    reveal_strlit("MBFP04");
    reveal_strlit("MBPRK01");
    reveal_strlit("MBPRK02");
    reveal_strlit("MBPRK03");
    reveal_strlit("MBPRK04");
    reveal_strlit("MBVASCO01");
    reveal_strlit("MCO2");
    reveal_strlit("MKR");
    reveal_strlit("OGFT");
    reveal_strlit("PAXG");
    reveal_strlit("PSGFT");
    reveal_strlit("REI");
    reveal_strlit("REN");
    reveal_strlit("SNX");
    reveal_strlit("UMA");
    reveal_strlit("UNI");
    reveal_strlit("USDC");
    reveal_strlit("WBX");
    reveal_strlit("XRP");
    reveal_strlit("YFI");
    reveal_strlit("ZRX");
    assert forall|c1: Coin, c2: Coin| spec_symbol(c1) == spec_symbol(c2) implies c1 == c2 by {
        let s1 = spec_symbol(c1);
        let s2 = spec_symbol(c2);
        assert(s1.len() == s2.len());
        assert(s1[0] == s2[0]);
        assert(s1[1] == s2[1]);
        assert(s1[2] == s2[2]);
        if s1.len() > 3 {
            assert(s1[3] == s2[3]);
        }
        if s1.len() > 4 {
            assert(s1[4] == s2[4]);
        }
        if s1.len() > 5 {
            assert(s1[5] == s2[5]);
        }
        if s1.len() > 6 {
            assert(s1[6] == s2[6]);
        }
        if s1.len() > 7 {
            assert(s1[7] == s2[7]);
        }
    }
}

} // verus!
