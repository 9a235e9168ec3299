//! The currency pairs bitstamp's channels can name.

use vstd::prelude::*;

verus! {

/// One tradable instrument, named as bitstamp's channel suffixes name it
/// (the lower-case concatenation of the two currencies).
#[derive(Clone, Copy, PartialEq, Eq, Structural, Debug)]
pub enum CurrencyPair {
    Aavebtc,
    Aaveeur,
    Aaveusd,
    Adabtc,
    Adaeur,
    Adausd,
    Algobtc,
    Algoeur,
    Algousd,
    Alphaeur,
    Alphausd,
    Ampeur,
    Ampusd,
    Audiobtc,
    Audioeur,
    Audiousd,
    Avaxeur,
    Avaxusd,
    Axseur,
    Axsusd,
    Batbtc,
    Bateur,
    Batusd,
    Bchbtc,
    Bcheur,
    Bchgbp,
    Bchusd,
    Btceur,
    Btcgbp,
    Btcpax,
    Btcusd,
    Btcusdc,
    Btcusdt,
    Celeur,
    Celusd,
    Chzeur,
    Chzusd,
    Compbtc,
    Compeur,
    Compusd,
    Crvbtc,
    Crveur,
    Crvusd,
    Ctsieur,
    Ctsiusd,
    Cvxeur,
    Cvxusd,
    Daiusd,
    Dydxeur,
    Dydxusd,
    Enjeur,
    Enjusd,
    Eth2eth,
    Ethbtc,
    Etheur,
    Ethgbp,
    Ethpax,
    Ethusd,
    Ethusdc,
    Ethusdt,
    Eurteur,
    Eurtusd,
    Eurusd,
    Feteur,
    Fetusd,
    Ftmeur,
    Ftmusd,
    Ftteur,
    Fttusd,
    Galaeur,
    Galausd,
    Gbpeur,
    Gbpusd,
    Grteur,
    Grtusd,
    Gusdusd,
    Hbareur,
    Hbarusd,
    Imxeur,
    Imxusd,
    Kncbtc,
    Knceur,
    Kncusd,
    Linkbtc,
    Linketh,
    Linkeur,
    Linkgbp,
    Linkusd,
    Ltcbtc,
    Ltceur,
    Ltcgbp,
    Ltcusd,
    Maticeur,
    Maticusd,
    Mkrbtc,
    Mkreur,
    Mkrusd,
    Nexoeur,
    Nexousd,
    Omgbtc,
    Omgeur,
    Omggbp,
    Omgusd,
    Paxeur,
    Paxgbp,
    Paxusd,
    Perpeur,
    Perpusd,
    Rgteur,
    Rgtusd,
    Sandeur,
    Sandusd,
    Sgbeur,
    Sgbusd,
    Skleur,
    Sklusd,
    Slpeur,
    Slpusd,
    Snxbtc,
    Snxeur,
    Snxusd,
    Storjeur,
    Storjusd,
    Sushieur,
    Sushiusd,
    Sxpeur,
    Sxpusd,
    Umabtc,
    Umaeur,
    Umausd,
    Unibtc,
    Unieur,
    Uniusd,
    Usdceur,
    Usdcusd,
    Usdcusdt,
    Usdteur,
    Usdtusd,
    Usteur,
    Ustusd,
    Wbtcbtc,
    Xlmbtc,
    Xlmeur,
    Xlmgbp,
    Xlmusd,
    Xrpbtc,
    Xrpeur,
    Xrpgbp,
    Xrppax,
    Xrpusd,
    Xrpusdt,
    Yfibtc,
    Yfieur,
    Yfiusd,
    Zrxbtc,
    Zrxeur,
    Zrxusd,
}

/// The wire name of a currency pair: the variant name in lower case.
pub open spec fn spec_pair_name(p: CurrencyPair) -> Seq<char> {
    match p {
        CurrencyPair::Aavebtc => "aavebtc"@,
        CurrencyPair::Aaveeur => "aaveeur"@,
        CurrencyPair::Aaveusd => "aaveusd"@,
        CurrencyPair::Adabtc => "adabtc"@,
        CurrencyPair::Adaeur => "adaeur"@,
        CurrencyPair::Adausd => "adausd"@,
        CurrencyPair::Algobtc => "algobtc"@,
        CurrencyPair::Algoeur => "algoeur"@,
        CurrencyPair::Algousd => "algousd"@,
        CurrencyPair::Alphaeur => "alphaeur"@,
        CurrencyPair::Alphausd => "alphausd"@,
        CurrencyPair::Ampeur => "ampeur"@,
        CurrencyPair::Ampusd => "ampusd"@,
        CurrencyPair::Audiobtc => "audiobtc"@,
        CurrencyPair::Audioeur => "audioeur"@,
        CurrencyPair::Audiousd => "audiousd"@,
        CurrencyPair::Avaxeur => "avaxeur"@,
        CurrencyPair::Avaxusd => "avaxusd"@,
        CurrencyPair::Axseur => "axseur"@,
        CurrencyPair::Axsusd => "axsusd"@,
        CurrencyPair::Batbtc => "batbtc"@,
        CurrencyPair::Bateur => "bateur"@,
        CurrencyPair::Batusd => "batusd"@,
        CurrencyPair::Bchbtc => "bchbtc"@,
        CurrencyPair::Bcheur => "bcheur"@,
        CurrencyPair::Bchgbp => "bchgbp"@,
        CurrencyPair::Bchusd => "bchusd"@,
        CurrencyPair::Btceur => "btceur"@,
        CurrencyPair::Btcgbp => "btcgbp"@,
        CurrencyPair::Btcpax => "btcpax"@,
        CurrencyPair::Btcusd => "btcusd"@,
        CurrencyPair::Btcusdc => "btcusdc"@,
        CurrencyPair::Btcusdt => "btcusdt"@,
        CurrencyPair::Celeur => "celeur"@,
        CurrencyPair::Celusd => "celusd"@,
        CurrencyPair::Chzeur => "chzeur"@,
        CurrencyPair::Chzusd => "chzusd"@,
        CurrencyPair::Compbtc => "compbtc"@,
        CurrencyPair::Compeur => "compeur"@,
        CurrencyPair::Compusd => "compusd"@,
        CurrencyPair::Crvbtc => "crvbtc"@,
        CurrencyPair::Crveur => "crveur"@,
        CurrencyPair::Crvusd => "crvusd"@,
        CurrencyPair::Ctsieur => "ctsieur"@,
        CurrencyPair::Ctsiusd => "ctsiusd"@,
        CurrencyPair::Cvxeur => "cvxeur"@,
        CurrencyPair::Cvxusd => "cvxusd"@,
        CurrencyPair::Daiusd => "daiusd"@,
        CurrencyPair::Dydxeur => "dydxeur"@,
        CurrencyPair::Dydxusd => "dydxusd"@,
        CurrencyPair::Enjeur => "enjeur"@,
        CurrencyPair::Enjusd => "enjusd"@,
        CurrencyPair::Eth2eth => "eth2eth"@,
        CurrencyPair::Ethbtc => "ethbtc"@,
        CurrencyPair::Etheur => "etheur"@,
        CurrencyPair::Ethgbp => "ethgbp"@,
        CurrencyPair::Ethpax => "ethpax"@,
        CurrencyPair::Ethusd => "ethusd"@,
        CurrencyPair::Ethusdc => "ethusdc"@,
        CurrencyPair::Ethusdt => "ethusdt"@,
        CurrencyPair::Eurteur => "eurteur"@,
        CurrencyPair::Eurtusd => "eurtusd"@,
        CurrencyPair::Eurusd => "eurusd"@,
        CurrencyPair::Feteur => "feteur"@,
        CurrencyPair::Fetusd => "fetusd"@,
        CurrencyPair::Ftmeur => "ftmeur"@,
        CurrencyPair::Ftmusd => "ftmusd"@,
        CurrencyPair::Ftteur => "ftteur"@,
        CurrencyPair::Fttusd => "fttusd"@,
        CurrencyPair::Galaeur => "galaeur"@,
        CurrencyPair::Galausd => "galausd"@,
        CurrencyPair::Gbpeur => "gbpeur"@,
        CurrencyPair::Gbpusd => "gbpusd"@,
        CurrencyPair::Grteur => "grteur"@,
        CurrencyPair::Grtusd => "grtusd"@,
        CurrencyPair::Gusdusd => "gusdusd"@,
        CurrencyPair::Hbareur => "hbareur"@,
        CurrencyPair::Hbarusd => "hbarusd"@,
        CurrencyPair::Imxeur => "imxeur"@,
        CurrencyPair::Imxusd => "imxusd"@,
        CurrencyPair::Kncbtc => "kncbtc"@,
        CurrencyPair::Knceur => "knceur"@,
        CurrencyPair::Kncusd => "kncusd"@,
        CurrencyPair::Linkbtc => "linkbtc"@,
        CurrencyPair::Linketh => "linketh"@,
        CurrencyPair::Linkeur => "linkeur"@,
        CurrencyPair::Linkgbp => "linkgbp"@,
        CurrencyPair::Linkusd => "linkusd"@,
        CurrencyPair::Ltcbtc => "ltcbtc"@,
        CurrencyPair::Ltceur => "ltceur"@,
        CurrencyPair::Ltcgbp => "ltcgbp"@,
        CurrencyPair::Ltcusd => "ltcusd"@,
        CurrencyPair::Maticeur => "maticeur"@,
        CurrencyPair::Maticusd => "maticusd"@,
        CurrencyPair::Mkrbtc => "mkrbtc"@,
        CurrencyPair::Mkreur => "mkreur"@,
        CurrencyPair::Mkrusd => "mkrusd"@,
        CurrencyPair::Nexoeur => "nexoeur"@,
        CurrencyPair::Nexousd => "nexousd"@,
        CurrencyPair::Omgbtc => "omgbtc"@,
        CurrencyPair::Omgeur => "omgeur"@,
        CurrencyPair::Omggbp => "omggbp"@,
        CurrencyPair::Omgusd => "omgusd"@,
        CurrencyPair::Paxeur => "paxeur"@,
        CurrencyPair::Paxgbp => "paxgbp"@,
        CurrencyPair::Paxusd => "paxusd"@,
        CurrencyPair::Perpeur => "perpeur"@,
        CurrencyPair::Perpusd => "perpusd"@,
        CurrencyPair::Rgteur => "rgteur"@,
        CurrencyPair::Rgtusd => "rgtusd"@,
        CurrencyPair::Sandeur => "sandeur"@,
        CurrencyPair::Sandusd => "sandusd"@,
        CurrencyPair::Sgbeur => "sgbeur"@,
        CurrencyPair::Sgbusd => "sgbusd"@,
        CurrencyPair::Skleur => "skleur"@,
        CurrencyPair::Sklusd => "sklusd"@,
        CurrencyPair::Slpeur => "slpeur"@,
        CurrencyPair::Slpusd => "slpusd"@,
        CurrencyPair::Snxbtc => "snxbtc"@,
        CurrencyPair::Snxeur => "snxeur"@,
        CurrencyPair::Snxusd => "snxusd"@,
        CurrencyPair::Storjeur => "storjeur"@,
        CurrencyPair::Storjusd => "storjusd"@,
        CurrencyPair::Sushieur => "sushieur"@,
        CurrencyPair::Sushiusd => "sushiusd"@,
        CurrencyPair::Sxpeur => "sxpeur"@,
        CurrencyPair::Sxpusd => "sxpusd"@,
        CurrencyPair::Umabtc => "umabtc"@,
        CurrencyPair::Umaeur => "umaeur"@,
        CurrencyPair::Umausd => "umausd"@,
        CurrencyPair::Unibtc => "unibtc"@,
        CurrencyPair::Unieur => "unieur"@,
        CurrencyPair::Uniusd => "uniusd"@,
        CurrencyPair::Usdceur => "usdceur"@,
        CurrencyPair::Usdcusd => "usdcusd"@,
        CurrencyPair::Usdcusdt => "usdcusdt"@,
        CurrencyPair::Usdteur => "usdteur"@,
        CurrencyPair::Usdtusd => "usdtusd"@,
        CurrencyPair::Usteur => "usteur"@,
        CurrencyPair::Ustusd => "ustusd"@,
        CurrencyPair::Wbtcbtc => "wbtcbtc"@,
        CurrencyPair::Xlmbtc => "xlmbtc"@,
        CurrencyPair::Xlmeur => "xlmeur"@,
        CurrencyPair::Xlmgbp => "xlmgbp"@,
        CurrencyPair::Xlmusd => "xlmusd"@,
        CurrencyPair::Xrpbtc => "xrpbtc"@,
        CurrencyPair::Xrpeur => "xrpeur"@,
        CurrencyPair::Xrpgbp => "xrpgbp"@,
        CurrencyPair::Xrppax => "xrppax"@,
        CurrencyPair::Xrpusd => "xrpusd"@,
        CurrencyPair::Xrpusdt => "xrpusdt"@,
        CurrencyPair::Yfibtc => "yfibtc"@,
        CurrencyPair::Yfieur => "yfieur"@,
        CurrencyPair::Yfiusd => "yfiusd"@,
        CurrencyPair::Zrxbtc => "zrxbtc"@,
        CurrencyPair::Zrxeur => "zrxeur"@,
        CurrencyPair::Zrxusd => "zrxusd"@,
    }
}

/// Render a currency pair as its wire name.
pub fn pair_name(p: CurrencyPair) -> (r: &'static str)
    ensures
        r@ == spec_pair_name(p),
{
    match p {
        CurrencyPair::Aavebtc => "aavebtc",
        CurrencyPair::Aaveeur => "aaveeur",
        CurrencyPair::Aaveusd => "aaveusd",
        CurrencyPair::Adabtc => "adabtc",
        CurrencyPair::Adaeur => "adaeur",
        CurrencyPair::Adausd => "adausd",
        CurrencyPair::Algobtc => "algobtc",
        CurrencyPair::Algoeur => "algoeur",
        CurrencyPair::Algousd => "algousd",
        CurrencyPair::Alphaeur => "alphaeur",
        CurrencyPair::Alphausd => "alphausd",
        CurrencyPair::Ampeur => "ampeur",
        CurrencyPair::Ampusd => "ampusd",
        CurrencyPair::Audiobtc => "audiobtc",
        CurrencyPair::Audioeur => "audioeur",
        CurrencyPair::Audiousd => "audiousd",
        CurrencyPair::Avaxeur => "avaxeur",
        CurrencyPair::Avaxusd => "avaxusd",
        CurrencyPair::Axseur => "axseur",
        CurrencyPair::Axsusd => "axsusd",
        CurrencyPair::Batbtc => "batbtc",
        CurrencyPair::Bateur => "bateur",
        CurrencyPair::Batusd => "batusd",
        CurrencyPair::Bchbtc => "bchbtc",
        CurrencyPair::Bcheur => "bcheur",
        CurrencyPair::Bchgbp => "bchgbp",
        CurrencyPair::Bchusd => "bchusd",
        CurrencyPair::Btceur => "btceur",
        CurrencyPair::Btcgbp => "btcgbp",
        CurrencyPair::Btcpax => "btcpax",
        CurrencyPair::Btcusd => "btcusd",
        CurrencyPair::Btcusdc => "btcusdc",
        CurrencyPair::Btcusdt => "btcusdt",
        CurrencyPair::Celeur => "celeur",
        CurrencyPair::Celusd => "celusd",
        CurrencyPair::Chzeur => "chzeur",
        CurrencyPair::Chzusd => "chzusd",
        CurrencyPair::Compbtc => "compbtc",
        CurrencyPair::Compeur => "compeur",
        CurrencyPair::Compusd => "compusd",
        CurrencyPair::Crvbtc => "crvbtc",
        CurrencyPair::Crveur => "crveur",
        CurrencyPair::Crvusd => "crvusd",
        CurrencyPair::Ctsieur => "ctsieur",
        CurrencyPair::Ctsiusd => "ctsiusd",
        CurrencyPair::Cvxeur => "cvxeur",
        CurrencyPair::Cvxusd => "cvxusd",
        CurrencyPair::Daiusd => "daiusd",
        CurrencyPair::Dydxeur => "dydxeur",
        CurrencyPair::Dydxusd => "dydxusd",
        CurrencyPair::Enjeur => "enjeur",
        CurrencyPair::Enjusd => "enjusd",
        CurrencyPair::Eth2eth => "eth2eth",
        CurrencyPair::Ethbtc => "ethbtc",
        CurrencyPair::Etheur => "etheur",
        CurrencyPair::Ethgbp => "ethgbp",
        CurrencyPair::Ethpax => "ethpax",
        CurrencyPair::Ethusd => "ethusd",
        CurrencyPair::Ethusdc => "ethusdc",
        CurrencyPair::Ethusdt => "ethusdt",
        CurrencyPair::Eurteur => "eurteur",
        CurrencyPair::Eurtusd => "eurtusd",
        CurrencyPair::Eurusd => "eurusd",
        CurrencyPair::Feteur => "feteur",
        CurrencyPair::Fetusd => "fetusd",
        CurrencyPair::Ftmeur => "ftmeur",
        CurrencyPair::Ftmusd => "ftmusd",
        CurrencyPair::Ftteur => "ftteur",
        CurrencyPair::Fttusd => "fttusd",
        CurrencyPair::Galaeur => "galaeur",
        CurrencyPair::Galausd => "galausd",
        CurrencyPair::Gbpeur => "gbpeur",
        CurrencyPair::Gbpusd => "gbpusd",
        CurrencyPair::Grteur => "grteur",
        CurrencyPair::Grtusd => "grtusd",
        CurrencyPair::Gusdusd => "gusdusd",
        CurrencyPair::Hbareur => "hbareur",
        CurrencyPair::Hbarusd => "hbarusd",
        CurrencyPair::Imxeur => "imxeur",
        CurrencyPair::Imxusd => "imxusd",
        CurrencyPair::Kncbtc => "kncbtc",
        CurrencyPair::Knceur => "knceur",
        CurrencyPair::Kncusd => "kncusd",
        CurrencyPair::Linkbtc => "linkbtc",
        CurrencyPair::Linketh => "linketh",
        CurrencyPair::Linkeur => "linkeur",
        CurrencyPair::Linkgbp => "linkgbp",
        CurrencyPair::Linkusd => "linkusd",
        CurrencyPair::Ltcbtc => "ltcbtc",
        CurrencyPair::Ltceur => "ltceur",
        CurrencyPair::Ltcgbp => "ltcgbp",
        CurrencyPair::Ltcusd => "ltcusd",
        CurrencyPair::Maticeur => "maticeur",
        CurrencyPair::Maticusd => "maticusd",
        CurrencyPair::Mkrbtc => "mkrbtc",
        CurrencyPair::Mkreur => "mkreur",
        CurrencyPair::Mkrusd => "mkrusd",
        CurrencyPair::Nexoeur => "nexoeur",
        CurrencyPair::Nexousd => "nexousd",
        CurrencyPair::Omgbtc => "omgbtc",
        CurrencyPair::Omgeur => "omgeur",
        CurrencyPair::Omggbp => "omggbp",
        CurrencyPair::Omgusd => "omgusd",
        CurrencyPair::Paxeur => "paxeur",
        CurrencyPair::Paxgbp => "paxgbp",
        CurrencyPair::Paxusd => "paxusd",
        CurrencyPair::Perpeur => "perpeur",
        CurrencyPair::Perpusd => "perpusd",
        CurrencyPair::Rgteur => "rgteur",
        CurrencyPair::Rgtusd => "rgtusd",
        CurrencyPair::Sandeur => "sandeur",
        CurrencyPair::Sandusd => "sandusd",
        CurrencyPair::Sgbeur => "sgbeur",
        CurrencyPair::Sgbusd => "sgbusd",
        CurrencyPair::Skleur => "skleur",
        CurrencyPair::Sklusd => "sklusd",
        CurrencyPair::Slpeur => "slpeur",
        CurrencyPair::Slpusd => "slpusd",
        CurrencyPair::Snxbtc => "snxbtc",
        CurrencyPair::Snxeur => "snxeur",
        CurrencyPair::Snxusd => "snxusd",
        CurrencyPair::Storjeur => "storjeur",
        CurrencyPair::Storjusd => "storjusd",
        CurrencyPair::Sushieur => "sushieur",
        CurrencyPair::Sushiusd => "sushiusd",
        CurrencyPair::Sxpeur => "sxpeur",
        CurrencyPair::Sxpusd => "sxpusd",
        CurrencyPair::Umabtc => "umabtc",
        CurrencyPair::Umaeur => "umaeur",
        CurrencyPair::Umausd => "umausd",
        CurrencyPair::Unibtc => "unibtc",
        CurrencyPair::Unieur => "unieur",
        CurrencyPair::Uniusd => "uniusd",
        CurrencyPair::Usdceur => "usdceur",
        CurrencyPair::Usdcusd => "usdcusd",
        CurrencyPair::Usdcusdt => "usdcusdt",
        CurrencyPair::Usdteur => "usdteur",
        CurrencyPair::Usdtusd => "usdtusd",
        CurrencyPair::Usteur => "usteur",
        CurrencyPair::Ustusd => "ustusd",
        CurrencyPair::Wbtcbtc => "wbtcbtc",
        CurrencyPair::Xlmbtc => "xlmbtc",
        CurrencyPair::Xlmeur => "xlmeur",
        CurrencyPair::Xlmgbp => "xlmgbp",
        CurrencyPair::Xlmusd => "xlmusd",
        CurrencyPair::Xrpbtc => "xrpbtc",
        CurrencyPair::Xrpeur => "xrpeur",
        CurrencyPair::Xrpgbp => "xrpgbp",
        CurrencyPair::Xrppax => "xrppax",
        CurrencyPair::Xrpusd => "xrpusd",
        CurrencyPair::Xrpusdt => "xrpusdt",
        CurrencyPair::Yfibtc => "yfibtc",
        CurrencyPair::Yfieur => "yfieur",
        CurrencyPair::Yfiusd => "yfiusd",
        CurrencyPair::Zrxbtc => "zrxbtc",
        CurrencyPair::Zrxeur => "zrxeur",
        CurrencyPair::Zrxusd => "zrxusd",
    }
}

/// Characters a wire name may hold: lower-case ASCII letters and digits.
pub open spec fn is_name_char(c: char) -> bool {
    ('a' <= c && c <= 'z') || ('0' <= c && c <= '9')
}

/// A sequence made only of name characters.
pub open spec fn all_name_chars(s: Seq<char>) -> bool {
    forall|i: int| 0 <= i < s.len() ==> is_name_char(#[trigger] s[i])
}

/// Reads the characters of `s` from position `i` on as base-1000 digits.
/// Two strings of name characters agree exactly when their readings agree,
/// which turns string disequalities into integer disequalities.
pub open spec fn name_num_at(s: Seq<char>, i: int) -> int
    decreases s.len() - i,
{
    if i < 0 || i >= s.len() {
        0
    } else {
        (s[i] as int) + 1000 * name_num_at(s, i + 1)
    }
}

/// The base-1000 reading of a whole string.
pub open spec fn name_num(s: Seq<char>) -> int {
    name_num_at(s, 0)
}

/// The base-1000 reading of each pair's wire name.
pub open spec fn pair_num(p: CurrencyPair) -> int {
    match p {
        CurrencyPair::Aavebtc => 99116098101118097097,
        CurrencyPair::Aaveeur => 114117101101118097097,
        CurrencyPair::Aaveusd => 100115117101118097097,
        CurrencyPair::Adabtc => 99116098097100097,
        CurrencyPair::Adaeur => 114117101097100097,
        CurrencyPair::Adausd => 100115117097100097,
        CurrencyPair::Algobtc => 99116098111103108097,
        CurrencyPair::Algoeur => 114117101111103108097,
        CurrencyPair::Algousd => 100115117111103108097,
        CurrencyPair::Alphaeur => 114117101097104112108097,
        CurrencyPair::Alphausd => 100115117097104112108097,
        CurrencyPair::Ampeur => 114117101112109097,
        CurrencyPair::Ampusd => 100115117112109097,
        CurrencyPair::Audiobtc => 99116098111105100117097,
        CurrencyPair::Audioeur => 114117101111105100117097,
        CurrencyPair::Audiousd => 100115117111105100117097,
        CurrencyPair::Avaxeur => 114117101120097118097,
        CurrencyPair::Avaxusd => 100115117120097118097,
        CurrencyPair::Axseur => 114117101115120097,
        CurrencyPair::Axsusd => 100115117115120097,
        CurrencyPair::Batbtc => 99116098116097098,
        CurrencyPair::Bateur => 114117101116097098,
        CurrencyPair::Batusd => 100115117116097098,
        CurrencyPair::Bchbtc => 99116098104099098,
        CurrencyPair::Bcheur => 114117101104099098,
        CurrencyPair::Bchgbp => 112098103104099098,
        CurrencyPair::Bchusd => 100115117104099098,
        CurrencyPair::Btceur => 114117101099116098,
        CurrencyPair::Btcgbp => 112098103099116098,
        CurrencyPair::Btcpax => 120097112099116098,
        CurrencyPair::Btcusd => 100115117099116098,
        CurrencyPair::Btcusdc => 99100115117099116098,
        CurrencyPair::Btcusdt => 116100115117099116098,
        CurrencyPair::Celeur => 114117101108101099,
        CurrencyPair::Celusd => 100115117108101099,
        CurrencyPair::Chzeur => 114117101122104099,
        CurrencyPair::Chzusd => 100115117122104099,
        CurrencyPair::Compbtc => 99116098112109111099,
        CurrencyPair::Compeur => 114117101112109111099,
        CurrencyPair::Compusd => 100115117112109111099,
        CurrencyPair::Crvbtc => 99116098118114099,
        CurrencyPair::Crveur => 114117101118114099,
        CurrencyPair::Crvusd => 100115117118114099,
        CurrencyPair::Ctsieur => 114117101105115116099,
        CurrencyPair::Ctsiusd => 100115117105115116099,
        CurrencyPair::Cvxeur => 114117101120118099,
        CurrencyPair::Cvxusd => 100115117120118099,
        CurrencyPair::Daiusd => 100115117105097100,
        CurrencyPair::Dydxeur => 114117101120100121100,
        CurrencyPair::Dydxusd => 100115117120100121100,
        CurrencyPair::Enjeur => 114117101106110101,
        CurrencyPair::Enjusd => 100115117106110101,
        CurrencyPair::Eth2eth => 104116101050104116101,
        CurrencyPair::Ethbtc => 99116098104116101,
        CurrencyPair::Etheur => 114117101104116101,
        CurrencyPair::Ethgbp => 112098103104116101,
        CurrencyPair::Ethpax => 120097112104116101,
        CurrencyPair::Ethusd => 100115117104116101,
        CurrencyPair::Ethusdc => 99100115117104116101,
        CurrencyPair::Ethusdt => 116100115117104116101,
        CurrencyPair::Eurteur => 114117101116114117101,
        CurrencyPair::Eurtusd => 100115117116114117101,
        CurrencyPair::Eurusd => 100115117114117101,
        CurrencyPair::Feteur => 114117101116101102,
        CurrencyPair::Fetusd => 100115117116101102,
        CurrencyPair::Ftmeur => 114117101109116102,
        CurrencyPair::Ftmusd => 100115117109116102,
        CurrencyPair::Ftteur => 114117101116116102,
        CurrencyPair::Fttusd => 100115117116116102,
        CurrencyPair::Galaeur => 114117101097108097103,
        CurrencyPair::Galausd => 100115117097108097103,
        CurrencyPair::Gbpeur => 114117101112098103,
        CurrencyPair::Gbpusd => 100115117112098103,
        CurrencyPair::Grteur => 114117101116114103,
        CurrencyPair::Grtusd => 100115117116114103,
        CurrencyPair::Gusdusd => 100115117100115117103,
        CurrencyPair::Hbareur => 114117101114097098104,
        CurrencyPair::Hbarusd => 100115117114097098104,
        CurrencyPair::Imxeur => 114117101120109105,
        CurrencyPair::Imxusd => 100115117120109105,
        CurrencyPair::Kncbtc => 99116098099110107,
        CurrencyPair::Knceur => 114117101099110107,
        CurrencyPair::Kncusd => 100115117099110107,
        CurrencyPair::Linkbtc => 99116098107110105108,
        CurrencyPair::Linketh => 104116101107110105108,
        CurrencyPair::Linkeur => 114117101107110105108,
        CurrencyPair::Linkgbp => 112098103107110105108,
        CurrencyPair::Linkusd => 100115117107110105108,
        CurrencyPair::Ltcbtc => 99116098099116108,
        CurrencyPair::Ltceur => 114117101099116108,
        CurrencyPair::Ltcgbp => 112098103099116108,
        CurrencyPair::Ltcusd => 100115117099116108,
        CurrencyPair::Maticeur => 114117101099105116097109,
        CurrencyPair::Maticusd => 100115117099105116097109,
        CurrencyPair::Mkrbtc => 99116098114107109,
        CurrencyPair::Mkreur => 114117101114107109,
        CurrencyPair::Mkrusd => 100115117114107109,
        CurrencyPair::Nexoeur => 114117101111120101110,
        CurrencyPair::Nexousd => 100115117111120101110,
        CurrencyPair::Omgbtc => 99116098103109111,
        CurrencyPair::Omgeur => 114117101103109111,
        CurrencyPair::Omggbp => 112098103103109111,
        CurrencyPair::Omgusd => 100115117103109111,
        CurrencyPair::Paxeur => 114117101120097112,
        CurrencyPair::Paxgbp => 112098103120097112,
        CurrencyPair::Paxusd => 100115117120097112,
        CurrencyPair::Perpeur => 114117101112114101112,
        CurrencyPair::Perpusd => 100115117112114101112,
        CurrencyPair::Rgteur => 114117101116103114,
        CurrencyPair::Rgtusd => 100115117116103114,
        CurrencyPair::Sandeur => 114117101100110097115,
        CurrencyPair::Sandusd => 100115117100110097115,
        CurrencyPair::Sgbeur => 114117101098103115,
        CurrencyPair::Sgbusd => 100115117098103115,
        CurrencyPair::Skleur => 114117101108107115,
        CurrencyPair::Sklusd => 100115117108107115,
        CurrencyPair::Slpeur => 114117101112108115,
        CurrencyPair::Slpusd => 100115117112108115,
        CurrencyPair::Snxbtc => 99116098120110115,
        CurrencyPair::Snxeur => 114117101120110115,
        CurrencyPair::Snxusd => 100115117120110115,
        CurrencyPair::Storjeur => 114117101106114111116115,
        CurrencyPair::Storjusd => 100115117106114111116115,
        CurrencyPair::Sushieur => 114117101105104115117115,
        CurrencyPair::Sushiusd => 100115117105104115117115,
        CurrencyPair::Sxpeur => 114117101112120115,
        CurrencyPair::Sxpusd => 100115117112120115,
        CurrencyPair::Umabtc => 99116098097109117,
        CurrencyPair::Umaeur => 114117101097109117,
        CurrencyPair::Umausd => 100115117097109117,
        CurrencyPair::Unibtc => 99116098105110117,
        CurrencyPair::Unieur => 114117101105110117,
        CurrencyPair::Uniusd => 100115117105110117,
        CurrencyPair::Usdceur => 114117101099100115117,
        CurrencyPair::Usdcusd => 100115117099100115117,
        CurrencyPair::Usdcusdt => 116100115117099100115117,
        CurrencyPair::Usdteur => 114117101116100115117,
        CurrencyPair::Usdtusd => 100115117116100115117,
        CurrencyPair::Usteur => 114117101116115117,
        CurrencyPair::Ustusd => 100115117116115117,
        CurrencyPair::Wbtcbtc => 99116098099116098119,
        CurrencyPair::Xlmbtc => 99116098109108120,
        CurrencyPair::Xlmeur => 114117101109108120,
        CurrencyPair::Xlmgbp => 112098103109108120,
        CurrencyPair::Xlmusd => 100115117109108120,
        CurrencyPair::Xrpbtc => 99116098112114120,
        CurrencyPair::Xrpeur => 114117101112114120,
        CurrencyPair::Xrpgbp => 112098103112114120,
        CurrencyPair::Xrppax => 120097112112114120,
        CurrencyPair::Xrpusd => 100115117112114120,
        CurrencyPair::Xrpusdt => 116100115117112114120,
        CurrencyPair::Yfibtc => 99116098105102121,
        CurrencyPair::Yfieur => 114117101105102121,
        CurrencyPair::Yfiusd => 100115117105102121,
        CurrencyPair::Zrxbtc => 99116098120114122,
        CurrencyPair::Zrxeur => 114117101120114122,
        CurrencyPair::Zrxusd => 100115117120114122,
    }
}

proof fn lemma_pair_name_wf_0(p: CurrencyPair)
    requires
        match p {
            CurrencyPair::Aavebtc => true,
            CurrencyPair::Aaveeur => true,
            CurrencyPair::Aaveusd => true,
            CurrencyPair::Adabtc => true,
            CurrencyPair::Adaeur => true,
            CurrencyPair::Adausd => true,
            CurrencyPair::Algobtc => true,
            CurrencyPair::Algoeur => true,
            CurrencyPair::Algousd => true,
            CurrencyPair::Alphaeur => true,
            CurrencyPair::Alphausd => true,
            CurrencyPair::Ampeur => true,
            CurrencyPair::Ampusd => true,
            CurrencyPair::Audiobtc => true,
            CurrencyPair::Audioeur => true,
            CurrencyPair::Audiousd => true,
            CurrencyPair::Avaxeur => true,
            CurrencyPair::Avaxusd => true,
            CurrencyPair::Axseur => true,
            CurrencyPair::Axsusd => true,
            CurrencyPair::Batbtc => true,
            CurrencyPair::Bateur => true,
            CurrencyPair::Batusd => true,
            CurrencyPair::Bchbtc => true,
            CurrencyPair::Bcheur => true,
            CurrencyPair::Bchgbp => true,
            CurrencyPair::Bchusd => true,
            CurrencyPair::Btceur => true,
            CurrencyPair::Btcgbp => true,
            CurrencyPair::Btcpax => true,
            CurrencyPair::Btcusd => true,
            CurrencyPair::Btcusdc => true,
            CurrencyPair::Btcusdt => true,
            CurrencyPair::Celeur => true,
            CurrencyPair::Celusd => true,
            CurrencyPair::Chzeur => true,
            CurrencyPair::Chzusd => true,
            CurrencyPair::Compbtc => true,
            CurrencyPair::Compeur => true,
            CurrencyPair::Compusd => true,
            _ => false,
        },
    ensures
        spec_pair_name(p).len() > 0,
        all_name_chars(spec_pair_name(p)),
        name_num(spec_pair_name(p)) == pair_num(p),
{
    reveal_with_fuel(name_num_at, 10);
    match p {
        CurrencyPair::Aavebtc => {
            reveal_strlit("aavebtc");
            assert(name_num_at("aavebtc"@, 0) == 99116098101118097097);
        },
        CurrencyPair::Aaveeur => {
            reveal_strlit("aaveeur");
            assert(name_num_at("aaveeur"@, 0) == 114117101101118097097);
        },
        CurrencyPair::Aaveusd => {
            reveal_strlit("aaveusd");
            assert(name_num_at("aaveusd"@, 0) == 100115117101118097097);
        },
        CurrencyPair::Adabtc => {
            reveal_strlit("adabtc");
            assert(name_num_at("adabtc"@, 0) == 99116098097100097);
        },
        CurrencyPair::Adaeur => {
            reveal_strlit("adaeur");
            assert(name_num_at("adaeur"@, 0) == 114117101097100097);
        },
        CurrencyPair::Adausd => {
            reveal_strlit("adausd");
            assert(name_num_at("adausd"@, 0) == 100115117097100097);
        },
        CurrencyPair::Algobtc => {
            reveal_strlit("algobtc");
            assert(name_num_at("algobtc"@, 0) == 99116098111103108097);
        },
        CurrencyPair::Algoeur => {
            reveal_strlit("algoeur");
            assert(name_num_at("algoeur"@, 0) == 114117101111103108097);
        },
        CurrencyPair::Algousd => {
            reveal_strlit("algousd");
            assert(name_num_at("algousd"@, 0) == 100115117111103108097);
        },
        CurrencyPair::Alphaeur => {
            reveal_strlit("alphaeur");
            assert(name_num_at("alphaeur"@, 0) == 114117101097104112108097);
        },
        CurrencyPair::Alphausd => {
            reveal_strlit("alphausd");
            assert(name_num_at("alphausd"@, 0) == 100115117097104112108097);
        },
        CurrencyPair::Ampeur => {
            reveal_strlit("ampeur");
            assert(name_num_at("ampeur"@, 0) == 114117101112109097);
        },
        CurrencyPair::Ampusd => {
            reveal_strlit("ampusd");
            assert(name_num_at("ampusd"@, 0) == 100115117112109097);
        },
        CurrencyPair::Audiobtc => {
            reveal_strlit("audiobtc");
            assert(name_num_at("audiobtc"@, 0) == 99116098111105100117097);
        },
        CurrencyPair::Audioeur => {
            reveal_strlit("audioeur");
            assert(name_num_at("audioeur"@, 0) == 114117101111105100117097);
        },
        CurrencyPair::Audiousd => {
            reveal_strlit("audiousd");
            assert(name_num_at("audiousd"@, 0) == 100115117111105100117097);
        },
        CurrencyPair::Avaxeur => {
            reveal_strlit("avaxeur");
            assert(name_num_at("avaxeur"@, 0) == 114117101120097118097);
        },
        CurrencyPair::Avaxusd => {
            reveal_strlit("avaxusd");
            assert(name_num_at("avaxusd"@, 0) == 100115117120097118097);
        },
        CurrencyPair::Axseur => {
            reveal_strlit("axseur");
            assert(name_num_at("axseur"@, 0) == 114117101115120097);
        },
        CurrencyPair::Axsusd => {
            reveal_strlit("axsusd");
            assert(name_num_at("axsusd"@, 0) == 100115117115120097);
        },
        CurrencyPair::Batbtc => {
            reveal_strlit("batbtc");
            assert(name_num_at("batbtc"@, 0) == 99116098116097098);
        },
        CurrencyPair::Bateur => {
            reveal_strlit("bateur");
            assert(name_num_at("bateur"@, 0) == 114117101116097098);
        },
        CurrencyPair::Batusd => {
            reveal_strlit("batusd");
            assert(name_num_at("batusd"@, 0) == 100115117116097098);
        },
        CurrencyPair::Bchbtc => {
            reveal_strlit("bchbtc");
            assert(name_num_at("bchbtc"@, 0) == 99116098104099098);
        },
        CurrencyPair::Bcheur => {
            reveal_strlit("bcheur");
            assert(name_num_at("bcheur"@, 0) == 114117101104099098);
        },
        CurrencyPair::Bchgbp => {
            reveal_strlit("bchgbp");
            assert(name_num_at("bchgbp"@, 0) == 112098103104099098);
        },
        CurrencyPair::Bchusd => {
            reveal_strlit("bchusd");
            assert(name_num_at("bchusd"@, 0) == 100115117104099098);
        },
        CurrencyPair::Btceur => {
            reveal_strlit("btceur");
            assert(name_num_at("btceur"@, 0) == 114117101099116098);
        },
        CurrencyPair::Btcgbp => {
            reveal_strlit("btcgbp");
            assert(name_num_at("btcgbp"@, 0) == 112098103099116098);
        },
        CurrencyPair::Btcpax => {
            reveal_strlit("btcpax");
            assert(name_num_at("btcpax"@, 0) == 120097112099116098);
        },
        CurrencyPair::Btcusd => {
            reveal_strlit("btcusd");
            assert(name_num_at("btcusd"@, 0) == 100115117099116098);
        },
        CurrencyPair::Btcusdc => {
            reveal_strlit("btcusdc");
            assert(name_num_at("btcusdc"@, 0) == 99100115117099116098);
        },
        CurrencyPair::Btcusdt => {
            reveal_strlit("btcusdt");
            assert(name_num_at("btcusdt"@, 0) == 116100115117099116098);
        },
        CurrencyPair::Celeur => {
            reveal_strlit("celeur");
            assert(name_num_at("celeur"@, 0) == 114117101108101099);
        },
        CurrencyPair::Celusd => {
            reveal_strlit("celusd");
            assert(name_num_at("celusd"@, 0) == 100115117108101099);
        },
        CurrencyPair::Chzeur => {
            reveal_strlit("chzeur");
            assert(name_num_at("chzeur"@, 0) == 114117101122104099);
        },
        CurrencyPair::Chzusd => {
            reveal_strlit("chzusd");
            assert(name_num_at("chzusd"@, 0) == 100115117122104099);
        },
        CurrencyPair::Compbtc => {
            reveal_strlit("compbtc");
            assert(name_num_at("compbtc"@, 0) == 99116098112109111099);
        },
        CurrencyPair::Compeur => {
            reveal_strlit("compeur");
            assert(name_num_at("compeur"@, 0) == 114117101112109111099);
        },
        CurrencyPair::Compusd => {
            reveal_strlit("compusd");
            assert(name_num_at("compusd"@, 0) == 100115117112109111099);
        },
        _ => {
            assert(false);
        },
    }
}

proof fn lemma_pair_name_wf_1(p: CurrencyPair)
    requires
        match p {
            CurrencyPair::Crvbtc => true,
            CurrencyPair::Crveur => true,
            CurrencyPair::Crvusd => true,
            CurrencyPair::Ctsieur => true,
            CurrencyPair::Ctsiusd => true,
            CurrencyPair::Cvxeur => true,
            CurrencyPair::Cvxusd => true,
            CurrencyPair::Daiusd => true,
            CurrencyPair::Dydxeur => true,
            CurrencyPair::Dydxusd => true,
            CurrencyPair::Enjeur => true,
            CurrencyPair::Enjusd => true,
            CurrencyPair::Eth2eth => true,
            CurrencyPair::Ethbtc => true,
            CurrencyPair::Etheur => true,
            CurrencyPair::Ethgbp => true,
            CurrencyPair::Ethpax => true,
            CurrencyPair::Ethusd => true,
            CurrencyPair::Ethusdc => true,
            CurrencyPair::Ethusdt => true,
            CurrencyPair::Eurteur => true,
            CurrencyPair::Eurtusd => true,
            CurrencyPair::Eurusd => true,
            CurrencyPair::Feteur => true,
            CurrencyPair::Fetusd => true,
            CurrencyPair::Ftmeur => true,
            CurrencyPair::Ftmusd => true,
            CurrencyPair::Ftteur => true,
            CurrencyPair::Fttusd => true,
            CurrencyPair::Galaeur => true,
            CurrencyPair::Galausd => true,
            CurrencyPair::Gbpeur => true,
            CurrencyPair::Gbpusd => true,
            CurrencyPair::Grteur => true,
            CurrencyPair::Grtusd => true,
            CurrencyPair::Gusdusd => true,
            CurrencyPair::Hbareur => true,
            CurrencyPair::Hbarusd => true,
            CurrencyPair::Imxeur => true,
            CurrencyPair::Imxusd => true,
            _ => false,
        },
    ensures
        spec_pair_name(p).len() > 0,
        all_name_chars(spec_pair_name(p)),
        name_num(spec_pair_name(p)) == pair_num(p),
{
    reveal_with_fuel(name_num_at, 10);
    match p {
        CurrencyPair::Crvbtc => {
            reveal_strlit("crvbtc");
            assert(name_num_at("crvbtc"@, 0) == 99116098118114099);
        },
        CurrencyPair::Crveur => {
            reveal_strlit("crveur");
            assert(name_num_at("crveur"@, 0) == 114117101118114099);
        },
        CurrencyPair::Crvusd => {
            reveal_strlit("crvusd");
            assert(name_num_at("crvusd"@, 0) == 100115117118114099);
        },
        CurrencyPair::Ctsieur => {
            reveal_strlit("ctsieur");
            assert(name_num_at("ctsieur"@, 0) == 114117101105115116099);
        },
        CurrencyPair::Ctsiusd => {
            reveal_strlit("ctsiusd");
            assert(name_num_at("ctsiusd"@, 0) == 100115117105115116099);
        },
        CurrencyPair::Cvxeur => {
            reveal_strlit("cvxeur");
            assert(name_num_at("cvxeur"@, 0) == 114117101120118099);
        },
        CurrencyPair::Cvxusd => {
            reveal_strlit("cvxusd");
            assert(name_num_at("cvxusd"@, 0) == 100115117120118099);
        },
        CurrencyPair::Daiusd => {
            reveal_strlit("daiusd");
            assert(name_num_at("daiusd"@, 0) == 100115117105097100);
        },
        CurrencyPair::Dydxeur => {
            reveal_strlit("dydxeur");
            assert(name_num_at("dydxeur"@, 0) == 114117101120100121100);
        },
        CurrencyPair::Dydxusd => {
            reveal_strlit("dydxusd");
            assert(name_num_at("dydxusd"@, 0) == 100115117120100121100);
        },
        CurrencyPair::Enjeur => {
            reveal_strlit("enjeur");
            assert(name_num_at("enjeur"@, 0) == 114117101106110101);
        },
        CurrencyPair::Enjusd => {
            reveal_strlit("enjusd");
            assert(name_num_at("enjusd"@, 0) == 100115117106110101);
        },
        CurrencyPair::Eth2eth => {
            reveal_strlit("eth2eth");
            assert(name_num_at("eth2eth"@, 0) == 104116101050104116101);
        },
        CurrencyPair::Ethbtc => {
            reveal_strlit("ethbtc");
            assert(name_num_at("ethbtc"@, 0) == 99116098104116101);
        },
        CurrencyPair::Etheur => {
            reveal_strlit("etheur");
            assert(name_num_at("etheur"@, 0) == 114117101104116101);
        },
        CurrencyPair::Ethgbp => {
            reveal_strlit("ethgbp");
            assert(name_num_at("ethgbp"@, 0) == 112098103104116101);
        },
        CurrencyPair::Ethpax => {
            reveal_strlit("ethpax");
            assert(name_num_at("ethpax"@, 0) == 120097112104116101);
        },
        CurrencyPair::Ethusd => {
            reveal_strlit("ethusd");
            assert(name_num_at("ethusd"@, 0) == 100115117104116101);
        },
        CurrencyPair::Ethusdc => {
            reveal_strlit("ethusdc");
            assert(name_num_at("ethusdc"@, 0) == 99100115117104116101);
        },
        CurrencyPair::Ethusdt => {
            reveal_strlit("ethusdt");
            assert(name_num_at("ethusdt"@, 0) == 116100115117104116101);
        },
        CurrencyPair::Eurteur => {
            reveal_strlit("eurteur");
            assert(name_num_at("eurteur"@, 0) == 114117101116114117101);
        },
        CurrencyPair::Eurtusd => {
            reveal_strlit("eurtusd");
            assert(name_num_at("eurtusd"@, 0) == 100115117116114117101);
        },
        CurrencyPair::Eurusd => {
            reveal_strlit("eurusd");
            assert(name_num_at("eurusd"@, 0) == 100115117114117101);
        },
        CurrencyPair::Feteur => {
            reveal_strlit("feteur");
            assert(name_num_at("feteur"@, 0) == 114117101116101102);
        },
        CurrencyPair::Fetusd => {
            reveal_strlit("fetusd");
            assert(name_num_at("fetusd"@, 0) == 100115117116101102);
        },
        CurrencyPair::Ftmeur => {
            reveal_strlit("ftmeur");
            assert(name_num_at("ftmeur"@, 0) == 114117101109116102);
        },
        CurrencyPair::Ftmusd => {
            reveal_strlit("ftmusd");
            assert(name_num_at("ftmusd"@, 0) == 100115117109116102);
        },
        CurrencyPair::Ftteur => {
            reveal_strlit("ftteur");
            assert(name_num_at("ftteur"@, 0) == 114117101116116102);
        },
        CurrencyPair::Fttusd => {
            reveal_strlit("fttusd");
            assert(name_num_at("fttusd"@, 0) == 100115117116116102);
        },
        CurrencyPair::Galaeur => {
            reveal_strlit("galaeur");
            assert(name_num_at("galaeur"@, 0) == 114117101097108097103);
        },
        CurrencyPair::Galausd => {
            reveal_strlit("galausd");
            assert(name_num_at("galausd"@, 0) == 100115117097108097103);
        },
        CurrencyPair::Gbpeur => {
            reveal_strlit("gbpeur");
            assert(name_num_at("gbpeur"@, 0) == 114117101112098103);
        },
        CurrencyPair::Gbpusd => {
            reveal_strlit("gbpusd");
            assert(name_num_at("gbpusd"@, 0) == 100115117112098103);
        },
        CurrencyPair::Grteur => {
            reveal_strlit("grteur");
            assert(name_num_at("grteur"@, 0) == 114117101116114103);
        },
        CurrencyPair::Grtusd => {
            reveal_strlit("grtusd");
            assert(name_num_at("grtusd"@, 0) == 100115117116114103);
        },
        CurrencyPair::Gusdusd => {
            reveal_strlit("gusdusd");
            assert(name_num_at("gusdusd"@, 0) == 100115117100115117103);
        },
        CurrencyPair::Hbareur => {
            reveal_strlit("hbareur");
            assert(name_num_at("hbareur"@, 0) == 114117101114097098104);
        },
        CurrencyPair::Hbarusd => {
            reveal_strlit("hbarusd");
            assert(name_num_at("hbarusd"@, 0) == 100115117114097098104);
        },
        CurrencyPair::Imxeur => {
            reveal_strlit("imxeur");
            assert(name_num_at("imxeur"@, 0) == 114117101120109105);
        },
        CurrencyPair::Imxusd => {
            reveal_strlit("imxusd");
            assert(name_num_at("imxusd"@, 0) == 100115117120109105);
        },
        _ => {
            assert(false);
        },
    }
}

proof fn lemma_pair_name_wf_2(p: CurrencyPair)
    requires
        match p {
            CurrencyPair::Kncbtc => true,
            CurrencyPair::Knceur => true,
            CurrencyPair::Kncusd => true,
            CurrencyPair::Linkbtc => true,
            CurrencyPair::Linketh => true,
            CurrencyPair::Linkeur => true,
            CurrencyPair::Linkgbp => true,
            CurrencyPair::Linkusd => true,
            CurrencyPair::Ltcbtc => true,
            CurrencyPair::Ltceur => true,
            CurrencyPair::Ltcgbp => true,
            CurrencyPair::Ltcusd => true,
            CurrencyPair::Maticeur => true,
            CurrencyPair::Maticusd => true,
            CurrencyPair::Mkrbtc => true,
            CurrencyPair::Mkreur => true,
            CurrencyPair::Mkrusd => true,
            CurrencyPair::Nexoeur => true,
            CurrencyPair::Nexousd => true,
            CurrencyPair::Omgbtc => true,
            CurrencyPair::Omgeur => true,
            CurrencyPair::Omggbp => true,
            CurrencyPair::Omgusd => true,
            CurrencyPair::Paxeur => true,
            CurrencyPair::Paxgbp => true,
            CurrencyPair::Paxusd => true,
            CurrencyPair::Perpeur => true,
            CurrencyPair::Perpusd => true,
            CurrencyPair::Rgteur => true,
            CurrencyPair::Rgtusd => true,
            CurrencyPair::Sandeur => true,
            CurrencyPair::Sandusd => true,
            CurrencyPair::Sgbeur => true,
            CurrencyPair::Sgbusd => true,
            CurrencyPair::Skleur => true,
            CurrencyPair::Sklusd => true,
            CurrencyPair::Slpeur => true,
            CurrencyPair::Slpusd => true,
            CurrencyPair::Snxbtc => true,
            CurrencyPair::Snxeur => true,
            _ => false,
        },
    ensures
        spec_pair_name(p).len() > 0,
        all_name_chars(spec_pair_name(p)),
        name_num(spec_pair_name(p)) == pair_num(p),
{
    reveal_with_fuel(name_num_at, 10);
    match p {
        CurrencyPair::Kncbtc => {
            reveal_strlit("kncbtc");
            assert(name_num_at("kncbtc"@, 0) == 99116098099110107);
        },
        CurrencyPair::Knceur => {
            reveal_strlit("knceur");
            assert(name_num_at("knceur"@, 0) == 114117101099110107);
        },
        CurrencyPair::Kncusd => {
            reveal_strlit("kncusd");
            assert(name_num_at("kncusd"@, 0) == 100115117099110107);
        },
        CurrencyPair::Linkbtc => {
            reveal_strlit("linkbtc");
            assert(name_num_at("linkbtc"@, 0) == 99116098107110105108);
        },
        CurrencyPair::Linketh => {
            reveal_strlit("linketh");
            assert(name_num_at("linketh"@, 0) == 104116101107110105108);
        },
        CurrencyPair::Linkeur => {
            reveal_strlit("linkeur");
            assert(name_num_at("linkeur"@, 0) == 114117101107110105108);
        },
        CurrencyPair::Linkgbp => {
            reveal_strlit("linkgbp");
            assert(name_num_at("linkgbp"@, 0) == 112098103107110105108);
        },
        CurrencyPair::Linkusd => {
            reveal_strlit("linkusd");
            assert(name_num_at("linkusd"@, 0) == 100115117107110105108);
        },
        CurrencyPair::Ltcbtc => {
            reveal_strlit("ltcbtc");
            assert(name_num_at("ltcbtc"@, 0) == 99116098099116108);
        },
        CurrencyPair::Ltceur => {
            reveal_strlit("ltceur");
            assert(name_num_at("ltceur"@, 0) == 114117101099116108);
        },
        CurrencyPair::Ltcgbp => {
            reveal_strlit("ltcgbp");
            assert(name_num_at("ltcgbp"@, 0) == 112098103099116108);
        },
        CurrencyPair::Ltcusd => {
            reveal_strlit("ltcusd");
            assert(name_num_at("ltcusd"@, 0) == 100115117099116108);
        },
        CurrencyPair::Maticeur => {
            reveal_strlit("maticeur");
            assert(name_num_at("maticeur"@, 0) == 114117101099105116097109);
        },
        CurrencyPair::Maticusd => {
            reveal_strlit("maticusd");
            assert(name_num_at("maticusd"@, 0) == 100115117099105116097109);
        },
        CurrencyPair::Mkrbtc => {
            reveal_strlit("mkrbtc");
            assert(name_num_at("mkrbtc"@, 0) == 99116098114107109);
        },
        CurrencyPair::Mkreur => {
            reveal_strlit("mkreur");
            assert(name_num_at("mkreur"@, 0) == 114117101114107109);
        },
        CurrencyPair::Mkrusd => {
            reveal_strlit("mkrusd");
            assert(name_num_at("mkrusd"@, 0) == 100115117114107109);
        },
        CurrencyPair::Nexoeur => {
            reveal_strlit("nexoeur");
            assert(name_num_at("nexoeur"@, 0) == 114117101111120101110);
        },
        CurrencyPair::Nexousd => {
            reveal_strlit("nexousd");
            assert(name_num_at("nexousd"@, 0) == 100115117111120101110);
        },
        CurrencyPair::Omgbtc => {
            reveal_strlit("omgbtc");
            assert(name_num_at("omgbtc"@, 0) == 99116098103109111);
        },
        CurrencyPair::Omgeur => {
            reveal_strlit("omgeur");
            assert(name_num_at("omgeur"@, 0) == 114117101103109111);
        },
        CurrencyPair::Omggbp => {
            reveal_strlit("omggbp");
            assert(name_num_at("omggbp"@, 0) == 112098103103109111);
        },
        CurrencyPair::Omgusd => {
            reveal_strlit("omgusd");
            assert(name_num_at("omgusd"@, 0) == 100115117103109111);
        },
        CurrencyPair::Paxeur => {
            reveal_strlit("paxeur");
            assert(name_num_at("paxeur"@, 0) == 114117101120097112);
        },
        CurrencyPair::Paxgbp => {
            reveal_strlit("paxgbp");
            assert(name_num_at("paxgbp"@, 0) == 112098103120097112);
        },
        CurrencyPair::Paxusd => {
            reveal_strlit("paxusd");
            assert(name_num_at("paxusd"@, 0) == 100115117120097112);
        },
        CurrencyPair::Perpeur => {
            reveal_strlit("perpeur");
            assert(name_num_at("perpeur"@, 0) == 114117101112114101112);
        },
        CurrencyPair::Perpusd => {
            reveal_strlit("perpusd");
            assert(name_num_at("perpusd"@, 0) == 100115117112114101112);
        },
        CurrencyPair::Rgteur => {
            reveal_strlit("rgteur");
            assert(name_num_at("rgteur"@, 0) == 114117101116103114);
        },
        CurrencyPair::Rgtusd => {
            reveal_strlit("rgtusd");
            assert(name_num_at("rgtusd"@, 0) == 100115117116103114);
        },
        CurrencyPair::Sandeur => {
            reveal_strlit("sandeur");
            assert(name_num_at("sandeur"@, 0) == 114117101100110097115);
        },
        CurrencyPair::Sandusd => {
            reveal_strlit("sandusd");
            assert(name_num_at("sandusd"@, 0) == 100115117100110097115);
        },
        CurrencyPair::Sgbeur => {
            reveal_strlit("sgbeur");
            assert(name_num_at("sgbeur"@, 0) == 114117101098103115);
        },
        CurrencyPair::Sgbusd => {
            reveal_strlit("sgbusd");
            assert(name_num_at("sgbusd"@, 0) == 100115117098103115);
        },
        CurrencyPair::Skleur => {
            reveal_strlit("skleur");
            assert(name_num_at("skleur"@, 0) == 114117101108107115);
        },
        CurrencyPair::Sklusd => {
            reveal_strlit("sklusd");
            assert(name_num_at("sklusd"@, 0) == 100115117108107115);
        },
        CurrencyPair::Slpeur => {
            reveal_strlit("slpeur");
            assert(name_num_at("slpeur"@, 0) == 114117101112108115);
        },
        CurrencyPair::Slpusd => {
            reveal_strlit("slpusd");
            assert(name_num_at("slpusd"@, 0) == 100115117112108115);
        },
        CurrencyPair::Snxbtc => {
            reveal_strlit("snxbtc");
            assert(name_num_at("snxbtc"@, 0) == 99116098120110115);
        },
        CurrencyPair::Snxeur => {
            reveal_strlit("snxeur");
            assert(name_num_at("snxeur"@, 0) == 114117101120110115);
        },
        _ => {
            assert(false);
        },
    }
}

proof fn lemma_pair_name_wf_3(p: CurrencyPair)
    requires
        match p {
            CurrencyPair::Snxusd => true,
            CurrencyPair::Storjeur => true,
            CurrencyPair::Storjusd => true,
            CurrencyPair::Sushieur => true,
            CurrencyPair::Sushiusd => true,
            CurrencyPair::Sxpeur => true,
            CurrencyPair::Sxpusd => true,
            CurrencyPair::Umabtc => true,
            CurrencyPair::Umaeur => true,
            CurrencyPair::Umausd => true,
            CurrencyPair::Unibtc => true,
            CurrencyPair::Unieur => true,
            CurrencyPair::Uniusd => true,
            CurrencyPair::Usdceur => true,
            CurrencyPair::Usdcusd => true,
            CurrencyPair::Usdcusdt => true,
            CurrencyPair::Usdteur => true,
            CurrencyPair::Usdtusd => true,
            CurrencyPair::Usteur => true,
            CurrencyPair::Ustusd => true,
            CurrencyPair::Wbtcbtc => true,
            CurrencyPair::Xlmbtc => true,
            CurrencyPair::Xlmeur => true,
            CurrencyPair::Xlmgbp => true,
            CurrencyPair::Xlmusd => true,
            CurrencyPair::Xrpbtc => true,
            CurrencyPair::Xrpeur => true,
            CurrencyPair::Xrpgbp => true,
            CurrencyPair::Xrppax => true,
            CurrencyPair::Xrpusd => true,
            CurrencyPair::Xrpusdt => true,
            CurrencyPair::Yfibtc => true,
            CurrencyPair::Yfieur => true,
            CurrencyPair::Yfiusd => true,
            CurrencyPair::Zrxbtc => true,
            CurrencyPair::Zrxeur => true,
            CurrencyPair::Zrxusd => true,
            _ => false,
        },
    ensures
        spec_pair_name(p).len() > 0,
        all_name_chars(spec_pair_name(p)),
        name_num(spec_pair_name(p)) == pair_num(p),
{
    reveal_with_fuel(name_num_at, 10);
    match p {
        CurrencyPair::Snxusd => {
            reveal_strlit("snxusd");
            assert(name_num_at("snxusd"@, 0) == 100115117120110115);
        },
        CurrencyPair::Storjeur => {
            reveal_strlit("storjeur");
            assert(name_num_at("storjeur"@, 0) == 114117101106114111116115);
        },
        CurrencyPair::Storjusd => {
            reveal_strlit("storjusd");
            assert(name_num_at("storjusd"@, 0) == 100115117106114111116115);
        },
        CurrencyPair::Sushieur => {
            reveal_strlit("sushieur");
            assert(name_num_at("sushieur"@, 0) == 114117101105104115117115);
        },
        CurrencyPair::Sushiusd => {
            reveal_strlit("sushiusd");
            assert(name_num_at("sushiusd"@, 0) == 100115117105104115117115);
        },
        CurrencyPair::Sxpeur => {
            reveal_strlit("sxpeur");
            assert(name_num_at("sxpeur"@, 0) == 114117101112120115);
        },
        CurrencyPair::Sxpusd => {
            reveal_strlit("sxpusd");
            assert(name_num_at("sxpusd"@, 0) == 100115117112120115);
        },
        CurrencyPair::Umabtc => {
            reveal_strlit("umabtc");
            assert(name_num_at("umabtc"@, 0) == 99116098097109117);
        },
        CurrencyPair::Umaeur => {
            reveal_strlit("umaeur");
            assert(name_num_at("umaeur"@, 0) == 114117101097109117);
        },
        CurrencyPair::Umausd => {
            reveal_strlit("umausd");
            assert(name_num_at("umausd"@, 0) == 100115117097109117);
        },
        CurrencyPair::Unibtc => {
            reveal_strlit("unibtc");
            assert(name_num_at("unibtc"@, 0) == 99116098105110117);
        },
        CurrencyPair::Unieur => {
            reveal_strlit("unieur");
            assert(name_num_at("unieur"@, 0) == 114117101105110117);
        },
        CurrencyPair::Uniusd => {
            reveal_strlit("uniusd");
            assert(name_num_at("uniusd"@, 0) == 100115117105110117);
        },
        CurrencyPair::Usdceur => {
            reveal_strlit("usdceur");
            assert(name_num_at("usdceur"@, 0) == 114117101099100115117);
        },
        CurrencyPair::Usdcusd => {
            reveal_strlit("usdcusd");
            assert(name_num_at("usdcusd"@, 0) == 100115117099100115117);
        },
        CurrencyPair::Usdcusdt => {
            reveal_strlit("usdcusdt");
            assert(name_num_at("usdcusdt"@, 0) == 116100115117099100115117);
        },
        CurrencyPair::Usdteur => {
            reveal_strlit("usdteur");
            assert(name_num_at("usdteur"@, 0) == 114117101116100115117);
        },
        CurrencyPair::Usdtusd => {
            reveal_strlit("usdtusd");
            assert(name_num_at("usdtusd"@, 0) == 100115117116100115117);
        },
        CurrencyPair::Usteur => {
            reveal_strlit("usteur");
            assert(name_num_at("usteur"@, 0) == 114117101116115117);
        },
        CurrencyPair::Ustusd => {
            reveal_strlit("ustusd");
            assert(name_num_at("ustusd"@, 0) == 100115117116115117);
        },
        CurrencyPair::Wbtcbtc => {
            reveal_strlit("wbtcbtc");
            assert(name_num_at("wbtcbtc"@, 0) == 99116098099116098119);
        },
        CurrencyPair::Xlmbtc => {
            reveal_strlit("xlmbtc");
            assert(name_num_at("xlmbtc"@, 0) == 99116098109108120);
        },
        CurrencyPair::Xlmeur => {
            reveal_strlit("xlmeur");
            assert(name_num_at("xlmeur"@, 0) == 114117101109108120);
        },
        CurrencyPair::Xlmgbp => {
            reveal_strlit("xlmgbp");
            assert(name_num_at("xlmgbp"@, 0) == 112098103109108120);
        },
        CurrencyPair::Xlmusd => {
            reveal_strlit("xlmusd");
            assert(name_num_at("xlmusd"@, 0) == 100115117109108120);
        },
        CurrencyPair::Xrpbtc => {
            reveal_strlit("xrpbtc");
            assert(name_num_at("xrpbtc"@, 0) == 99116098112114120);
        },
        CurrencyPair::Xrpeur => {
            reveal_strlit("xrpeur");
            assert(name_num_at("xrpeur"@, 0) == 114117101112114120);
        },
        CurrencyPair::Xrpgbp => {
            reveal_strlit("xrpgbp");
            assert(name_num_at("xrpgbp"@, 0) == 112098103112114120);
        },
        CurrencyPair::Xrppax => {
            reveal_strlit("xrppax");
            assert(name_num_at("xrppax"@, 0) == 120097112112114120);
        },
        CurrencyPair::Xrpusd => {
            reveal_strlit("xrpusd");
            assert(name_num_at("xrpusd"@, 0) == 100115117112114120);
        },
        CurrencyPair::Xrpusdt => {
            reveal_strlit("xrpusdt");
            assert(name_num_at("xrpusdt"@, 0) == 116100115117112114120);
        },
        CurrencyPair::Yfibtc => {
            reveal_strlit("yfibtc");
            assert(name_num_at("yfibtc"@, 0) == 99116098105102121);
        },
        CurrencyPair::Yfieur => {
            reveal_strlit("yfieur");
            assert(name_num_at("yfieur"@, 0) == 114117101105102121);
        },
        CurrencyPair::Yfiusd => {
            reveal_strlit("yfiusd");
            assert(name_num_at("yfiusd"@, 0) == 100115117105102121);
        },
        CurrencyPair::Zrxbtc => {
            reveal_strlit("zrxbtc");
            assert(name_num_at("zrxbtc"@, 0) == 99116098120114122);
        },
        CurrencyPair::Zrxeur => {
            reveal_strlit("zrxeur");
            assert(name_num_at("zrxeur"@, 0) == 114117101120114122);
        },
        CurrencyPair::Zrxusd => {
            reveal_strlit("zrxusd");
            assert(name_num_at("zrxusd"@, 0) == 100115117120114122);
        },
        _ => {
            assert(false);
        },
    }
}

/// A pair's wire name is non-empty, made only of name characters (so it
/// holds no `_`, quote, or escape character), and reads as the pair's number.
pub proof fn lemma_pair_name_wf(p: CurrencyPair)
    ensures
        spec_pair_name(p).len() > 0,
        all_name_chars(spec_pair_name(p)),
        name_num(spec_pair_name(p)) == pair_num(p),
{
    match p {
        CurrencyPair::Aavebtc => lemma_pair_name_wf_0(p),
        CurrencyPair::Aaveeur => lemma_pair_name_wf_0(p),
        CurrencyPair::Aaveusd => lemma_pair_name_wf_0(p),
        CurrencyPair::Adabtc => lemma_pair_name_wf_0(p),
        CurrencyPair::Adaeur => lemma_pair_name_wf_0(p),
        CurrencyPair::Adausd => lemma_pair_name_wf_0(p),
        CurrencyPair::Algobtc => lemma_pair_name_wf_0(p),
        CurrencyPair::Algoeur => lemma_pair_name_wf_0(p),
        CurrencyPair::Algousd => lemma_pair_name_wf_0(p),
        CurrencyPair::Alphaeur => lemma_pair_name_wf_0(p),
        CurrencyPair::Alphausd => lemma_pair_name_wf_0(p),
        CurrencyPair::Ampeur => lemma_pair_name_wf_0(p),
        CurrencyPair::Ampusd => lemma_pair_name_wf_0(p),
        CurrencyPair::Audiobtc => lemma_pair_name_wf_0(p),
        CurrencyPair::Audioeur => lemma_pair_name_wf_0(p),
        CurrencyPair::Audiousd => lemma_pair_name_wf_0(p),
        CurrencyPair::Avaxeur => lemma_pair_name_wf_0(p),
        CurrencyPair::Avaxusd => lemma_pair_name_wf_0(p),
        CurrencyPair::Axseur => lemma_pair_name_wf_0(p),
        CurrencyPair::Axsusd => lemma_pair_name_wf_0(p),
        CurrencyPair::Batbtc => lemma_pair_name_wf_0(p),
        CurrencyPair::Bateur => lemma_pair_name_wf_0(p),
        CurrencyPair::Batusd => lemma_pair_name_wf_0(p),
        CurrencyPair::Bchbtc => lemma_pair_name_wf_0(p),
        CurrencyPair::Bcheur => lemma_pair_name_wf_0(p),
        CurrencyPair::Bchgbp => lemma_pair_name_wf_0(p),
        CurrencyPair::Bchusd => lemma_pair_name_wf_0(p),
        CurrencyPair::Btceur => lemma_pair_name_wf_0(p),
        CurrencyPair::Btcgbp => lemma_pair_name_wf_0(p),
        CurrencyPair::Btcpax => lemma_pair_name_wf_0(p),
        CurrencyPair::Btcusd => lemma_pair_name_wf_0(p),
        CurrencyPair::Btcusdc => lemma_pair_name_wf_0(p),
        CurrencyPair::Btcusdt => lemma_pair_name_wf_0(p),
        CurrencyPair::Celeur => lemma_pair_name_wf_0(p),
        CurrencyPair::Celusd => lemma_pair_name_wf_0(p),
        CurrencyPair::Chzeur => lemma_pair_name_wf_0(p),
        CurrencyPair::Chzusd => lemma_pair_name_wf_0(p),
        CurrencyPair::Compbtc => lemma_pair_name_wf_0(p),
        CurrencyPair::Compeur => lemma_pair_name_wf_0(p),
        CurrencyPair::Compusd => lemma_pair_name_wf_0(p),
        CurrencyPair::Crvbtc => lemma_pair_name_wf_1(p),
        CurrencyPair::Crveur => lemma_pair_name_wf_1(p),
        CurrencyPair::Crvusd => lemma_pair_name_wf_1(p),
        CurrencyPair::Ctsieur => lemma_pair_name_wf_1(p),
        CurrencyPair::Ctsiusd => lemma_pair_name_wf_1(p),
        CurrencyPair::Cvxeur => lemma_pair_name_wf_1(p),
        CurrencyPair::Cvxusd => lemma_pair_name_wf_1(p),
        CurrencyPair::Daiusd => lemma_pair_name_wf_1(p),
        CurrencyPair::Dydxeur => lemma_pair_name_wf_1(p),
        CurrencyPair::Dydxusd => lemma_pair_name_wf_1(p),
        CurrencyPair::Enjeur => lemma_pair_name_wf_1(p),
        CurrencyPair::Enjusd => lemma_pair_name_wf_1(p),
        CurrencyPair::Eth2eth => lemma_pair_name_wf_1(p),
        CurrencyPair::Ethbtc => lemma_pair_name_wf_1(p),
        CurrencyPair::Etheur => lemma_pair_name_wf_1(p),
        CurrencyPair::Ethgbp => lemma_pair_name_wf_1(p),
        CurrencyPair::Ethpax => lemma_pair_name_wf_1(p),
        CurrencyPair::Ethusd => lemma_pair_name_wf_1(p),
        CurrencyPair::Ethusdc => lemma_pair_name_wf_1(p),
        CurrencyPair::Ethusdt => lemma_pair_name_wf_1(p),
        CurrencyPair::Eurteur => lemma_pair_name_wf_1(p),
        CurrencyPair::Eurtusd => lemma_pair_name_wf_1(p),
        CurrencyPair::Eurusd => lemma_pair_name_wf_1(p),
        CurrencyPair::Feteur => lemma_pair_name_wf_1(p),
        CurrencyPair::Fetusd => lemma_pair_name_wf_1(p),
        CurrencyPair::Ftmeur => lemma_pair_name_wf_1(p),
        CurrencyPair::Ftmusd => lemma_pair_name_wf_1(p),
        CurrencyPair::Ftteur => lemma_pair_name_wf_1(p),
        CurrencyPair::Fttusd => lemma_pair_name_wf_1(p),
        CurrencyPair::Galaeur => lemma_pair_name_wf_1(p),
        CurrencyPair::Galausd => lemma_pair_name_wf_1(p),
        CurrencyPair::Gbpeur => lemma_pair_name_wf_1(p),
        CurrencyPair::Gbpusd => lemma_pair_name_wf_1(p),
        CurrencyPair::Grteur => lemma_pair_name_wf_1(p),
        CurrencyPair::Grtusd => lemma_pair_name_wf_1(p),
        CurrencyPair::Gusdusd => lemma_pair_name_wf_1(p),
        CurrencyPair::Hbareur => lemma_pair_name_wf_1(p),
        CurrencyPair::Hbarusd => lemma_pair_name_wf_1(p),
        CurrencyPair::Imxeur => lemma_pair_name_wf_1(p),
        CurrencyPair::Imxusd => lemma_pair_name_wf_1(p),
        CurrencyPair::Kncbtc => lemma_pair_name_wf_2(p),
        CurrencyPair::Knceur => lemma_pair_name_wf_2(p),
        CurrencyPair::Kncusd => lemma_pair_name_wf_2(p),
        CurrencyPair::Linkbtc => lemma_pair_name_wf_2(p),
        CurrencyPair::Linketh => lemma_pair_name_wf_2(p),
        CurrencyPair::Linkeur => lemma_pair_name_wf_2(p),
        CurrencyPair::Linkgbp => lemma_pair_name_wf_2(p),
        CurrencyPair::Linkusd => lemma_pair_name_wf_2(p),
        CurrencyPair::Ltcbtc => lemma_pair_name_wf_2(p),
        CurrencyPair::Ltceur => lemma_pair_name_wf_2(p),
        CurrencyPair::Ltcgbp => lemma_pair_name_wf_2(p),
        CurrencyPair::Ltcusd => lemma_pair_name_wf_2(p),
        CurrencyPair::Maticeur => lemma_pair_name_wf_2(p),
        CurrencyPair::Maticusd => lemma_pair_name_wf_2(p),
        CurrencyPair::Mkrbtc => lemma_pair_name_wf_2(p),
        CurrencyPair::Mkreur => lemma_pair_name_wf_2(p),
        CurrencyPair::Mkrusd => lemma_pair_name_wf_2(p),
        CurrencyPair::Nexoeur => lemma_pair_name_wf_2(p),
        CurrencyPair::Nexousd => lemma_pair_name_wf_2(p),
        CurrencyPair::Omgbtc => lemma_pair_name_wf_2(p),
        CurrencyPair::Omgeur => lemma_pair_name_wf_2(p),
        CurrencyPair::Omggbp => lemma_pair_name_wf_2(p),
        CurrencyPair::Omgusd => lemma_pair_name_wf_2(p),
        CurrencyPair::Paxeur => lemma_pair_name_wf_2(p),
        CurrencyPair::Paxgbp => lemma_pair_name_wf_2(p),
        CurrencyPair::Paxusd => lemma_pair_name_wf_2(p),
        CurrencyPair::Perpeur => lemma_pair_name_wf_2(p),
        CurrencyPair::Perpusd => lemma_pair_name_wf_2(p),
        CurrencyPair::Rgteur => lemma_pair_name_wf_2(p),
        CurrencyPair::Rgtusd => lemma_pair_name_wf_2(p),
        CurrencyPair::Sandeur => lemma_pair_name_wf_2(p),
        CurrencyPair::Sandusd => lemma_pair_name_wf_2(p),
        CurrencyPair::Sgbeur => lemma_pair_name_wf_2(p),
        CurrencyPair::Sgbusd => lemma_pair_name_wf_2(p),
        CurrencyPair::Skleur => lemma_pair_name_wf_2(p),
        CurrencyPair::Sklusd => lemma_pair_name_wf_2(p),
        CurrencyPair::Slpeur => lemma_pair_name_wf_2(p),
        CurrencyPair::Slpusd => lemma_pair_name_wf_2(p),
        CurrencyPair::Snxbtc => lemma_pair_name_wf_2(p),
        CurrencyPair::Snxeur => lemma_pair_name_wf_2(p),
        CurrencyPair::Snxusd => lemma_pair_name_wf_3(p),
        CurrencyPair::Storjeur => lemma_pair_name_wf_3(p),
        CurrencyPair::Storjusd => lemma_pair_name_wf_3(p),
        CurrencyPair::Sushieur => lemma_pair_name_wf_3(p),
        CurrencyPair::Sushiusd => lemma_pair_name_wf_3(p),
        CurrencyPair::Sxpeur => lemma_pair_name_wf_3(p),
        CurrencyPair::Sxpusd => lemma_pair_name_wf_3(p),
        CurrencyPair::Umabtc => lemma_pair_name_wf_3(p),
        CurrencyPair::Umaeur => lemma_pair_name_wf_3(p),
        CurrencyPair::Umausd => lemma_pair_name_wf_3(p),
        CurrencyPair::Unibtc => lemma_pair_name_wf_3(p),
        CurrencyPair::Unieur => lemma_pair_name_wf_3(p),
        CurrencyPair::Uniusd => lemma_pair_name_wf_3(p),
        CurrencyPair::Usdceur => lemma_pair_name_wf_3(p),
        CurrencyPair::Usdcusd => lemma_pair_name_wf_3(p),
        CurrencyPair::Usdcusdt => lemma_pair_name_wf_3(p),
        CurrencyPair::Usdteur => lemma_pair_name_wf_3(p),
        CurrencyPair::Usdtusd => lemma_pair_name_wf_3(p),
        CurrencyPair::Usteur => lemma_pair_name_wf_3(p),
        CurrencyPair::Ustusd => lemma_pair_name_wf_3(p),
        CurrencyPair::Wbtcbtc => lemma_pair_name_wf_3(p),
        CurrencyPair::Xlmbtc => lemma_pair_name_wf_3(p),
        CurrencyPair::Xlmeur => lemma_pair_name_wf_3(p),
        CurrencyPair::Xlmgbp => lemma_pair_name_wf_3(p),
        CurrencyPair::Xlmusd => lemma_pair_name_wf_3(p),
        CurrencyPair::Xrpbtc => lemma_pair_name_wf_3(p),
        CurrencyPair::Xrpeur => lemma_pair_name_wf_3(p),
        CurrencyPair::Xrpgbp => lemma_pair_name_wf_3(p),
        CurrencyPair::Xrppax => lemma_pair_name_wf_3(p),
        CurrencyPair::Xrpusd => lemma_pair_name_wf_3(p),
        CurrencyPair::Xrpusdt => lemma_pair_name_wf_3(p),
        CurrencyPair::Yfibtc => lemma_pair_name_wf_3(p),
        CurrencyPair::Yfieur => lemma_pair_name_wf_3(p),
        CurrencyPair::Yfiusd => lemma_pair_name_wf_3(p),
        CurrencyPair::Zrxbtc => lemma_pair_name_wf_3(p),
        CurrencyPair::Zrxeur => lemma_pair_name_wf_3(p),
        CurrencyPair::Zrxusd => lemma_pair_name_wf_3(p),
    }
}

/// Distinct pairs have distinct wire names.
pub proof fn lemma_pair_name_injective(p: CurrencyPair, q: CurrencyPair)
    requires
        spec_pair_name(p) == spec_pair_name(q),
    ensures
        p == q,
{
    lemma_pair_name_wf(p);
    lemma_pair_name_wf(q);
    assert(pair_num(p) == pair_num(q));
}

/// The currency pair a wire name denotes, if any.
pub open spec fn spec_pair_from_name(s: Seq<char>) -> Option<CurrencyPair> {
    if exists|p: CurrencyPair| spec_pair_name(p) == s {
        Some(choose|p: CurrencyPair| spec_pair_name(p) == s)
    } else {
        None
    }
}

/// A name that is some pair's own wire name decodes to exactly that pair.
proof fn lemma_from_name_hit(s: Seq<char>, p: CurrencyPair)
    requires
        spec_pair_name(p) == s,
    ensures
        spec_pair_from_name(s) == Some(p),
{
    assert(exists|q: CurrencyPair| spec_pair_name(q) == s);
    let q = choose|q: CurrencyPair| spec_pair_name(q) == s;
    lemma_pair_name_injective(q, p);
}

/// Parsing a pair's own wire name gives that pair back.
pub proof fn lemma_pair_round_trip(p: CurrencyPair)
    ensures
        spec_pair_from_name(spec_pair_name(p)) == Some(p),
{
    lemma_from_name_hit(spec_pair_name(p), p);
}

/// Parse a wire name back into a currency pair.
pub fn pair_from_name(s: &str) -> (r: Option<CurrencyPair>)
    ensures
        r == spec_pair_from_name(s@),
{
    if crate::text::str_eq(s, "aavebtc") {
        proof {
            lemma_from_name_hit(s@, CurrencyPair::Aavebtc);
        }
        Some(CurrencyPair::Aavebtc)
    } else if crate::text::str_eq(s, "aaveeur") {
        proof {
            lemma_from_name_hit(s@, CurrencyPair::Aaveeur);
        }
        Some(CurrencyPair::Aaveeur)
    } else if crate::text::str_eq(s, "aaveusd") {
        proof {
            lemma_from_name_hit(s@, CurrencyPair::Aaveusd);
        }
        Some(CurrencyPair::Aaveusd)
    } else if crate::text::str_eq(s, "adabtc") {
        proof {
            lemma_from_name_hit(s@, CurrencyPair::Adabtc);
        }
        Some(CurrencyPair::Adabtc)
    } else if crate::text::str_eq(s, "adaeur") {
        proof {
            lemma_from_name_hit(s@, CurrencyPair::Adaeur);
        }
        Some(CurrencyPair::Adaeur)
    } else if crate::text::str_eq(s, "adausd") {
        proof {
            lemma_from_name_hit(s@, CurrencyPair::Adausd);
        }
        Some(CurrencyPair::Adausd)
    } else if crate::text::str_eq(s, "algobtc") {
        proof {
            lemma_from_name_hit(s@, CurrencyPair::Algobtc);
        }
        Some(CurrencyPair::Algobtc)
    } else if crate::text::str_eq(s, "algoeur") {
        proof {
            lemma_from_name_hit(s@, CurrencyPair::Algoeur);
        }
        Some(CurrencyPair::Algoeur)
    } else if crate::text::str_eq(s, "algousd") {
        proof {
            lemma_from_name_hit(s@, CurrencyPair::Algousd);
        }
        Some(CurrencyPair::Algousd)
    } else if crate::text::str_eq(s, "alphaeur") {
        proof {
            lemma_from_name_hit(s@, CurrencyPair::Alphaeur);
        }
        Some(CurrencyPair::Alphaeur)
    } else if crate::text::str_eq(s, "alphausd") {
        proof {
            lemma_from_name_hit(s@, CurrencyPair::Alphausd);
        }
        Some(CurrencyPair::Alphausd)
    } else if crate::text::str_eq(s, "ampeur") {
        proof {
            lemma_from_name_hit(s@, CurrencyPair::Ampeur);
        }
        Some(CurrencyPair::Ampeur)
    } else if crate::text::str_eq(s, "ampusd") {
        proof {
            lemma_from_name_hit(s@, CurrencyPair::Ampusd);
        }
        Some(CurrencyPair::Ampusd)
    } else if crate::text::str_eq(s, "audiobtc") {
        proof {
            lemma_from_name_hit(s@, CurrencyPair::Audiobtc);
        }
        Some(CurrencyPair::Audiobtc)
    } else if crate::text::str_eq(s, "audioeur") {
        proof {
            lemma_from_name_hit(s@, CurrencyPair::Audioeur);
        }
        Some(CurrencyPair::Audioeur)
    } else if crate::text::str_eq(s, "audiousd") {
        proof {
            lemma_from_name_hit(s@, CurrencyPair::Audiousd);
        }
        Some(CurrencyPair::Audiousd)
    } else if crate::text::str_eq(s, "avaxeur") {
        proof {
            lemma_from_name_hit(s@, CurrencyPair::Avaxeur);
        }
        Some(CurrencyPair::Avaxeur)
    } else if crate::text::str_eq(s, "avaxusd") {
        proof {
            lemma_from_name_hit(s@, CurrencyPair::Avaxusd);
        }
        Some(CurrencyPair::Avaxusd)
    } else if crate::text::str_eq(s, "axseur") {
        proof {
            lemma_from_name_hit(s@, CurrencyPair::Axseur);
        }
        Some(CurrencyPair::Axseur)
    } else if crate::text::str_eq(s, "axsusd") {
        proof {
            lemma_from_name_hit(s@, CurrencyPair::Axsusd);
        }
        Some(CurrencyPair::Axsusd)
    } else if crate::text::str_eq(s, "batbtc") {
        proof {
            lemma_from_name_hit(s@, CurrencyPair::Batbtc);
        }
        Some(CurrencyPair::Batbtc)
    } else if crate::text::str_eq(s, "bateur") {
        proof {
            lemma_from_name_hit(s@, CurrencyPair::Bateur);
        }
        Some(CurrencyPair::Bateur)
    } else if crate::text::str_eq(s, "batusd") {
        proof {
            lemma_from_name_hit(s@, CurrencyPair::Batusd);
        }
        Some(CurrencyPair::Batusd)
    } else if crate::text::str_eq(s, "bchbtc") {
        proof {
            lemma_from_name_hit(s@, CurrencyPair::Bchbtc);
        }
        Some(CurrencyPair::Bchbtc)
    } else if crate::text::str_eq(s, "bcheur") {
        proof {
            lemma_from_name_hit(s@, CurrencyPair::Bcheur);
        }
        Some(CurrencyPair::Bcheur)
    } else if crate::text::str_eq(s, "bchgbp") {
        proof {
            lemma_from_name_hit(s@, CurrencyPair::Bchgbp);
        }
        Some(CurrencyPair::Bchgbp)
    } else if crate::text::str_eq(s, "bchusd") {
        proof {
            lemma_from_name_hit(s@, CurrencyPair::Bchusd);
        }
        Some(CurrencyPair::Bchusd)
    } else if crate::text::str_eq(s, "btceur") {
        proof {
            lemma_from_name_hit(s@, CurrencyPair::Btceur);
        }
        Some(CurrencyPair::Btceur)
    } else if crate::text::str_eq(s, "btcgbp") {
        proof {
            lemma_from_name_hit(s@, CurrencyPair::Btcgbp);
        }
        Some(CurrencyPair::Btcgbp)
    } else if crate::text::str_eq(s, "btcpax") {
        proof {
            lemma_from_name_hit(s@, CurrencyPair::Btcpax);
        }
        Some(CurrencyPair::Btcpax)
    } else if crate::text::str_eq(s, "btcusd") {
        proof {
            lemma_from_name_hit(s@, CurrencyPair::Btcusd);
        }
        Some(CurrencyPair::Btcusd)
    } else if crate::text::str_eq(s, "btcusdc") {
        proof {
            lemma_from_name_hit(s@, CurrencyPair::Btcusdc);
        }
        Some(CurrencyPair::Btcusdc)
    } else if crate::text::str_eq(s, "btcusdt") {
        proof {
            lemma_from_name_hit(s@, CurrencyPair::Btcusdt);
        }
        Some(CurrencyPair::Btcusdt)
    } else if crate::text::str_eq(s, "celeur") {
        proof {
            lemma_from_name_hit(s@, CurrencyPair::Celeur);
        }
        Some(CurrencyPair::Celeur)
    } else if crate::text::str_eq(s, "celusd") {
        proof {
            lemma_from_name_hit(s@, CurrencyPair::Celusd);
        }
        Some(CurrencyPair::Celusd)
    } else if crate::text::str_eq(s, "chzeur") {
        proof {
            lemma_from_name_hit(s@, CurrencyPair::Chzeur);
        }
        Some(CurrencyPair::Chzeur)
    } else if crate::text::str_eq(s, "chzusd") {
        proof {
            lemma_from_name_hit(s@, CurrencyPair::Chzusd);
        }
        Some(CurrencyPair::Chzusd)
    } else if crate::text::str_eq(s, "compbtc") {
        proof {
            lemma_from_name_hit(s@, CurrencyPair::Compbtc);
        }
        Some(CurrencyPair::Compbtc)
    } else if crate::text::str_eq(s, "compeur") {
        proof {
            lemma_from_name_hit(s@, CurrencyPair::Compeur);
        }
        Some(CurrencyPair::Compeur)
    } else if crate::text::str_eq(s, "compusd") {
        proof {
            lemma_from_name_hit(s@, CurrencyPair::Compusd);
        }
        Some(CurrencyPair::Compusd)
    } else if crate::text::str_eq(s, "crvbtc") {
        proof {
            lemma_from_name_hit(s@, CurrencyPair::Crvbtc);
        }
        Some(CurrencyPair::Crvbtc)
    } else if crate::text::str_eq(s, "crveur") {
        proof {
            lemma_from_name_hit(s@, CurrencyPair::Crveur);
        }
        Some(CurrencyPair::Crveur)
    } else if crate::text::str_eq(s, "crvusd") {
        proof {
            lemma_from_name_hit(s@, CurrencyPair::Crvusd);
        }
        Some(CurrencyPair::Crvusd)
    } else if crate::text::str_eq(s, "ctsieur") {
        proof {
            lemma_from_name_hit(s@, CurrencyPair::Ctsieur);
        }
        Some(CurrencyPair::Ctsieur)
    } else if crate::text::str_eq(s, "ctsiusd") {
        proof {
            lemma_from_name_hit(s@, CurrencyPair::Ctsiusd);
        }
        Some(CurrencyPair::Ctsiusd)
    } else if crate::text::str_eq(s, "cvxeur") {
        proof {
            lemma_from_name_hit(s@, CurrencyPair::Cvxeur);
        }
        Some(CurrencyPair::Cvxeur)
    } else if crate::text::str_eq(s, "cvxusd") {
        proof {
            lemma_from_name_hit(s@, CurrencyPair::Cvxusd);
        }
        Some(CurrencyPair::Cvxusd)
    } else if crate::text::str_eq(s, "daiusd") {
        proof {
            lemma_from_name_hit(s@, CurrencyPair::Daiusd);
        }
        Some(CurrencyPair::Daiusd)
    } else if crate::text::str_eq(s, "dydxeur") {
        proof {
            lemma_from_name_hit(s@, CurrencyPair::Dydxeur);
        }
        Some(CurrencyPair::Dydxeur)
    } else if crate::text::str_eq(s, "dydxusd") {
        proof {
            lemma_from_name_hit(s@, CurrencyPair::Dydxusd);
        }
        Some(CurrencyPair::Dydxusd)
    } else if crate::text::str_eq(s, "enjeur") {
        proof {
            lemma_from_name_hit(s@, CurrencyPair::Enjeur);
        }
        Some(CurrencyPair::Enjeur)
    } else if crate::text::str_eq(s, "enjusd") {
        proof {
            lemma_from_name_hit(s@, CurrencyPair::Enjusd);
        }
        Some(CurrencyPair::Enjusd)
    } else if crate::text::str_eq(s, "eth2eth") {
        proof {
            lemma_from_name_hit(s@, CurrencyPair::Eth2eth);
        }
        Some(CurrencyPair::Eth2eth)
    } else if crate::text::str_eq(s, "ethbtc") {
        proof {
            lemma_from_name_hit(s@, CurrencyPair::Ethbtc);
        }
        Some(CurrencyPair::Ethbtc)
    } else if crate::text::str_eq(s, "etheur") {
        proof {
            lemma_from_name_hit(s@, CurrencyPair::Etheur);
        }
        Some(CurrencyPair::Etheur)
    } else if crate::text::str_eq(s, "ethgbp") {
        proof {
            lemma_from_name_hit(s@, CurrencyPair::Ethgbp);
        }
        Some(CurrencyPair::Ethgbp)
    } else if crate::text::str_eq(s, "ethpax") {
        proof {
            lemma_from_name_hit(s@, CurrencyPair::Ethpax);
        }
        Some(CurrencyPair::Ethpax)
    } else if crate::text::str_eq(s, "ethusd") {
        proof {
            lemma_from_name_hit(s@, CurrencyPair::Ethusd);
        }
        Some(CurrencyPair::Ethusd)
    } else if crate::text::str_eq(s, "ethusdc") {
        proof {
            lemma_from_name_hit(s@, CurrencyPair::Ethusdc);
        }
        Some(CurrencyPair::Ethusdc)
    } else if crate::text::str_eq(s, "ethusdt") {
        proof {
            lemma_from_name_hit(s@, CurrencyPair::Ethusdt);
        }
        Some(CurrencyPair::Ethusdt)
    } else if crate::text::str_eq(s, "eurteur") {
        proof {
            lemma_from_name_hit(s@, CurrencyPair::Eurteur);
        }
        Some(CurrencyPair::Eurteur)
    } else if crate::text::str_eq(s, "eurtusd") {
        proof {
            lemma_from_name_hit(s@, CurrencyPair::Eurtusd);
        }
        Some(CurrencyPair::Eurtusd)
    } else if crate::text::str_eq(s, "eurusd") {
        proof {
            lemma_from_name_hit(s@, CurrencyPair::Eurusd);
        }
        Some(CurrencyPair::Eurusd)
    } else if crate::text::str_eq(s, "feteur") {
        proof {
            lemma_from_name_hit(s@, CurrencyPair::Feteur);
        }
        Some(CurrencyPair::Feteur)
    } else if crate::text::str_eq(s, "fetusd") {
        proof {
            lemma_from_name_hit(s@, CurrencyPair::Fetusd);
        }
        Some(CurrencyPair::Fetusd)
    } else if crate::text::str_eq(s, "ftmeur") {
        proof {
            lemma_from_name_hit(s@, CurrencyPair::Ftmeur);
        }
        Some(CurrencyPair::Ftmeur)
    } else if crate::text::str_eq(s, "ftmusd") {
        proof {
            lemma_from_name_hit(s@, CurrencyPair::Ftmusd);
        }
        Some(CurrencyPair::Ftmusd)
    } else if crate::text::str_eq(s, "ftteur") {
        proof {
            lemma_from_name_hit(s@, CurrencyPair::Ftteur);
        }
        Some(CurrencyPair::Ftteur)
    } else if crate::text::str_eq(s, "fttusd") {
        proof {
            lemma_from_name_hit(s@, CurrencyPair::Fttusd);
        }
        Some(CurrencyPair::Fttusd)
    } else if crate::text::str_eq(s, "galaeur") {
        proof {
            lemma_from_name_hit(s@, CurrencyPair::Galaeur);
        }
        Some(CurrencyPair::Galaeur)
    } else if crate::text::str_eq(s, "galausd") {
        proof {
            lemma_from_name_hit(s@, CurrencyPair::Galausd);
        }
        Some(CurrencyPair::Galausd)
    } else if crate::text::str_eq(s, "gbpeur") {
        proof {
            lemma_from_name_hit(s@, CurrencyPair::Gbpeur);
        }
        Some(CurrencyPair::Gbpeur)
    } else if crate::text::str_eq(s, "gbpusd") {
        proof {
            lemma_from_name_hit(s@, CurrencyPair::Gbpusd);
        }
        Some(CurrencyPair::Gbpusd)
    } else if crate::text::str_eq(s, "grteur") {
        proof {
            lemma_from_name_hit(s@, CurrencyPair::Grteur);
        }
        Some(CurrencyPair::Grteur)
    } else if crate::text::str_eq(s, "grtusd") {
        proof {
            lemma_from_name_hit(s@, CurrencyPair::Grtusd);
        }
        Some(CurrencyPair::Grtusd)
    } else if crate::text::str_eq(s, "gusdusd") {
        proof {
            lemma_from_name_hit(s@, CurrencyPair::Gusdusd);
        }
        Some(CurrencyPair::Gusdusd)
    } else if crate::text::str_eq(s, "hbareur") {
        proof {
            lemma_from_name_hit(s@, CurrencyPair::Hbareur);
        }
        Some(CurrencyPair::Hbareur)
    } else if crate::text::str_eq(s, "hbarusd") {
        proof {
            lemma_from_name_hit(s@, CurrencyPair::Hbarusd);
        }
        Some(CurrencyPair::Hbarusd)
    } else if crate::text::str_eq(s, "imxeur") {
        proof {
            lemma_from_name_hit(s@, CurrencyPair::Imxeur);
        }
        Some(CurrencyPair::Imxeur)
    } else if crate::text::str_eq(s, "imxusd") {
        proof {
            lemma_from_name_hit(s@, CurrencyPair::Imxusd);
        }
        Some(CurrencyPair::Imxusd)
    } else if crate::text::str_eq(s, "kncbtc") {
        proof {
            lemma_from_name_hit(s@, CurrencyPair::Kncbtc);
        }
        Some(CurrencyPair::Kncbtc)
    } else if crate::text::str_eq(s, "knceur") {
        proof {
            lemma_from_name_hit(s@, CurrencyPair::Knceur);
        }
        Some(CurrencyPair::Knceur)
    } else if crate::text::str_eq(s, "kncusd") {
        proof {
            lemma_from_name_hit(s@, CurrencyPair::Kncusd);
        }
        Some(CurrencyPair::Kncusd)
    } else if crate::text::str_eq(s, "linkbtc") {
        proof {
            lemma_from_name_hit(s@, CurrencyPair::Linkbtc);
        }
        Some(CurrencyPair::Linkbtc)
    } else if crate::text::str_eq(s, "linketh") {
        proof {
            lemma_from_name_hit(s@, CurrencyPair::Linketh);
        }
        Some(CurrencyPair::Linketh)
    } else if crate::text::str_eq(s, "linkeur") {
        proof {
            lemma_from_name_hit(s@, CurrencyPair::Linkeur);
        }
        Some(CurrencyPair::Linkeur)
    } else if crate::text::str_eq(s, "linkgbp") {
        proof {
            lemma_from_name_hit(s@, CurrencyPair::Linkgbp);
        }
        Some(CurrencyPair::Linkgbp)
    } else if crate::text::str_eq(s, "linkusd") {
        proof {
            lemma_from_name_hit(s@, CurrencyPair::Linkusd);
        }
        Some(CurrencyPair::Linkusd)
    } else if crate::text::str_eq(s, "ltcbtc") {
        proof {
            lemma_from_name_hit(s@, CurrencyPair::Ltcbtc);
        }
        Some(CurrencyPair::Ltcbtc)
    } else if crate::text::str_eq(s, "ltceur") {
        proof {
            lemma_from_name_hit(s@, CurrencyPair::Ltceur);
        }
        Some(CurrencyPair::Ltceur)
    } else if crate::text::str_eq(s, "ltcgbp") {
        proof {
            lemma_from_name_hit(s@, CurrencyPair::Ltcgbp);
        }
        Some(CurrencyPair::Ltcgbp)
    } else if crate::text::str_eq(s, "ltcusd") {
        proof {
            lemma_from_name_hit(s@, CurrencyPair::Ltcusd);
        }
        Some(CurrencyPair::Ltcusd)
    } else if crate::text::str_eq(s, "maticeur") {
        proof {
            lemma_from_name_hit(s@, CurrencyPair::Maticeur);
        }
        Some(CurrencyPair::Maticeur)
    } else if crate::text::str_eq(s, "maticusd") {
        proof {
            lemma_from_name_hit(s@, CurrencyPair::Maticusd);
        }
        Some(CurrencyPair::Maticusd)
    } else if crate::text::str_eq(s, "mkrbtc") {
        proof {
            lemma_from_name_hit(s@, CurrencyPair::Mkrbtc);
        }
        Some(CurrencyPair::Mkrbtc)
    } else if crate::text::str_eq(s, "mkreur") {
        proof {
            lemma_from_name_hit(s@, CurrencyPair::Mkreur);
        }
        Some(CurrencyPair::Mkreur)
    } else if crate::text::str_eq(s, "mkrusd") {
        proof {
            lemma_from_name_hit(s@, CurrencyPair::Mkrusd);
        }
        Some(CurrencyPair::Mkrusd)
    } else if crate::text::str_eq(s, "nexoeur") {
        proof {
            lemma_from_name_hit(s@, CurrencyPair::Nexoeur);
        }
        Some(CurrencyPair::Nexoeur)
    } else if crate::text::str_eq(s, "nexousd") {
        proof {
            lemma_from_name_hit(s@, CurrencyPair::Nexousd);
        }
        Some(CurrencyPair::Nexousd)
    } else if crate::text::str_eq(s, "omgbtc") {
        proof {
            lemma_from_name_hit(s@, CurrencyPair::Omgbtc);
        }
        Some(CurrencyPair::Omgbtc)
    } else if crate::text::str_eq(s, "omgeur") {
        proof {
            lemma_from_name_hit(s@, CurrencyPair::Omgeur);
        }
        Some(CurrencyPair::Omgeur)
    } else if crate::text::str_eq(s, "omggbp") {
        proof {
            lemma_from_name_hit(s@, CurrencyPair::Omggbp);
        }
        Some(CurrencyPair::Omggbp)
    } else if crate::text::str_eq(s, "omgusd") {
        proof {
            lemma_from_name_hit(s@, CurrencyPair::Omgusd);
        }
        Some(CurrencyPair::Omgusd)
    } else if crate::text::str_eq(s, "paxeur") {
        proof {
            lemma_from_name_hit(s@, CurrencyPair::Paxeur);
        }
        Some(CurrencyPair::Paxeur)
    } else if crate::text::str_eq(s, "paxgbp") {
        proof {
            lemma_from_name_hit(s@, CurrencyPair::Paxgbp);
        }
        Some(CurrencyPair::Paxgbp)
    } else if crate::text::str_eq(s, "paxusd") {
        proof {
            lemma_from_name_hit(s@, CurrencyPair::Paxusd);
        }
        Some(CurrencyPair::Paxusd)
    } else if crate::text::str_eq(s, "perpeur") {
        proof {
            lemma_from_name_hit(s@, CurrencyPair::Perpeur);
        }
        Some(CurrencyPair::Perpeur)
    } else if crate::text::str_eq(s, "perpusd") {
        proof {
            lemma_from_name_hit(s@, CurrencyPair::Perpusd);
        }
        Some(CurrencyPair::Perpusd)
    } else if crate::text::str_eq(s, "rgteur") {
        proof {
            lemma_from_name_hit(s@, CurrencyPair::Rgteur);
        }
        Some(CurrencyPair::Rgteur)
    } else if crate::text::str_eq(s, "rgtusd") {
        proof {
            lemma_from_name_hit(s@, CurrencyPair::Rgtusd);
        }
        Some(CurrencyPair::Rgtusd)
    } else if crate::text::str_eq(s, "sandeur") {
        proof {
            lemma_from_name_hit(s@, CurrencyPair::Sandeur);
        }
        Some(CurrencyPair::Sandeur)
    } else if crate::text::str_eq(s, "sandusd") {
        proof {
            lemma_from_name_hit(s@, CurrencyPair::Sandusd);
        }
        Some(CurrencyPair::Sandusd)
    } else if crate::text::str_eq(s, "sgbeur") {
        proof {
            lemma_from_name_hit(s@, CurrencyPair::Sgbeur);
        }
        Some(CurrencyPair::Sgbeur)
    } else if crate::text::str_eq(s, "sgbusd") {
        proof {
            lemma_from_name_hit(s@, CurrencyPair::Sgbusd);
        }
        Some(CurrencyPair::Sgbusd)
    } else if crate::text::str_eq(s, "skleur") {
        proof {
            lemma_from_name_hit(s@, CurrencyPair::Skleur);
        }
        Some(CurrencyPair::Skleur)
    } else if crate::text::str_eq(s, "sklusd") {
        proof {
            lemma_from_name_hit(s@, CurrencyPair::Sklusd);
        }
        Some(CurrencyPair::Sklusd)
    } else if crate::text::str_eq(s, "slpeur") {
        proof {
            lemma_from_name_hit(s@, CurrencyPair::Slpeur);
        }
        Some(CurrencyPair::Slpeur)
    } else if crate::text::str_eq(s, "slpusd") {
        proof {
            lemma_from_name_hit(s@, CurrencyPair::Slpusd);
        }
        Some(CurrencyPair::Slpusd)
    } else if crate::text::str_eq(s, "snxbtc") {
        proof {
            lemma_from_name_hit(s@, CurrencyPair::Snxbtc);
        }
        Some(CurrencyPair::Snxbtc)
    } else if crate::text::str_eq(s, "snxeur") {
        proof {
            lemma_from_name_hit(s@, CurrencyPair::Snxeur);
        }
        Some(CurrencyPair::Snxeur)
    } else if crate::text::str_eq(s, "snxusd") {
        proof {
            lemma_from_name_hit(s@, CurrencyPair::Snxusd);
        }
        Some(CurrencyPair::Snxusd)
    } else if crate::text::str_eq(s, "storjeur") {
        proof {
            lemma_from_name_hit(s@, CurrencyPair::Storjeur);
        }
        Some(CurrencyPair::Storjeur)
    } else if crate::text::str_eq(s, "storjusd") {
        proof {
            lemma_from_name_hit(s@, CurrencyPair::Storjusd);
        }
        Some(CurrencyPair::Storjusd)
    } else if crate::text::str_eq(s, "sushieur") {
        proof {
            lemma_from_name_hit(s@, CurrencyPair::Sushieur);
        }
        Some(CurrencyPair::Sushieur)
    } else if crate::text::str_eq(s, "sushiusd") {
        proof {
            lemma_from_name_hit(s@, CurrencyPair::Sushiusd);
        }
        Some(CurrencyPair::Sushiusd)
    } else if crate::text::str_eq(s, "sxpeur") {
        proof {
            lemma_from_name_hit(s@, CurrencyPair::Sxpeur);
        }
        Some(CurrencyPair::Sxpeur)
    } else if crate::text::str_eq(s, "sxpusd") {
        proof {
            lemma_from_name_hit(s@, CurrencyPair::Sxpusd);
        }
        Some(CurrencyPair::Sxpusd)
    } else if crate::text::str_eq(s, "umabtc") {
        proof {
            lemma_from_name_hit(s@, CurrencyPair::Umabtc);
        }
        Some(CurrencyPair::Umabtc)
    } else if crate::text::str_eq(s, "umaeur") {
        proof {
            lemma_from_name_hit(s@, CurrencyPair::Umaeur);
        }
        Some(CurrencyPair::Umaeur)
    } else if crate::text::str_eq(s, "umausd") {
        proof {
            lemma_from_name_hit(s@, CurrencyPair::Umausd);
        }
        Some(CurrencyPair::Umausd)
    } else if crate::text::str_eq(s, "unibtc") {
        proof {
            lemma_from_name_hit(s@, CurrencyPair::Unibtc);
        }
        Some(CurrencyPair::Unibtc)
    } else if crate::text::str_eq(s, "unieur") {
        proof {
            lemma_from_name_hit(s@, CurrencyPair::Unieur);
        }
        Some(CurrencyPair::Unieur)
    } else if crate::text::str_eq(s, "uniusd") {
        proof {
            lemma_from_name_hit(s@, CurrencyPair::Uniusd);
        }
        Some(CurrencyPair::Uniusd)
    } else if crate::text::str_eq(s, "usdceur") {
        proof {
            lemma_from_name_hit(s@, CurrencyPair::Usdceur);
        }
        Some(CurrencyPair::Usdceur)
    } else if crate::text::str_eq(s, "usdcusd") {
        proof {
            lemma_from_name_hit(s@, CurrencyPair::Usdcusd);
        }
        Some(CurrencyPair::Usdcusd)
    } else if crate::text::str_eq(s, "usdcusdt") {
        proof {
            lemma_from_name_hit(s@, CurrencyPair::Usdcusdt);
        }
        Some(CurrencyPair::Usdcusdt)
    } else if crate::text::str_eq(s, "usdteur") {
        proof {
            lemma_from_name_hit(s@, CurrencyPair::Usdteur);
        }
        Some(CurrencyPair::Usdteur)
    } else if crate::text::str_eq(s, "usdtusd") {
        proof {
            lemma_from_name_hit(s@, CurrencyPair::Usdtusd);
        }
        Some(CurrencyPair::Usdtusd)
    } else if crate::text::str_eq(s, "usteur") {
        proof {
            lemma_from_name_hit(s@, CurrencyPair::Usteur);
        }
        Some(CurrencyPair::Usteur)
    } else if crate::text::str_eq(s, "ustusd") {
        proof {
            lemma_from_name_hit(s@, CurrencyPair::Ustusd);
        }
        Some(CurrencyPair::Ustusd)
    } else if crate::text::str_eq(s, "wbtcbtc") {
        proof {
            lemma_from_name_hit(s@, CurrencyPair::Wbtcbtc);
        }
        Some(CurrencyPair::Wbtcbtc)
    } else if crate::text::str_eq(s, "xlmbtc") {
        proof {
            lemma_from_name_hit(s@, CurrencyPair::Xlmbtc);
        }
        Some(CurrencyPair::Xlmbtc)
    } else if crate::text::str_eq(s, "xlmeur") {
        proof {
            lemma_from_name_hit(s@, CurrencyPair::Xlmeur);
        }
        Some(CurrencyPair::Xlmeur)
    } else if crate::text::str_eq(s, "xlmgbp") {
        proof {
            lemma_from_name_hit(s@, CurrencyPair::Xlmgbp);
        }
        Some(CurrencyPair::Xlmgbp)
    } else if crate::text::str_eq(s, "xlmusd") {
        proof {
            lemma_from_name_hit(s@, CurrencyPair::Xlmusd);
        }
        Some(CurrencyPair::Xlmusd)
    } else if crate::text::str_eq(s, "xrpbtc") {
        proof {
            lemma_from_name_hit(s@, CurrencyPair::Xrpbtc);
        }
        Some(CurrencyPair::Xrpbtc)
    } else if crate::text::str_eq(s, "xrpeur") {
        proof {
            lemma_from_name_hit(s@, CurrencyPair::Xrpeur);
        }
        Some(CurrencyPair::Xrpeur)
    } else if crate::text::str_eq(s, "xrpgbp") {
        proof {
            lemma_from_name_hit(s@, CurrencyPair::Xrpgbp);
        }
        Some(CurrencyPair::Xrpgbp)
    } else if crate::text::str_eq(s, "xrppax") {
        proof {
            lemma_from_name_hit(s@, CurrencyPair::Xrppax);
        }
        Some(CurrencyPair::Xrppax)
    } else if crate::text::str_eq(s, "xrpusd") {
        proof {
            lemma_from_name_hit(s@, CurrencyPair::Xrpusd);
        }
        Some(CurrencyPair::Xrpusd)
    } else if crate::text::str_eq(s, "xrpusdt") {
        proof {
            lemma_from_name_hit(s@, CurrencyPair::Xrpusdt);
        }
        Some(CurrencyPair::Xrpusdt)
    } else if crate::text::str_eq(s, "yfibtc") {
        proof {
            lemma_from_name_hit(s@, CurrencyPair::Yfibtc);
        }
        Some(CurrencyPair::Yfibtc)
    } else if crate::text::str_eq(s, "yfieur") {
        proof {
            lemma_from_name_hit(s@, CurrencyPair::Yfieur);
        }
        Some(CurrencyPair::Yfieur)
    } else if crate::text::str_eq(s, "yfiusd") {
        proof {
            lemma_from_name_hit(s@, CurrencyPair::Yfiusd);
        }
        Some(CurrencyPair::Yfiusd)
    } else if crate::text::str_eq(s, "zrxbtc") {
        proof {
            lemma_from_name_hit(s@, CurrencyPair::Zrxbtc);
        }
        Some(CurrencyPair::Zrxbtc)
    } else if crate::text::str_eq(s, "zrxeur") {
        proof {
            lemma_from_name_hit(s@, CurrencyPair::Zrxeur);
        }
        Some(CurrencyPair::Zrxeur)
    } else if crate::text::str_eq(s, "zrxusd") {
        proof {
            lemma_from_name_hit(s@, CurrencyPair::Zrxusd);
        }
        Some(CurrencyPair::Zrxusd)
    } else {
        assert(forall|q: CurrencyPair| spec_pair_name(q) != s@);
        None
    }
}

} // verus!
