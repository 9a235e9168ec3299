//! The merge engine on two full exchange snapshots.

use orderbook::binance::model::{Depth, Price as BinPrice};
use orderbook::bitstamp::order_book::{OrderBookData, Price as BitPrice};
use orderbook::server::model::{make_merged_market_depth, Exchange, Level};

#[test]
fn test_make_merged_market_depth() {
    let binance = Depth {
        timestamp_micros: 1651388616274565,
        bids: vec![
            BinPrice { amount: 6707700, quantity: 2654010000 },
            BinPrice { amount: 6707600, quantity: 2935210000 },
            BinPrice { amount: 6707500, quantity: 254030000 },
            BinPrice { amount: 6707400, quantity: 25420000 },
            BinPrice { amount: 6707200, quantity: 1436560000 },
            BinPrice { amount: 6706800, quantity: 249050000 },
            BinPrice { amount: 6706700, quantity: 201920000 },
            BinPrice { amount: 6706600, quantity: 259490000 },
            BinPrice { amount: 6706500, quantity: 196870000 },
            BinPrice { amount: 6706400, quantity: 630000000 },
            BinPrice { amount: 6705800, quantity: 771460000 },
            BinPrice { amount: 6705600, quantity: 55670000 },
            BinPrice { amount: 6705400, quantity: 547400000 },
            BinPrice { amount: 6704900, quantity: 7080000 },
            BinPrice { amount: 6703900, quantity: 25420000 },
            BinPrice { amount: 6703500, quantity: 4420000 },
            BinPrice { amount: 6702900, quantity: 3420000 },
            BinPrice { amount: 6702800, quantity: 149910000 },
            BinPrice { amount: 6701700, quantity: 150180000 },
            BinPrice { amount: 6701600, quantity: 4370000 },
        ],
        asks: vec![
            BinPrice { amount: 6707800, quantity: 37280000 },
            BinPrice { amount: 6708800, quantity: 7500000 },
            BinPrice { amount: 6709000, quantity: 134440000 },
            BinPrice { amount: 6709100, quantity: 317810000 },
            BinPrice { amount: 6709400, quantity: 2000000 },
            BinPrice { amount: 6709700, quantity: 275700000 },
            BinPrice { amount: 6709800, quantity: 17400000 },
            BinPrice { amount: 6709900, quantity: 401870000 },
            BinPrice { amount: 6710000, quantity: 566450000 },
            BinPrice { amount: 6710100, quantity: 9710000 },
            BinPrice { amount: 6710300, quantity: 101120000 },
            BinPrice { amount: 6710400, quantity: 1400000 },
            BinPrice { amount: 6710500, quantity: 6750000 },
            BinPrice { amount: 6711100, quantity: 2120000 },
            BinPrice { amount: 6711300, quantity: 1150000000 },
            BinPrice { amount: 6711700, quantity: 149050000 },
            BinPrice { amount: 6711800, quantity: 150470000 },
            BinPrice { amount: 6712000, quantity: 1270000 },
            BinPrice { amount: 6712100, quantity: 547400000 },
            BinPrice { amount: 6712200, quantity: 630000000 },
        ],
    };
    let bitstamp = OrderBookData {
        timestamp_micros: 1651388616274565,
        bids: vec![
            BitPrice { price: 6712000, quantity: 521000, order_id: 1492210355929088 },
            BitPrice { price: 6709444, quantity: 49500000, order_id: 1492210382880768 },
            BitPrice { price: 6709423, quantity: 254078178, order_id: 1492210382667777 },
            BitPrice { price: 6709148, quantity: 508133812, order_id: 1492210382671873 },
            BitPrice { price: 6708276, quantity: 49500000, order_id: 1492210377195520 },
            BitPrice { price: 6707185, quantity: 2720903, order_id: 1492210381746176 },
            BitPrice { price: 6707133, quantity: 813032046, order_id: 1492210373160960 },
            BitPrice { price: 6706819, quantity: 1321253335, order_id: 1492210382663681 },
            BitPrice { price: 6706638, quantity: 630000000, order_id: 1492210381574148 },
            BitPrice { price: 6705342, quantity: 2647296, order_id: 1492210344398848 },
            BitPrice { price: 6705188, quantity: 1321301126, order_id: 1492210353078272 },
            BitPrice { price: 6703735, quantity: 2669537, order_id: 1492210236440576 },
            BitPrice { price: 6703619, quantity: 1321675573, order_id: 1492210310717441 },
            BitPrice { price: 6702107, quantity: 2583902, order_id: 1492210229022727 },
            BitPrice { price: 6701951, quantity: 1322035161, order_id: 1492210292396033 },
            BitPrice { price: 6700851, quantity: 1260000000, order_id: 1492210330406912 },
            BitPrice { price: 6700245, quantity: 1322515283, order_id: 1492210196975616 },
            BitPrice { price: 6697938, quantity: 1000000000, order_id: 1492210328870912 },
            BitPrice { price: 6694791, quantity: 2337445437, order_id: 1492210382671872 },
            BitPrice { price: 6694339, quantity: 2338409383, order_id: 1492210310459392 },
            BitPrice { price: 6694250, quantity: 146000000, order_id: 1492210280992770 },
            BitPrice { price: 6692101, quantity: 490031903, order_id: 1492210312802306 },
            BitPrice { price: 6692100, quantity: 303076, order_id: 1492119620866048 },
            BitPrice { price: 6691512, quantity: 303075, order_id: 1492050675544068 },
            BitPrice { price: 6690338, quantity: 53692134, order_id: 1492210310717440 },
            BitPrice { price: 6690336, quantity: 303073, order_id: 1492118792060928 },
            BitPrice { price: 6689748, quantity: 303072, order_id: 1492050673647616 },
            BitPrice { price: 6689520, quantity: 361000000, order_id: 1492207206891527 },
            BitPrice { price: 6688963, quantity: 100000000, order_id: 1492055880695808 },
            BitPrice { price: 6688573, quantity: 134230334, order_id: 1492210325913600 },
            BitPrice { price: 6688572, quantity: 303070, order_id: 1492117479297024 },
            BitPrice { price: 6687984, quantity: 303069, order_id: 1492050590011392 },
            BitPrice { price: 6686912, quantity: 5050000000, order_id: 1492210232283138 },
            BitPrice { price: 6686809, quantity: 349026080, order_id: 1492210308599810 },
            BitPrice { price: 6686808, quantity: 303067, order_id: 1492115018178560 },
            BitPrice { price: 6686220, quantity: 303066, order_id: 1492050588094464 },
            BitPrice { price: 6685447, quantity: 5387641985, order_id: 1492210326978561 },
            BitPrice { price: 6685044, quantity: 303064, order_id: 1492112719982592 },
            BitPrice { price: 6684456, quantity: 303063, order_id: 1491931743744001 },
            BitPrice { price: 6683868, quantity: 303062, order_id: 1492120541413376 },
            BitPrice { price: 6683280, quantity: 303061, order_id: 1491931919257603 },
            BitPrice { price: 6683080, quantity: 723000000, order_id: 1492207289720833 },
            BitPrice { price: 6683000, quantity: 2200, order_id: 1491915034038273 },
            BitPrice { price: 6682692, quantity: 303060, order_id: 1491931741818880 },
            BitPrice { price: 6682104, quantity: 303059, order_id: 1492120539463680 },
            BitPrice { price: 6681516, quantity: 303058, order_id: 1491931917398019 },
            BitPrice { price: 6680928, quantity: 303057, order_id: 1491931739930624 },
            BitPrice { price: 6680340, quantity: 303056, order_id: 1492120537559041 },
            BitPrice { price: 6679752, quantity: 303055, order_id: 1491931830706177 },
            BitPrice { price: 6679164, quantity: 303054, order_id: 1491931738071041 },
            BitPrice { price: 6678576, quantity: 303053, order_id: 1492119963680768 },
            BitPrice { price: 6677988, quantity: 303052, order_id: 1491931736170498 },
            BitPrice { price: 6677487, quantity: 20638711214, order_id: 1492210322812928 },
            BitPrice { price: 6677400, quantity: 304051, order_id: 1491931563515904 },
            BitPrice { price: 6676812, quantity: 304050, order_id: 1492119795286016 },
            BitPrice { price: 6676224, quantity: 304049, order_id: 1491931734134788 },
            BitPrice { price: 6675636, quantity: 304048, order_id: 1491930337165315 },
            BitPrice { price: 6675048, quantity: 304047, order_id: 1492119619026944 },
            BitPrice { price: 6674460, quantity: 304046, order_id: 1491931732205568 },
            BitPrice { price: 6673872, quantity: 304045, order_id: 1491930249023489 },
            BitPrice { price: 6673284, quantity: 304044, order_id: 1492119616905220 },
            BitPrice { price: 6672696, quantity: 304043, order_id: 1491931730272258 },
            BitPrice { price: 6672108, quantity: 304042, order_id: 1491930335252480 },
            BitPrice { price: 6671520, quantity: 304041, order_id: 1492119532212224 },
            BitPrice { price: 6671150, quantity: 2511000000, order_id: 1492210267025414 },
            BitPrice { price: 6670932, quantity: 304040, order_id: 1491931728293888 },
            BitPrice { price: 6670344, quantity: 304039, order_id: 1491894409580544 },
            BitPrice { price: 6669919, quantity: 493385, order_id: 1491833383346178 },
            BitPrice { price: 6669756, quantity: 304038, order_id: 1491699618426891 },
            BitPrice { price: 6669168, quantity: 304037, order_id: 1491699501473794 },
            BitPrice { price: 6668580, quantity: 304036, order_id: 1491689583345664 },
            BitPrice { price: 6667992, quantity: 304035, order_id: 1491699616432131 },
            BitPrice { price: 6667404, quantity: 304034, order_id: 1491699499556869 },
            BitPrice { price: 6666816, quantity: 304033, order_id: 1491663742431235 },
            BitPrice { price: 6666301, quantity: 3541000000, order_id: 1492206009044999 },
            BitPrice { price: 6666228, quantity: 304032, order_id: 1491699614507010 },
            BitPrice { price: 6665725, quantity: 100000000, order_id: 1492112682393600 },
            BitPrice { price: 6665640, quantity: 304031, order_id: 1491698746904576 },
            BitPrice { price: 6665052, quantity: 304030, order_id: 1491663740481536 },
            BitPrice { price: 6664464, quantity: 304029, order_id: 1491699612622851 },
            BitPrice { price: 6663876, quantity: 304028, order_id: 1491698744938496 },
            BitPrice { price: 6663659, quantity: 100000000, order_id: 1491697722548225 },
            BitPrice { price: 6663288, quantity: 304027, order_id: 1491663738560515 },
            BitPrice { price: 6662700, quantity: 304026, order_id: 1491699609239552 },
            BitPrice { price: 6662112, quantity: 304025, order_id: 1491697759674370 },
            BitPrice { price: 6661524, quantity: 304024, order_id: 1491663638667264 },
            BitPrice { price: 6660936, quantity: 304023, order_id: 1491699607363585 },
            BitPrice { price: 6660440, quantity: 7665000000, order_id: 1492210267054084 },
            BitPrice { price: 6660348, quantity: 304022, order_id: 1491689666686976 },
            BitPrice { price: 6659760, quantity: 304021, order_id: 1491663636791297 },
            BitPrice { price: 6659172, quantity: 304020, order_id: 1491699605377025 },
            BitPrice { price: 6658584, quantity: 304019, order_id: 1491663736725504 },
            BitPrice { price: 6658317, quantity: 100000000, order_id: 1491776603643905 },
            BitPrice { price: 6658000, quantity: 99390005, order_id: 1491662723809280 },
            BitPrice { price: 6658000, quantity: 609995, order_id: 1491662741102592 },
            BitPrice { price: 6657996, quantity: 304018, order_id: 1491663634796545 },
            BitPrice { price: 6657408, quantity: 304017, order_id: 1491699603410944 },
            BitPrice { price: 6657000, quantity: 99780004, order_id: 1491662776889345 },
            BitPrice { price: 6657000, quantity: 219996, order_id: 1491663283941381 },
            BitPrice { price: 6656820, quantity: 304016, order_id: 1491663734939648 },
        ],
        asks: vec![
            BitPrice { price: 6713393, quantity: 714391330, order_id: 1492210364788736 },
            BitPrice { price: 6714474, quantity: 254087180, order_id: 1492210382635009 },
            BitPrice { price: 6714588, quantity: 508145029, order_id: 1492210373115905 },
            BitPrice { price: 6715689, quantity: 889352905, order_id: 1492210382274562 },
            BitPrice { price: 6715965, quantity: 5000000, order_id: 1492210357067776 },
            BitPrice { price: 6716962, quantity: 630000000, order_id: 1492210381512704 },
            BitPrice { price: 6717535, quantity: 1525482601, order_id: 1492210229501955 },
            BitPrice { price: 6717840, quantity: 146000000, order_id: 1492210326503425 },
            BitPrice { price: 6718384, quantity: 2430177, order_id: 1492210356256768 },
            BitPrice { price: 6718693, quantity: 978841483, order_id: 1492210240815104 },
            BitPrice { price: 6719566, quantity: 1524929580, order_id: 1492210237636609 },
            BitPrice { price: 6719891, quantity: 1525067262, order_id: 1492210310406146 },
            BitPrice { price: 6721067, quantity: 44211610, order_id: 1492210360217601 },
            BitPrice { price: 6721200, quantity: 361000000, order_id: 1492210326515712 },
            BitPrice { price: 6721570, quantity: 1524604979, order_id: 1492210382057474 },
            BitPrice { price: 6721913, quantity: 1260000000, order_id: 1492210330345474 },
            BitPrice { price: 6722843, quantity: 1524363077, order_id: 1492210383020035 },
            BitPrice { price: 6723540, quantity: 723000000, order_id: 1492210196623360 },
            BitPrice { price: 6726183, quantity: 2795947224, order_id: 1492210237329408 },
            BitPrice { price: 6727176, quantity: 303078, order_id: 1492206186278916 },
            BitPrice { price: 6728940, quantity: 303081, order_id: 1492206185787398 },
            BitPrice { price: 6729431, quantity: 5050000000, order_id: 1492210232233984 },
            BitPrice { price: 6729450, quantity: 2794901812, order_id: 1492210382635008 },
            BitPrice { price: 6730704, quantity: 303084, order_id: 1492206118662144 },
            BitPrice { price: 6732467, quantity: 53658541, order_id: 1492210373668864 },
            BitPrice { price: 6732468, quantity: 303087, order_id: 1492206076321792 },
            BitPrice { price: 6733702, quantity: 134150349, order_id: 1492210365878272 },
            BitPrice { price: 6733703, quantity: 6608124880, order_id: 1492210237603841 },
            BitPrice { price: 6734232, quantity: 302090, order_id: 1492206023348227 },
            BitPrice { price: 6735995, quantity: 348784521, order_id: 1492210365784064 },
            BitPrice { price: 6735996, quantity: 302093, order_id: 1492205341057024 },
            BitPrice { price: 6737760, quantity: 302096, order_id: 1492204917878784 },
            BitPrice { price: 6737764, quantity: 303079, order_id: 1492206186070016 },
            BitPrice { price: 6739524, quantity: 302099, order_id: 1492204913156101 },
            BitPrice { price: 6739528, quantity: 303082, order_id: 1492206185582597 },
            BitPrice { price: 6741288, quantity: 302102, order_id: 1492165241192452 },
            BitPrice { price: 6741292, quantity: 303085, order_id: 1492206100049920 },
            BitPrice { price: 6741868, quantity: 25668454620, order_id: 1492210237833216 },
            BitPrice { price: 6743052, quantity: 302105, order_id: 1492164409020417 },
            BitPrice { price: 6743056, quantity: 303088, order_id: 1492206023606275 },
            BitPrice { price: 6744626, quantity: 3748000000, order_id: 1492202466779138 },
            BitPrice { price: 6744650, quantity: 2371000000, order_id: 1492210266959881 },
            BitPrice { price: 6744816, quantity: 302108, order_id: 1492164408778752 },
            BitPrice { price: 6744820, quantity: 53207, order_id: 1492205341265920 },
            BitPrice { price: 6744820, quantity: 248884, order_id: 1492206010265604 },
            BitPrice { price: 6746580, quantity: 159986, order_id: 1492162766815233 },
            BitPrice { price: 6746580, quantity: 142125, order_id: 1492164381061120 },
            BitPrice { price: 6746584, quantity: 302094, order_id: 1492205239832576 },
            BitPrice { price: 6748344, quantity: 302114, order_id: 1492162766172161 },
            BitPrice { price: 6748348, quantity: 302097, order_id: 1492204917673984 },
            BitPrice { price: 6749532, quantity: 303065, order_id: 1491862059839488 },
            BitPrice { price: 6750108, quantity: 302117, order_id: 1491861941764098 },
            BitPrice { price: 6750112, quantity: 302100, order_id: 1491861972586500 },
            BitPrice { price: 6751296, quantity: 303068, order_id: 1491862049656833 },
            BitPrice { price: 6751872, quantity: 302120, order_id: 1491851847143426 },
            BitPrice { price: 6751876, quantity: 302103, order_id: 1491861971234816 },
            BitPrice { price: 6752311, quantity: 100000000, order_id: 1491859023663106 },
            BitPrice { price: 6753060, quantity: 303071, order_id: 1491862037516288 },
            BitPrice { price: 6753636, quantity: 302123, order_id: 1491851685060611 },
            BitPrice { price: 6753640, quantity: 302106, order_id: 1491861965447168 },
            BitPrice { price: 6754824, quantity: 303074, order_id: 1491862036320261 },
            BitPrice { price: 6755360, quantity: 7662000000, order_id: 1492210266976261 },
            BitPrice { price: 6755400, quantity: 302126, order_id: 1491851063762944 },
            BitPrice { price: 6755404, quantity: 302109, order_id: 1491861961129987 },
            BitPrice { price: 6756588, quantity: 303077, order_id: 1491862031593472 },
            BitPrice { price: 6757164, quantity: 301129, order_id: 1491851063558147 },
            BitPrice { price: 6757168, quantity: 302112, order_id: 1491861949280261 },
            BitPrice { price: 6758352, quantity: 303080, order_id: 1491862021210120 },
            BitPrice { price: 6758636, quantity: 100000000, order_id: 1492087951314945 },
            BitPrice { price: 6758928, quantity: 301132, order_id: 1491851058843655 },
            BitPrice { price: 6758932, quantity: 250907, order_id: 1491252066885634 },
            BitPrice { price: 6760116, quantity: 303083, order_id: 1491277405323266 },
            BitPrice { price: 6760116, quantity: 303083, order_id: 1491277411885060 },
            BitPrice { price: 6760692, quantity: 301135, order_id: 1491232484462595 },
            BitPrice { price: 6760696, quantity: 302118, order_id: 1491235224731648 },
            BitPrice { price: 6761880, quantity: 303086, order_id: 1491277404602372 },
            BitPrice { price: 6762456, quantity: 301138, order_id: 1491232379027456 },
            BitPrice { price: 6762460, quantity: 302121, order_id: 1491234605850625 },
            BitPrice { price: 6763644, quantity: 303089, order_id: 1491277398564864 },
            BitPrice { price: 6764220, quantity: 301141, order_id: 1491232345210882 },
            BitPrice { price: 6764224, quantity: 302124, order_id: 1491234605039617 },
            BitPrice { price: 6765408, quantity: 302092, order_id: 1491277397913602 },
            BitPrice { price: 6765984, quantity: 301144, order_id: 1491232319770626 },
            BitPrice { price: 6765988, quantity: 302127, order_id: 1491234002092033 },
            BitPrice { price: 6766437, quantity: 100000000, order_id: 1491232574193665 },
            BitPrice { price: 6767172, quantity: 302095, order_id: 1491277397159937 },
            BitPrice { price: 6767748, quantity: 301147, order_id: 1491231782932484 },
            BitPrice { price: 6767752, quantity: 301130, order_id: 1491234000748544 },
            BitPrice { price: 6768936, quantity: 302098, order_id: 1491277392191489 },
            BitPrice { price: 6769512, quantity: 301150, order_id: 1491230943768583 },
            BitPrice { price: 6769516, quantity: 301133, order_id: 1491232552075264 },
            BitPrice { price: 6769920, quantity: 9206000000, order_id: 1492210266959873 },
            BitPrice { price: 6770700, quantity: 302101, order_id: 1491277369573386 },
            BitPrice { price: 6771276, quantity: 301153, order_id: 1491229700182016 },
            BitPrice { price: 6771280, quantity: 301136, order_id: 1491232479510528 },
            BitPrice { price: 6772464, quantity: 302104, order_id: 1491277307379721 },
            BitPrice { price: 6773040, quantity: 301156, order_id: 1491208548585472 },
            BitPrice { price: 6773044, quantity: 301139, order_id: 1491232365617153 },
            BitPrice { price: 6774228, quantity: 302107, order_id: 1491257295532032 },
            BitPrice { price: 6774804, quantity: 301159, order_id: 1491157651738624 },
        ],
    };

    let got = make_merged_market_depth(binance, bitstamp);

    let expected_bids = vec![
        Level { exchange: Exchange::Bitstamp, price: 6712000, amount: 521000, order_id: Some(1492210355929088) },
        Level { exchange: Exchange::Bitstamp, price: 6709444, amount: 49500000, order_id: Some(1492210382880768) },
        Level { exchange: Exchange::Bitstamp, price: 6709423, amount: 254078178, order_id: Some(1492210382667777) },
        Level { exchange: Exchange::Bitstamp, price: 6709148, amount: 508133812, order_id: Some(1492210382671873) },
        Level { exchange: Exchange::Bitstamp, price: 6708276, amount: 49500000, order_id: Some(1492210377195520) },
        Level { exchange: Exchange::Binance, price: 6707700, amount: 2654010000, order_id: None },
        Level { exchange: Exchange::Binance, price: 6707600, amount: 2935210000, order_id: None },
        Level { exchange: Exchange::Binance, price: 6707500, amount: 254030000, order_id: None },
        Level { exchange: Exchange::Binance, price: 6707400, amount: 25420000, order_id: None },
        Level { exchange: Exchange::Binance, price: 6707200, amount: 1436560000, order_id: None },
    ];
    let expected_asks = vec![
        Level { exchange: Exchange::Binance, price: 6707800, amount: 37280000, order_id: None },
        Level { exchange: Exchange::Binance, price: 6708800, amount: 7500000, order_id: None },
        Level { exchange: Exchange::Binance, price: 6709000, amount: 134440000, order_id: None },
        Level { exchange: Exchange::Binance, price: 6709100, amount: 317810000, order_id: None },
        Level { exchange: Exchange::Binance, price: 6709400, amount: 2000000, order_id: None },
        Level { exchange: Exchange::Binance, price: 6709700, amount: 275700000, order_id: None },
        Level { exchange: Exchange::Binance, price: 6709800, amount: 17400000, order_id: None },
        Level { exchange: Exchange::Binance, price: 6709900, amount: 401870000, order_id: None },
        Level { exchange: Exchange::Binance, price: 6710000, amount: 566450000, order_id: None },
        Level { exchange: Exchange::Binance, price: 6710100, amount: 9710000, order_id: None },
    ];
    assert_eq!(got.bids, expected_bids);
    assert_eq!(got.asks, expected_asks);
    // The spread is the highest (first) bid minus the lowest (first) ask.
    assert_eq!(got.spread, 4200);

    // Expected asks are sorted with the smallest price first.
    let mut sorted = expected_asks.clone();
    sorted.sort_by(|a, b| a.price.cmp(&b.price));
    assert_eq!(sorted, expected_asks);

    // Expected bids are sorted with the largest price first.
    let mut sorted = expected_bids.clone();
    sorted.sort_by(|a, b| a.price.cmp(&b.price));
    sorted.reverse();
    assert_eq!(sorted, expected_bids);

    let lowest_ask = expected_asks.iter().map(|level| level.price).min().unwrap();
    let highest_bid = expected_bids.iter().map(|level| level.price).max().unwrap();
    let expected_spread = highest_bid as i128 - lowest_ask as i128;
    assert_eq!(got.spread, expected_spread);
}
