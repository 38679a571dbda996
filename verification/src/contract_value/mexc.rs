//! MEXC contracts.
//!
//! An inverse swap is worth 100 quote coins where the base is Bitcoin, and
//! 10 otherwise. A linear swap has a contract size of its own, which MEXC
//! lists.

use crate::amount::Amount;
use crate::contract_value::listing::{contract_specs, entries, entries_of, listing_of, Listed};
use crate::contract_value::table::{ContractSpec, ContractTable};
use crate::market::MarketKind;
use crate::pair::{normal_pair, normalize_pair};
use crate::text::{chars_of, has_prefix, same_text, starts_with};
use vstd::prelude::*;

verus! {

/// The contract sizes of the linear swaps, as MEXC listed them at one time.
pub const BASELINE: &'static str = "\
1000000FLOKICEO/USDT 100000\n\
1000000OGGY/USDT 100000\n\
1000000SIMPSON/USDT 1000000\n\
100000AIDOGE/USDT 100000\n\
100000BABYDOGE/USDT 10000\n\
100000BABYDOGE2/USDT 1000000\n\
1000BEN/USDT 100000\n\
1000BONK/USDT 10000\n\
1000BTT/USDT 10000\n\
1000CAW/USDT 100000\n\
1000DOGE2/USDT 100000\n\
1000LADYS/USDT 100000\n\
1000MONG/USDT 100000\n\
1000PEPE2/USDT 100000\n\
1000RATS/USDT 100\n\
1000SHIB2/USDT 100000\n\
1000SOS/USDT 100000\n\
1000STARL/USDT 1000\n\
1000YURI/USDT 100000\n\
1INCH/USDT 1\n\
AAVE/USDT 0.01\n\
ACA/USDT 1\n\
ACH/USDT 1\n\
ACS/USDT 100\n\
ADA/USDT 1\n\
AERGO/USDT 10\n\
AGI/USDT 100\n\
AGIX/USDT 10\n\
AGLD/USDT 0.1\n\
AICODE/USDT 0.1\n\
AIDOGE/USDT 100000000000\n\
AIEN/USDT 100000000\n\
AKITA/USDT 1000000\n\
AKRO/USDT 1\n\
ALGO/USDT 1\n\
ALICE/USDT 0.1\n\
ALPACA/USDT 10\n\
ALPHA/USDT 1\n\
ALPINE/USDT 1\n\
ALT/USDT 10\n\
AMB/USDT 100\n\
ANC/USDT 1\n\
ANKR/USDT 1\n\
ANT/USDT 1\n\
ANY/USDT 0.1\n\
APE/USDT 1\n\
API3/USDT 1\n\
APT/USDT 0.1\n\
APX/USDT 10\n\
AR/USDT 0.1\n\
ARB/USDT 1\n\
ARBGPT/USDT 10000\n\
AREA/USDT 10\n\
ARK/USDT 10\n\
ARKM/USDT 10\n\
ARPA/USDT 1\n\
ASTR/USDT 10\n\
ASTRA/USDT 10\n\
ATA/USDT 1\n\
ATOM/USDT 0.1\n\
ATOR/USDT 1\n\
AUCTION/USDT 1\n\
AUDIO/USDT 1\n\
AVAX/USDT 0.1\n\
AXS/USDT 1\n\
AZERO/USDT 1\n\
BABY/USDT 10\n\
BABYDOGE/USDT 1000000000\n\
BADGER/USDT 0.1\n\
BAKE/USDT 10\n\
BAL/USDT 0.1\n\
BAND/USDT 0.1\n\
BAT/USDT 1\n\
BCH/USDT 0.01\n\
BDP/USDT 10\n\
BEAMX/USDT 1000\n\
BEL/USDT 1\n\
BFT/USDT 10\n\
BICO/USDT 1\n\
BIGTIME/USDT 100\n\
BIT/USDT 1\n\
BITCI/USDT 1000\n\
BLUR/USDT 10\n\
BLZ/USDT 10\n\
BNB/USDT 0.01\n\
BNT/USDT 10\n\
BNX/USDT 0.01\n\
BNXNEW/USDT 1\n\
BOB/USDT 100000\n\
BOBA/USDT 1\n\
BOND/USDT 1\n\
BONE/USDT 10\n\
BONK/USDT 1000000\n\
BP/USDT 0.1\n\
BRISE/USDT 1000000\n\
BSV/USDT 0.01\n\
BSW/USDT 10\n\
BTC/USDT 0.0001\n\
BTC2/USDT 10\n\
BTM/USDT 10\n\
BTS/USDT 1\n\
BTT/USDT 1\n\
BTTC/USDT 1000000\n\
BUSD/USDT 10\n\
BZZ/USDT 0.1\n\
C98/USDT 1\n\
CAKE/USDT 1\n\
CANTO/USDT 10\n\
CAW/USDT 10000000\n\
CEEK/USDT 10\n\
CEL/USDT 10\n\
CELO/USDT 1\n\
CELR/USDT 1\n\
CETUS/USDT 10\n\
CFX/USDT 1\n\
CGPT/USDT 10\n\
CHESS/USDT 10\n\
CHR/USDT 10\n\
CHZ/USDT 1\n\
CKB/USDT 1000\n\
CLIPS/USDT 100000\n\
CLORE/USDT 100\n\
CLV/USDT 100\n\
COCOS/USDT 1\n\
COMBO/USDT 1\n\
COMP/USDT 0.01\n\
CORE/USDT 1\n\
COTI/USDT 1\n\
CPH/USDT 100\n\
CREAM/USDT 0.1\n\
CRO/USDT 10\n\
CRV/USDT 0.1\n\
CSPR/USDT 1\n\
CTC/USDT 10\n\
CTK/USDT 1\n\
CTSI/USDT 1\n\
CVC/USDT 1\n\
CVX/USDT 1\n\
CYBER/USDT 1\n\
DAR/USDT 1\n\
DASH/USDT 0.01\n\
DC/USDT 10000\n\
DCERC/USDT 1000\n\
DEFI/USDT 0.01\n\
DEGO/USDT 1\n\
DENT/USDT 1\n\
DERI/USDT 10\n\
DGB/USDT 1\n\
DIONE/USDT 1000\n\
DNX/USDT 10\n\
DODO/USDT 10\n\
DOGE/USDT 100\n\
DORA/USDT 0.1\n\
DOT/USDT 0.1\n\
DUSK/USDT 10\n\
DYDX/USDT 1\n\
DZOO/USDT 100\n\
EDEN/USDT 1\n\
EDU/USDT 1\n\
EGLD/USDT 0.1\n\
ELON/USDT 1000000\n\
ENJ/USDT 1\n\
ENS/USDT 0.1\n\
EOS/USDT 0.1\n\
ERN/USDT 1\n\
ETC/USDT 0.1\n\
ETH/USDT 0.01\n\
ETHW/USDT 0.1\n\
FET/USDT 10\n\
FIDA/USDT 10\n\
FILECOIN/USDT 0.01\n\
FITFI/USDT 10\n\
FLM/USDT 1\n\
FLOKI/USDT 100000\n\
FLOKICEO/USDT 10000000000\n\
FLOW/USDT 0.1\n\
FLR/USDT 100\n\
FLUX/USDT 1\n\
FODL/USDT 1\n\
FOOTBALL/USDT 0.001\n\
FORTH/USDT 1\n\
FREE/USDT 100\n\
FRONT/USDT 10\n\
FTM/USDT 1\n\
FTT/USDT 0.1\n\
FXS/USDT 0.1\n\
GAL/USDT 0.1\n\
GALA/USDT 10\n\
GAS/USDT 1\n\
GDO/USDT 10000000\n\
GFT/USDT 100\n\
GLMR/USDT 10\n\
GMT/USDT 10\n\
GMX/USDT 0.1\n\
GNS/USDT 1\n\
GODS/USDT 1\n\
GOLDFINCH/USDT 1\n\
GPT/USDT 100\n\
GRIMACE/USDT 0.1\n\
GROK/USDT 100\n\
GRT/USDT 1\n\
GST/USDT 1\n\
GTC/USDT 0.1\n\
HAHA/USDT 100000\n\
HBAR/USDT 1\n\
HFT/USDT 10\n\
HIFI/USDT 10\n\
HIGH/USDT 1\n\
HIVE/USDT 1\n\
HNT/USDT 0.1\n\
HOOK/USDT 1\n\
HOT/USDT 1\n\
HT/USDT 0.1\n\
HTD/USDT 1\n\
ICP/USDT 0.01\n\
ICX/USDT 1\n\
ID/USDT 10\n\
IDEX/USDT 100\n\
IGU/USDT 100\n\
ILV/USDT 0.001\n\
IMX/USDT 1\n\
INJ/USDT 1\n\
IOST/USDT 100\n\
IOTA/USDT 1\n\
IOTX/USDT 1\n\
JASMY/USDT 10\n\
JOE/USDT 1\n\
JST/USDT 100\n\
JUSTICE/USDT 1000\n\
KAS/USDT 1000\n\
KAVA/USDT 0.1\n\
KDA/USDT 1\n\
KEEP/USDT 1\n\
KEY/USDT 1000\n\
KISHU/USDT 1000000000\n\
KLAY/USDT 1\n\
KNC/USDT 0.1\n\
KOIN/USDT 1\n\
KSM/USDT 0.01\n\
LADYS/USDT 10000000\n\
LAI/USDT 100\n\
LAZIO/USDT 1\n\
LDO/USDT 1\n\
LEVER/USDT 1000\n\
LINA/USDT 1\n\
LINK/USDT 0.1\n\
LIT/USDT 0.1\n\
LOKA/USDT 10\n\
LOOKS/USDT 1\n\
LOOM/USDT 100\n\
LOOP/USDT 10\n\
LOVELY/USDT 10000000\n\
LPT/USDT 0.1\n\
LQTY/USDT 1\n\
LRC/USDT 1\n\
LTC/USDT 0.01\n\
LUNA/USDT 10000\n\
LUNANEW/USDT 1\n\
LUNC/USDT 10000\n\
LUNCH/USDT 1000\n\
MAGIC/USDT 10\n\
MANA/USDT 1\n\
MASK/USDT 0.1\n\
MATIC/USDT 1\n\
MAV/USDT 10\n\
MBL/USDT 1000\n\
MBOX/USDT 1\n\
MC/USDT 10\n\
MDT/USDT 100\n\
MDX/USDT 10\n\
MELI/USDT 10\n\
MEME/USDT 100\n\
MINA/USDT 1\n\
MKR/USDT 0.01\n\
MNT/USDT 10\n\
MONG/USDT 10000000\n\
MOVR/USDT 1\n\
MTL/USDT 1\n\
MULTI/USDT 1\n\
MX/USDT 1\n\
NEAR/USDT 1\n\
NEO/USDT 0.1\n\
NEXA/USDT 100000\n\
NEXT/USDT 10\n\
NFT/USDT 1000000\n\
NKN/USDT 1\n\
NMR/USDT 0.1\n\
NTRN/USDT 10\n\
NU/USDT 1\n\
NYM/USDT 1\n\
O3/USDT 1\n\
OAX/USDT 10\n\
OCEAN/USDT 1\n\
OG/USDT 0.1\n\
OGN/USDT 1\n\
OKB/USDT 0.1\n\
OMG/USDT 0.1\n\
ONE/USDT 1\n\
ONT/USDT 1\n\
OP/USDT 1\n\
ORBS/USDT 100\n\
ORDI/USDT 0.1\n\
OSMO/USDT 1\n\
OXT/USDT 100\n\
PAXG/USDT 0.001\n\
PENDLE/USDT 1\n\
PEOPLE/USDT 10\n\
PEPE/USDT 10000000\n\
PEPECOMMUNITY/USDT 100\n\
PERP/USDT 10\n\
PHB/USDT 1\n\
PIT/USDT 1000000000\n\
PLA/USDT 1\n\
PLANET/USDT 100000\n\
POGAI/USDT 100000\n\
POKT/USDT 1\n\
POLYDOGE/USDT 100000000\n\
POLYX/USDT 10\n\
PORTO/USDT 1\n\
POWR/USDT 10\n\
PSG/USDT 1\n\
PSP/USDT 1\n\
PUNDIX/USDT 10\n\
PYTH/USDT 10\n\
QNT/USDT 0.01\n\
QTUM/USDT 0.1\n\
RACA/USDT 1000\n\
RAD/USDT 1\n\
RAY/USDT 0.1\n\
RDNT/USDT 10\n\
REEF/USDT 1\n\
REKT/USDT 100000000\n\
REN/USDT 10\n\
REQ/USDT 100\n\
RIF/USDT 10\n\
RIO/USDT 10\n\
RLC/USDT 1\n\
RNDR/USDT 1\n\
ROSE/USDT 10\n\
RPL/USDT 0.1\n\
RSR/USDT 1\n\
RSS3/USDT 10\n\
RUNE/USDT 1\n\
RVN/USDT 10\n\
SAMO/USDT 1000\n\
SAND/USDT 1\n\
SANTOS/USDT 0.1\n\
SATS/USDT 10000000\n\
SC/USDT 1\n\
SCRT/USDT 1\n\
SDN/USDT 0.1\n\
SEI/USDT 10\n\
SFP/USDT 1\n\
SHIB/USDT 1000\n\
SHIBAI/USDT 10000000000\n\
SHIT/USDT 10000000\n\
SKL/USDT 1\n\
SLP/USDT 1\n\
SNFT/USDT 10\n\
SNT/USDT 100\n\
SNX/USDT 0.1\n\
SOL/USDT 0.1\n\
SOS/USDT 1000000\n\
SPA/USDT 100\n\
SPELL/USDT 100\n\
SPGBB/USDT 100000\n\
SRM/USDT 0.1\n\
SSS/USDT 0.1\n\
SSV/USDT 0.1\n\
STARL/USDT 100000\n\
STEEM/USDT 10\n\
STEPN/USDT 1\n\
STG/USDT 10\n\
STMX/USDT 1\n\
STORJ/USDT 1\n\
STPT/USDT 100\n\
STRAX/USDT 10\n\
STX/USDT 10\n\
SUI/USDT 1\n\
SUN/USDT 1000\n\
SUPER/USDT 10\n\
SUSHI/USDT 0.1\n\
SWEAT/USDT 100\n\
SXP/USDT 1\n\
SYN/USDT 1\n\
T/USDT 100\n\
TARA/USDT 1000\n\
THETA/USDT 1\n\
TIA/USDT 1\n\
TIP/USDT 10000\n\
TLM/USDT 1\n\
TNS/USDT 1\n\
TOKEN/USDT 100\n\
TOMI/USDT 1\n\
TOMO/USDT 10\n\
TONCOIN/USDT 1\n\
TORN/USDT 0.01\n\
TRB/USDT 0.1\n\
TRIAS/USDT 1\n\
TRU/USDT 10\n\
TRVL/USDT 1\n\
TRX/USDT 10\n\
TURBO/USDT 10000\n\
TWT/USDT 1\n\
UMA/USDT 0.1\n\
UMEE/USDT 10\n\
UNFI/USDT 1\n\
UNI/USDT 0.1\n\
USDC/USDT 10\n\
UST/USDT 10\n\
USTC/USDT 100\n\
VELO/USDT 1000\n\
VET/USDT 1\n\
VGX/USDT 10\n\
VINU/USDT 100000000\n\
VMPX/USDT 10\n\
VRA/USDT 100\n\
VRTX/USDT 10\n\
WAVES/USDT 0.1\n\
WAXP/USDT 10\n\
WEMIX/USDT 1\n\
WIN/USDT 100000\n\
WLD/USDT 1\n\
WOJAK/USDT 10000\n\
WOO/USDT 1\n\
WRLD/USDT 10\n\
WSM/USDT 100\n\
X2Y2/USDT 1\n\
XCH/USDT 0.01\n\
XCN/USDT 1000\n\
XEC/USDT 10000\n\
XEM/USDT 1\n\
XEN/USDT 1000000\n\
XLM/USDT 10\n\
XMR/USDT 0.01\n\
XNO/USDT 10\n\
XRD/USDT 100\n\
XRP/USDT 1\n\
XTZ/USDT 0.1\n\
XVG/USDT 1000\n\
XVS/USDT 1\n\
YFI/USDT 0.0001\n\
YFII/USDT 0.0001\n\
YGG/USDT 1\n\
YOOSHI/USDT 1000000\n\
ZEC/USDT 0.01\n\
ZEN/USDT 0.1\n\
ZIL/USDT 10\n\
ZIX/USDT 1000\n\
ZRX/USDT 1\n\
ZTX/USDT 100\n\
ZZZ/USDT 10\n";

/// One contract of MEXC's listing.
#[derive(Clone, Debug)]
pub struct SwapMarket {
    /// The symbol, as MEXC writes it.
    pub symbol: String,
    /// The base currency.
    pub base_coin: String,
    /// The quote currency.
    pub quote_coin: String,
    /// The currency in which the contract settles.
    pub settle_coin: String,
    /// The contract size, as a decimal number.
    pub contract_size: String,
}

/// The linear contracts of a listing, in order: those that settle in their
/// quote currency.
pub open spec fn linear_of(markets: Seq<SwapMarket>) -> Seq<(Option<Seq<char>>, Seq<char>)>
    decreases markets.len(),
{
    if markets.len() == 0 {
        Seq::empty()
    } else if markets.last().settle_coin@ != markets.last().quote_coin@ {
        linear_of(markets.drop_last())
    } else {
        linear_of(markets.drop_last()).push(
            (normal_pair(markets.last().symbol@, "mexc"@), markets.last().contract_size@),
        )
    }
}

/// The multiplier of `pair` on a market of that kind.
pub open spec fn value_of(table: Map<Seq<char>, Amount>, kind: MarketKind, pair: Seq<char>) -> Option<
    Amount,
> {
    match kind {
        MarketKind::InverseSwap => if starts_with(pair, "BTC"@) {
            Some(Amount { num: 100, den: 1 })
        } else {
            Some(Amount { num: 10, den: 1 })
        },
        MarketKind::LinearSwap => if table.contains_key(pair) {
            Some(table[pair])
        } else {
            None
        },
        _ => None,
    }
}

fn linear(markets: &Vec<SwapMarket>) -> (r: Vec<Listed>)
    ensures
        listing_of(r@) == linear_of(markets@),
{
    let mut r: Vec<Listed> = Vec::new();
    let mut i: usize = 0;
    assert(listing_of(r@) =~= Seq::empty());
    while i < markets.len()
        invariant
            i <= markets.len(),
            listing_of(r@) == linear_of(markets@.take(i as int)),
        decreases markets.len() - i,
    {
        proof {
            assert(markets@.take(i + 1).drop_last() =~= markets@.take(i as int));
            assert(markets@.take(i + 1).last() == markets[i as int]);
        }
        let settle = chars_of(markets[i].settle_coin.as_str());
        let quote = chars_of(markets[i].quote_coin.as_str());
        if same_text(&settle, &quote) {
            let ghost before = listing_of(r@);
            let listed = Listed {
                pair: normalize_pair(markets[i].symbol.as_str(), "mexc"),
                multiplier: markets[i].contract_size.clone(),
            };
            r.push(listed);
            assert(listing_of(r@) =~= before.push(listed@));
        }
        i += 1;
    }
    assert(markets@.take(i as int) =~= markets@);
    r
}

/// Reads the contract sizes of the linear contracts off a listing. `None`
/// where one of them cannot be read.
pub fn linear_contract_sizes(markets: &Vec<SwapMarket>) -> (r: Option<Vec<ContractSpec>>)
    ensures
        match r {
            Some(specs) => entries_of(linear_of(markets@)) == Some(entries(specs@)),
            None => entries_of(linear_of(markets@)) is None,
        },
        r matches Some(specs) ==> forall|i: int|
            0 <= i < specs.len() ==> (#[trigger] specs[i]).wf(),
{
    contract_specs(&linear(markets))
}

/// The multiplier of `pair` on a market of that kind.
pub fn get_contract_value(table: &ContractTable, market_type: MarketKind, pair: &str) -> (r:
    Option<Amount>)
    ensures
        r == value_of(table@, market_type, pair@),
{
    match market_type {
        MarketKind::InverseSwap => if has_prefix(&chars_of(pair), "BTC") {
            Some(Amount::whole(100))
        } else {
            Some(Amount::whole(10))
        },
        MarketKind::LinearSwap => table.get(pair),
        _ => None,
    }
}

} // verus!
