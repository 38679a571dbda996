//! KuCoin contracts.
//!
//! An inverse contract is worth one quote coin. A linear swap has a
//! multiplier of its own, which KuCoin lists.

use crate::amount::Amount;
use crate::contract_value::listing::{contract_specs, entries, entries_of, listing_of, Listed};
use crate::contract_value::table::{ContractSpec, ContractTable};
use crate::market::MarketKind;
use crate::pair::{normal_pair, normalize_pair};
use vstd::prelude::*;

verus! {

/// The multipliers of the linear swaps, as KuCoin listed them at one time.
pub const BASELINE: &'static str = "\
10000LADYS/USDT 1000\n\
10000SATS/USDT 1000\n\
10000STARL/USDT 10\n\
1000BONK/USDT 1000\n\
1000PEPE2/USDT 10000\n\
1INCH/USDT 1\n\
AAVE/USDT 0.01\n\
ACH/USDT 100\n\
ADA/USDT 10\n\
AGIX/USDT 1\n\
AGLD/USDT 1\n\
ALGO/USDT 1\n\
ALICE/USDT 0.1\n\
ALPHA/USDT 10\n\
AMB/USDT 100\n\
ANC/USDT 10\n\
ANKR/USDT 10\n\
ANT/USDT 1\n\
APE/USDT 0.1\n\
API3/USDT 0.1\n\
APT/USDT 0.1\n\
AR/USDT 0.1\n\
ARB/USDT 1\n\
ARK/USDT 10\n\
ARPA/USDT 10\n\
ASTR/USDT 10\n\
ATOM/USDT 0.1\n\
AUDIO/USDT 1\n\
AVAX/USDT 0.1\n\
AXS/USDT 0.1\n\
BADGER/USDT 1\n\
BAKE/USDT 10\n\
BAL/USDT 0.1\n\
BAND/USDT 0.1\n\
BAT/USDT 1\n\
BCH/USDT 0.01\n\
BEL/USDT 1\n\
BIGTIME/USDT 10\n\
BLUR/USDT 1\n\
BLZ/USDT 10\n\
BNB/USDT 0.01\n\
BNT/USDT 1\n\
BOB/USDT 100000\n\
BOND/USDT 1\n\
BSV/USDT 0.01\n\
BTC/USDC 0.0001\n\
BTC/USDT 0.001\n\
BTT/USDT 1000\n\
C98/USDT 1\n\
CAKE/USDT 1\n\
CELO/USDT 1\n\
CELR/USDT 10\n\
CETUS/USDT 10\n\
CFX/USDT 10\n\
CHR/USDT 1\n\
CHZ/USDT 1\n\
CKB/USDT 100\n\
COCOS/USDT 1\n\
COMBO/USDT 1\n\
COMP/USDT 0.01\n\
CRO/USDT 1\n\
CRV/USDT 1\n\
CTSI/USDT 1\n\
CVC/USDT 10\n\
CYBER/USDT 1\n\
DAR/USDT 10\n\
DASH/USDT 0.01\n\
DC/USDT 1000\n\
DENT/USDT 100\n\
DGB/USDT 10\n\
DODO/USDT 10\n\
DOGE/USDT 100\n\
DOT/USDT 1\n\
DUSK/USDT 10\n\
DYDX/USDT 0.1\n\
EDU/USDT 1\n\
EGLD/USDT 0.01\n\
ENJ/USDT 1\n\
ENS/USDT 0.1\n\
EOS/USDT 1\n\
ERN/USDT 1\n\
ETC/USDT 0.1\n\
ETH/USDC 0.001\n\
ETH/USDT 0.01\n\
FET/USDT 10\n\
FIL/USDT 0.1\n\
FLM/USDT 10\n\
FLOKI/USDT 100000\n\
FLOW/USDT 0.1\n\
FLUX/USDT 1\n\
FRONT/USDT 10\n\
FTM/USDT 1\n\
FTT/USDT 1\n\
FXS/USDT 0.1\n\
GAL/USDT 0.1\n\
GALA/USDT 1\n\
GAS/USDT 1\n\
GFT/USDT 100\n\
GLMR/USDT 10\n\
GMT/USDT 1\n\
GMX/USDT 0.01\n\
GNS/USDT 1\n\
GRT/USDT 1\n\
GTC/USDT 1\n\
HBAR/USDT 10\n\
HFT/USDT 1\n\
HIFI/USDT 1\n\
HIGH/USDT 1\n\
HOOK/USDT 1\n\
HOT/USDT 1000\n\
ICP/USDT 0.01\n\
ICX/USDT 10\n\
ID/USDT 10\n\
IDEX/USDT 10\n\
IMX/USDT 1\n\
INJ/USDT 1\n\
IOST/USDT 100\n\
IOTX/USDT 10\n\
JASMY/USDT 10\n\
JOE/USDT 1\n\
JST/USDT 100\n\
KAS/USDT 100\n\
KAVA/USDT 0.1\n\
KDA/USDT 0.1\n\
KEEP/USDT 1\n\
KEY/USDT 100\n\
KLAY/USDT 1\n\
KNC/USDT 1\n\
KSM/USDT 0.01\n\
LDO/USDT 0.1\n\
LEVER/USDT 1000\n\
LINA/USDT 10\n\
LINK/USDT 0.1\n\
LIT/USDT 1\n\
LOOKS/USDT 1\n\
LOOM/USDT 10\n\
LPT/USDT 1\n\
LQTY/USDT 1\n\
LRC/USDT 1\n\
LTC/USDT 0.1\n\
LUNA/USDT 1\n\
LUNC/USDT 1000\n\
MAGIC/USDT 1\n\
MANA/USDT 1\n\
MASK/USDT 0.1\n\
MATIC/USDT 10\n\
MAV/USDT 1\n\
MBL/USDT 100\n\
MDT/USDT 10\n\
MEME/USDT 100\n\
MINA/USDT 1\n\
MIR/USDT 0.1\n\
MKR/USDT 0.001\n\
MTL/USDT 1\n\
NEAR/USDT 0.1\n\
NEO/USDT 0.1\n\
NFT/USDT 100000\n\
NKN/USDT 10\n\
NMR/USDT 0.1\n\
NTRN/USDT 10\n\
NYM/USDT 1\n\
OCEAN/USDT 1\n\
OGN/USDT 10\n\
OMG/USDT 0.1\n\
ONE/USDT 10\n\
ONT/USDT 1\n\
OP/USDT 1\n\
ORBS/USDT 100\n\
ORDI/USDT 0.1\n\
OXT/USDT 10\n\
PAXG/USDT 0.001\n\
PENDLE/USDT 1\n\
PEOPLE/USDT 10\n\
PEPE/USDT 520000\n\
PERP/USDT 1\n\
PHB/USDT 1\n\
POGAI/USDT 10000\n\
POLYX/USDT 10\n\
POWR/USDT 10\n\
PYTH/USDT 10\n\
QNT/USDT 0.01\n\
QTUM/USDT 0.1\n\
RAD/USDT 1\n\
RDNT/USDT 10\n\
REEF/USDT 100\n\
REN/USDT 10\n\
RIF/USDT 10\n\
RNDR/USDT 1\n\
ROSE/USDT 10\n\
RSR/USDT 100\n\
RUNE/USDT 0.1\n\
RVN/USDT 10\n\
SAND/USDT 1\n\
SEI/USDT 10\n\
SFP/USDT 10\n\
SHIB/USDT 100000\n\
SKL/USDT 10\n\
SLP/USDT 10\n\
SNT/USDT 10\n\
SNX/USDT 0.1\n\
SOL/USDT 0.1\n\
SOS/USDT 100000\n\
SPELL/USDT 1000\n\
SRM/USDT 1\n\
SSV/USDT 0.1\n\
STEEM/USDT 10\n\
STG/USDT 1\n\
STMX/USDT 1000\n\
STORJ/USDT 1\n\
STPT/USDT 10\n\
STRAX/USDT 1\n\
STX/USDT 1\n\
SUI/USDT 1\n\
SUSHI/USDT 1\n\
SXP/USDT 1\n\
T/USDT 100\n\
THETA/USDT 0.1\n\
TIA/USDT 1\n\
TLM/USDT 1\n\
TOKEN/USDT 100\n\
TOMO/USDT 1\n\
TON/USDT 1\n\
TRB/USDT 0.1\n\
TRU/USDT 10\n\
TRX/USDT 100\n\
TURBO/USDT 10000\n\
TWT/USDT 1\n\
UMA/USDT 1\n\
UNFI/USDT 0.1\n\
UNI/USDT 1\n\
USDC/USDT 1\n\
VET/USDT 100\n\
VGX/USDT 10\n\
VRA/USDT 10\n\
WAVES/USDT 0.1\n\
WAXP/USDT 1\n\
WLD/USDT 1\n\
WOJAK/USDT 10000\n\
WOO/USDT 1\n\
WSM/USDT 100\n\
XCN/USDT 10\n\
XEC/USDT 100000\n\
XEM/USDT 1\n\
XLM/USDT 10\n\
XMR/USDT 0.01\n\
XRP/USDT 10\n\
XTZ/USDT 1\n\
XVG/USDT 100\n\
XVS/USDT 1\n\
YFI/USDT 0.0001\n\
YGG/USDT 0.1\n\
ZEC/USDT 0.01\n\
ZIL/USDT 10\n\
ZRX/USDT 10\n";

/// One contract of KuCoin's listing.
#[derive(Clone, Debug)]
pub struct SwapMarket {
    /// The symbol, as KuCoin writes it.
    pub symbol: String,
    /// The multiplier, as a decimal number.
    pub multiplier: String,
    /// Whether the contract is an inverse contract.
    pub is_inverse: bool,
}

/// The linear contracts of a listing, in order, each with the canonical
/// pair of its symbol.
pub open spec fn linear_of(markets: Seq<SwapMarket>) -> Seq<(Option<Seq<char>>, Seq<char>)>
    decreases markets.len(),
{
    if markets.len() == 0 {
        Seq::empty()
    } else if markets.last().is_inverse {
        linear_of(markets.drop_last())
    } else {
        linear_of(markets.drop_last()).push(
            (normal_pair(markets.last().symbol@, "kucoin"@), markets.last().multiplier@),
        )
    }
}

/// The multiplier of `pair` on a market of that kind: one for an inverse
/// contract, what `table` holds for a linear swap.
pub open spec fn value_of(table: Map<Seq<char>, Amount>, kind: MarketKind, pair: Seq<char>) -> Option<
    Amount,
> {
    match kind {
        MarketKind::InverseSwap | MarketKind::InverseFuture => Some(Amount { num: 1, den: 1 }),
        MarketKind::LinearSwap => if table.contains_key(pair) {
            Some(table[pair])
        } else {
            None
        },
        _ => None,
    }
}

fn linear(markets: &Vec<SwapMarket>) -> (r: Vec<Listed>)
    ensures
        listing_of(r@) == linear_of(markets@),
{
    let mut r: Vec<Listed> = Vec::new();
    let mut i: usize = 0;
    assert(listing_of(r@) =~= Seq::empty());
    while i < markets.len()
        invariant
            i <= markets.len(),
            listing_of(r@) == linear_of(markets@.take(i as int)),
        decreases markets.len() - i,
    {
        proof {
            assert(markets@.take(i + 1).drop_last() =~= markets@.take(i as int));
            assert(markets@.take(i + 1).last() == markets[i as int]);
        }
        if !markets[i].is_inverse {
            let ghost before = listing_of(r@);
            let listed = Listed {
                pair: normalize_pair(markets[i].symbol.as_str(), "kucoin"),
                multiplier: markets[i].multiplier.clone(),
            };
            r.push(listed);
            assert(listing_of(r@) =~= before.push(listed@));
        }
        i += 1;
    }
    assert(markets@.take(i as int) =~= markets@);
    r
}

/// Reads the multipliers of the linear contracts off a listing. `None`
/// where one of them cannot be read.
pub fn linear_multipliers(markets: &Vec<SwapMarket>) -> (r: Option<Vec<ContractSpec>>)
    ensures
        match r {
            Some(specs) => entries_of(linear_of(markets@)) == Some(entries(specs@)),
            None => entries_of(linear_of(markets@)) is None,
        },
        r matches Some(specs) ==> forall|i: int|
            0 <= i < specs.len() ==> (#[trigger] specs[i]).wf(),
{
    contract_specs(&linear(markets))
}

/// The multiplier of `pair` on a market of that kind.
pub fn get_contract_value(table: &ContractTable, market_type: MarketKind, pair: &str) -> (r:
    Option<Amount>)
    ensures
        r == value_of(table@, market_type, pair@),
{
    match market_type {
        MarketKind::InverseSwap | MarketKind::InverseFuture => Some(Amount::whole(1)),
        MarketKind::LinearSwap => table.get(pair),
        _ => None,
    }
}

} // verus!
