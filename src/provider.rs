//! What the library needs from the exchange side: decimal text, the
//! connection status, the vault summary derived from an account, and the
//! choice of monitored assets.

use crate::fixed::{pow10, ratio, ratio_units, sat, trunc_div, Dec, DEC_MAX, WIDE_MAX};
use crate::model::{Meta, UserState, VaultSummary};
use crate::risk::{abs, sum};
use vstd::prelude::*;

verus! {

/// Largest magnitude of a decimal mantissa: `2^96 - 1`.
pub const MANTISSA_MAX: i128 = 79_228_162_514_264_337_593_543_950_335;

/// Mantissa and scale of the decimal that a text denotes, if it denotes one.
pub uninterp spec fn decimal_text_parts(s: Seq<char>) -> Option<(int, int)>;

/// Relies on `rust_decimal::Decimal`'s `FromStr`, `mantissa` and `scale`: the
/// decimal a text denotes, as a mantissa of at most 96 bits and a scale of at
/// most 28.
#[verifier::external_body]
fn decimal_parts(s: &str) -> (r: Option<(i128, u32)>)
    ensures
        r matches Some(p) ==> decimal_text_parts(s@) == Some((p.0 as int, p.1 as int)) && p.1 <= 28
            && -MANTISSA_MAX <= p.0 <= MANTISSA_MAX,
        r is None ==> decimal_text_parts(s@) is None,
{
    s.parse::<rust_decimal::Decimal>().ok().map(|d| (d.mantissa(), d.scale()))
}

/// Units of `mantissa / 10^scale` at eight decimals, toward zero.
pub open spec fn parts_units(mantissa: int, scale: int) -> int {
    if scale <= 8 {
        mantissa * pow10((8 - scale) as nat)
    } else {
        trunc_div(mantissa, pow10((scale - 8) as nat) as int)
    }
}

/// The `Dec` a text denotes: its decimal, cut to eight decimals toward zero;
/// zero when the text is not a decimal or its value is beyond a `Dec`.
pub open spec fn parsed_units(s: Seq<char>) -> int {
    match decimal_text_parts(s) {
        Some(p) => if -(DEC_MAX as int) <= parts_units(p.0, p.1) <= DEC_MAX {
            parts_units(p.0, p.1)
        } else {
            0
        },
        None => 0,
    }
}

fn pow10_wide(n: u32) -> (r: i128)
    requires
        n <= 28,
    ensures
        r == pow10(n as nat),
        r >= 1,
{
    let mut r: i128 = 1;
    let mut i: u32 = 0;
    while i < n
        invariant
            i <= n,
            n <= 28,
            r == pow10(i as nat),
            1 <= r <= pow10(i as nat),
            pow10(i as nat) <= 10_000_000_000_000_000_000_000_000_000,
        decreases n - i,
    {
        proof {
            reveal_with_fuel(pow10, 29);
        }
        r = r * 10;
        i = i + 1;
    }
    r
}

/// `mantissa / 10^scale` as a `Dec`, cut toward zero at eight decimals; `None`
/// when it lies beyond a `Dec`.
pub fn dec_from_parts(mantissa: i128, scale: u32) -> (r: Option<Dec>)
    requires
        scale <= 28,
        -MANTISSA_MAX <= mantissa <= MANTISSA_MAX,
    ensures
        r matches Some(d) ==> d.units == parts_units(mantissa as int, scale as int),
        r is None <==> !(-(DEC_MAX as int) <= parts_units(mantissa as int, scale as int) <= DEC_MAX),
{
    let units: i128 = if scale <= 8 {
        let p = pow10_wide(8 - scale);
        proof {
            reveal_with_fuel(pow10, 9);
            assert(p <= 100_000_000);
            assert(-MANTISSA_MAX * 100_000_000 <= mantissa * p <= MANTISSA_MAX * 100_000_000)
                by (nonlinear_arith)
                requires -MANTISSA_MAX <= mantissa <= MANTISSA_MAX, 1 <= p <= 100_000_000;
        }
        mantissa * p
    } else {
        let p = pow10_wide(scale - 8);
        if mantissa >= 0 {
            mantissa / p
        } else {
            -((-mantissa) / p)
        }
    };
    if units > DEC_MAX as i128 || units < -(DEC_MAX as i128) {
        None
    } else {
        Some(Dec { units: units as i64 })
    }
}

/// The `Dec` a decimal text denotes, cut to eight decimals; zero for a text
/// that is no decimal or lies beyond a `Dec`.
pub fn parse_decimal(s: &str) -> (r: Dec)
    ensures
        r.units == parsed_units(s@),
{
    match decimal_parts(s) {
        Some((m, sc)) => match dec_from_parts(m, sc) {
            Some(d) => d,
            None => Dec::zero(),
        },
        None => Dec::zero(),
    }
}

/// State of the connection to the exchange.
#[derive(Clone, Debug)]
pub enum DataSourceStatus {
    Connected,
    Disconnected,
    Error(String),
}

/// Connected when both HTTP and the stream answer, an error naming the
/// stream when only HTTP does, disconnected when HTTP does not.
pub fn status_from(http_ok: bool, ws_ok: bool) -> (r: DataSourceStatus)
    ensures
        http_ok && ws_ok ==> r is Connected,
        http_ok && !ws_ok ==> (r matches DataSourceStatus::Error(m) && m@ == "WebSocket disconnected, HTTP only"@),
        !http_ok ==> r is Disconnected,
{
    if http_ok && ws_ok {
        DataSourceStatus::Connected
    } else if http_ok {
        DataSourceStatus::Error("WebSocket disconnected, HTTP only".to_owned())
    } else {
        DataSourceStatus::Disconnected
    }
}

/// Unrealized P&L of each position.
pub open spec fn pnl_values(u: UserState) -> Seq<int> {
    u.positions@.map_values(|p: crate::model::Position| p.unrealized_pnl.units as int)
}

/// APR used when the account shows no gain: 5.76.
pub const FALLBACK_APR_UNITS: i64 = 576_000_000;

/// Drawdown `|pnl / equity|` for a loss on nonzero equity, else 0.
pub open spec fn drawdown_units(pnl: int, equity: int) -> int {
    if pnl < 0 && equity != 0 {
        abs(crate::streaming::div_units_wide(pnl, equity))
    } else {
        0
    }
}

/// APR `pnl / equity * 365 * 100` (the product saturating) for a gain on positive equity, else 5.76.
pub open spec fn apr_units(pnl: int, equity: int) -> int {
    if equity > 0 && pnl > 0 {
        ratio_units(sat(pnl * 36_500), equity)
    } else {
        FALLBACK_APR_UNITS as int
    }
}

/// A vault summary derived from an account: tvl and equity are the account
/// value, the portfolio value is the raw USD balance, the deployed liquidity is
/// the margin in use and the idle liquidity the rest of the raw balance; the
/// all-time P&L sums the positions' unrealized P&L and gives the drawdown and
/// the APR.
pub fn vault_summary_from_user_state(user_address: &String, user_state: &UserState) -> (r: VaultSummary)
    ensures
        r.vault_address@ == user_address@,
        r.tvl == user_state.account_value,
        r.equity == user_state.account_value,
        r.portfolio_value == user_state.total_raw_usd,
        r.deployed_liquidity == user_state.total_margin_used,
        r.idle_liquidity == user_state.total_raw_usd.units - user_state.total_margin_used.units,
        r.all_time_pnl == sum(pnl_values(*user_state)),
        r.max_drawdown.units == drawdown_units(r.all_time_pnl as int, user_state.account_value.units as int),
        r.apr.units == apr_units(r.all_time_pnl as int, user_state.account_value.units as int),
        r.num_depositors == 1,
{
    let ghost vals = pnl_values(*user_state);
    let mut pnl: i128 = 0;
    let mut i: usize = 0;
    while i < user_state.positions.len()
        invariant
            i <= user_state.positions@.len(),
            vals == pnl_values(*user_state),
            pnl == sum(vals.subrange(0, i as int)),
            -(i * 9223372036854775808) <= pnl <= i * 9223372036854775807,
        decreases user_state.positions@.len() - i,
    {
        assert(vals.subrange(0, i + 1).drop_last() == vals.subrange(0, i as int));
        pnl = pnl + user_state.positions[i].unrealized_pnl.units as i128;
        i = i + 1;
    }
    assert(vals.subrange(0, i as int) == vals);
    let equity = user_state.account_value.units;
    let max_drawdown = if pnl < 0 && equity != 0 {
        let d = crate::streaming::div_wide(pnl, equity as i128);
        Dec { units: if d.units < 0 { -d.units } else { d.units } }
    } else {
        Dec::zero()
    };
    let apr = if equity > 0 && pnl > 0 {
        let scaled = match pnl.checked_mul(36_500) {
            Some(v) => v,
            None => WIDE_MAX,
        };
        ratio(scaled, equity as i128)
    } else {
        Dec { units: FALLBACK_APR_UNITS }
    };
    VaultSummary {
        vault_address: user_address.clone(),
        tvl: user_state.account_value,
        equity: user_state.account_value,
        apr,
        all_time_pnl: pnl,
        max_drawdown,
        num_depositors: 1,
        portfolio_value: user_state.total_raw_usd,
        deployed_liquidity: user_state.total_margin_used,
        idle_liquidity: user_state.total_raw_usd.units as i128 - user_state.total_margin_used.units as i128,
    }
}

/// Names of the assets watched when the account holds no position.
pub open spec fn default_assets() -> Seq<Seq<char>> {
    seq![
        "BTC"@,
        "ETH"@,
        "SOL"@,
        "DOGE"@,
        "AVAX"@,
        "ARB"@,
        "MATIC"@,
        "OP"@,
        "LINK"@,
        "ATOM"@,
        "DOT"@,
        "UNI"@,
        "CRV"@,
        "AAVE"@,
        "SNX"@,
        "MKR"@,
        "COMP"@,
        "YFI"@,
        "SUSHI"@,
        "1INCH"@,
        "ENS"@,
        "GMX"@,
        "BLUR"@,
        "LDO"@,
        "RPL"@,
        "RNDR"@,
        "IMX"@,
        "SAND"@,
        "MANA"@,
        "AXS"@,
        "APE"@,
        "GALA"@,
        "FTM"@,
        "NEAR"@,
        "FIL"@,
        "APT"@,
        "SUI"@,
        "SEI"@,
        "INJ"@,
        "TIA"@,
        "PYTH"@,
        "JUP"@,
        "WIF"@,
        "BONK"@,
        "PEPE"@,
        "SHIB"@,
        "FLOKI"@,
        "MEME"@,
        "ORDI"@,
        "STX"@,
    ]
}

pub open spec fn names_of(v: Seq<String>) -> Seq<Seq<char>> {
    v.map_values(|s: String| s@)
}

/// The assets watched when the account holds no position.
pub fn get_default_monitored_assets() -> (r: Vec<String>)
    ensures
        names_of(r@) == default_assets(),
{
    let r = vec![
        "BTC".to_owned(),
        "ETH".to_owned(),
        "SOL".to_owned(),
        "DOGE".to_owned(),
        "AVAX".to_owned(),
        "ARB".to_owned(),
        "MATIC".to_owned(),
        "OP".to_owned(),
        "LINK".to_owned(),
        "ATOM".to_owned(),
        "DOT".to_owned(),
        "UNI".to_owned(),
        "CRV".to_owned(),
        "AAVE".to_owned(),
        "SNX".to_owned(),
        "MKR".to_owned(),
        "COMP".to_owned(),
        "YFI".to_owned(),
        "SUSHI".to_owned(),
        "1INCH".to_owned(),
        "ENS".to_owned(),
        "GMX".to_owned(),
        "BLUR".to_owned(),
        "LDO".to_owned(),
        "RPL".to_owned(),
        "RNDR".to_owned(),
        "IMX".to_owned(),
        "SAND".to_owned(),
        "MANA".to_owned(),
        "AXS".to_owned(),
        "APE".to_owned(),
        "GALA".to_owned(),
        "FTM".to_owned(),
        "NEAR".to_owned(),
        "FIL".to_owned(),
        "APT".to_owned(),
        "SUI".to_owned(),
        "SEI".to_owned(),
        "INJ".to_owned(),
        "TIA".to_owned(),
        "PYTH".to_owned(),
        "JUP".to_owned(),
        "WIF".to_owned(),
        "BONK".to_owned(),
        "PEPE".to_owned(),
        "SHIB".to_owned(),
        "FLOKI".to_owned(),
        "MEME".to_owned(),
        "ORDI".to_owned(),
        "STX".to_owned(),
    ];
    assert(names_of(r@) =~= default_assets());
    r
}

/// A well-known major coin, or one with a leverage ceiling of at least 10.
pub open spec fn is_watch_candidate(a: crate::model::AssetInfo) -> bool {
    a.name@ == "BTC"@ || a.name@ == "ETH"@ || a.name@ == "SOL"@ || a.name@ == "DOGE"@ || a.name@
        == "AVAX"@ || a.max_leverage >= 10
}

/// The first ten candidates of the universe, in its order.
pub open spec fn selected_assets(u: Seq<crate::model::AssetInfo>) -> Seq<Seq<char>>
    decreases u.len(),
{
    if u.len() == 0 {
        Seq::empty()
    } else {
        let p = selected_assets(u.drop_last());
        if p.len() < 10 && is_watch_candidate(u.last()) {
            p.push(u.last().name@)
        } else {
            p
        }
    }
}

proof fn lemma_selected_len(u: Seq<crate::model::AssetInfo>)
    ensures
        selected_assets(u).len() <= 10,
    decreases u.len(),
{
    if u.len() > 0 {
        lemma_selected_len(u.drop_last());
    }
}

/// The assets to watch for a universe: the first ten that are BTC, ETH, SOL,
/// DOGE or AVAX or have a leverage ceiling of at least 10.
pub fn select_monitored_assets(meta: &Meta) -> (r: Vec<String>)
    ensures
        names_of(r@) == selected_assets(meta.universe@),
        r@.len() <= 10,
{
    let btc = "BTC".to_owned();
    let eth = "ETH".to_owned();
    let sol = "SOL".to_owned();
    let doge = "DOGE".to_owned();
    let avax = "AVAX".to_owned();
    let mut out: Vec<String> = Vec::new();
    let mut i: usize = 0;
    assert(names_of(out@) =~= Seq::<Seq<char>>::empty());
    while i < meta.universe.len()
        invariant
            i <= meta.universe@.len(),
            btc@ == "BTC"@,
            eth@ == "ETH"@,
            sol@ == "SOL"@,
            doge@ == "DOGE"@,
            avax@ == "AVAX"@,
            names_of(out@) == selected_assets(meta.universe@.subrange(0, i as int)),
        decreases meta.universe@.len() - i,
    {
        assert(meta.universe@.subrange(0, i + 1).drop_last() == meta.universe@.subrange(0, i as int));
        proof {
            lemma_selected_len(meta.universe@.subrange(0, i as int));
        }
        let a = &meta.universe[i];
        let candidate = a.name == btc || a.name == eth || a.name == sol || a.name == doge || a.name == avax
            || a.max_leverage >= 10;
        if out.len() < 10 && candidate {
            let ghost before = out@;
            out.push(a.name.clone());
            assert(names_of(out@) =~= names_of(before).push(a.name@));
        }
        i = i + 1;
    }
    assert(meta.universe@.subrange(0, i as int) == meta.universe@);
    proof {
        lemma_selected_len(meta.universe@);
    }
    out
}

} // verus!
