//! Configuration sections without floating-point fields, their defaults, and
//! the exchange registry that the configured exchanges make.
use vstd::prelude::*;

use crate::text::str_eq;
use crate::types::Exchange;

verus! {

/// Logging and data locations.
#[derive(Debug)]
pub struct GeneralConfig {
    pub log_level: String,
    pub log_format: String,
    pub log_file: String,
    pub data_dir: String,
}

/// One exchange's section: whether it is enabled, the endpoints that
/// override the defaults, and its rate limits.
#[derive(Debug)]
pub struct ExchangeConfig {
    pub enabled: bool,
    pub spot_rest: Option<String>,
    pub futures_rest: Option<String>,
    pub rest: Option<String>,
    pub spot_ws: Option<String>,
    pub futures_ws: Option<String>,
    pub ws_public: Option<String>,
    pub ws_public_linear: Option<String>,
    pub ws_public_spot: Option<String>,
    pub ws: Option<String>,
    pub rate_limit_per_second: Option<u32>,
    pub rate_limit_weight_per_minute: Option<u32>,
}

/// Terminal display settings.
#[derive(Debug)]
pub struct TuiConfig {
    pub refresh_rate_ms: u64,
    pub max_candles_displayed: usize,
    pub max_trades_displayed: usize,
    pub orderbook_depth: usize,
}

/// Which copy-trading sources are scraped, and how often.
#[derive(Debug)]
pub struct ScraperConfig {
    pub okx_enabled: bool,
    pub bybit_enabled: bool,
    pub binance_enabled: bool,
    pub scrape_interval_secs: u64,
}

impl GeneralConfig {
    /// The default: `info` level, JSON format, `./logs/cte.log` and `./data`.
    pub fn default_config() -> (r: GeneralConfig)
        ensures
            r.log_level@ == "info"@,
            r.log_format@ == "json"@,
            r.log_file@ == "./logs/cte.log"@,
            r.data_dir@ == "./data"@,
    {
        GeneralConfig {
            log_level: String::from_str("info"),
            log_format: String::from_str("json"),
            log_file: String::from_str("./logs/cte.log"),
            data_dir: String::from_str("./data"),
        }
    }
}

impl TuiConfig {
    /// The default: 16 ms refresh, 200 candles, 100 trades, 20 book levels.
    pub fn default_config() -> (r: TuiConfig)
        ensures
            r.refresh_rate_ms == 16,
            r.max_candles_displayed == 200,
            r.max_trades_displayed == 100,
            r.orderbook_depth == 20,
    {
        TuiConfig {
            refresh_rate_ms: 16,
            max_candles_displayed: 200,
            max_trades_displayed: 100,
            orderbook_depth: 20,
        }
    }
}

impl ScraperConfig {
    /// The default: OKX and Bybit scraped, Binance not, every 300 seconds.
    pub fn default_config() -> (r: ScraperConfig)
        ensures
            r.okx_enabled,
            r.bybit_enabled,
            !r.binance_enabled,
            r.scrape_interval_secs == 300,
    {
        ScraperConfig {
            okx_enabled: true,
            bybit_enabled: true,
            binance_enabled: false,
            scrape_interval_secs: 300,
        }
    }
}

/// The endpoints an exchange connector is made with.
#[derive(Debug)]
pub enum ExchangeEndpoints {
    Binance { spot_rest: String, futures_rest: String, spot_ws: String, futures_ws: String },
    Okx { rest: String, ws_public: String },
    Bybit { rest: String, ws_public_linear: String, ws_public_spot: String },
    GateIo { rest: String, ws: String },
    Bitget { rest: String, ws_public: String },
}

/// A configured endpoint, or the default where none is configured.
pub open spec fn endpoint_or(configured: Option<String>, default: Seq<char>) -> Seq<char> {
    match configured {
        Some(s) => s@,
        None => default,
    }
}

/// The exchange a configuration section's name stands for.
pub open spec fn section_exchange(name: Seq<char>) -> Option<Exchange> {
    if name == "binance"@ {
        Some(Exchange::Binance)
    } else if name == "okx"@ {
        Some(Exchange::Okx)
    } else if name == "bybit"@ {
        Some(Exchange::Bybit)
    } else if name == "gateio"@ {
        Some(Exchange::GateIo)
    } else if name == "bitget"@ {
        Some(Exchange::Bitget)
    } else {
        None
    }
}

/// The endpoints of exchange `e` from its section, each the configured one or
/// the exchange's public default.
pub open spec fn endpoints_of(e: Exchange, c: ExchangeConfig, ep: ExchangeEndpoints) -> bool {
    match e {
        Exchange::Binance => ep matches ExchangeEndpoints::Binance {
            spot_rest,
            futures_rest,
            spot_ws,
            futures_ws,
        } && spot_rest@ == endpoint_or(c.spot_rest, "https://api.binance.com"@) && futures_rest@
            == endpoint_or(c.futures_rest, "https://fapi.binance.com"@) && spot_ws@ == endpoint_or(
            c.spot_ws,
            "wss://stream.binance.com:9443/ws"@,
        ) && futures_ws@ == endpoint_or(c.futures_ws, "wss://fstream.binance.com/ws"@),
        Exchange::Okx => ep matches ExchangeEndpoints::Okx { rest, ws_public } && rest@
            == endpoint_or(c.rest, "https://www.okx.com"@) && ws_public@ == endpoint_or(
            c.ws_public,
            "wss://ws.okx.com:8443/ws/v5/public"@,
        ),
        Exchange::Bybit => ep matches ExchangeEndpoints::Bybit {
            rest,
            ws_public_linear,
            ws_public_spot,
        } && rest@ == endpoint_or(c.rest, "https://api.bybit.com"@) && ws_public_linear@
            == endpoint_or(c.ws_public_linear, "wss://stream.bybit.com/v5/public/linear"@)
            && ws_public_spot@ == endpoint_or(
            c.ws_public_spot,
            "wss://stream.bybit.com/v5/public/spot"@,
        ),
        Exchange::GateIo => ep matches ExchangeEndpoints::GateIo { rest, ws } && rest@
            == endpoint_or(c.rest, "https://api.gateio.ws/api/v4"@) && ws@ == endpoint_or(
            c.ws,
            "wss://api.gateio.ws/ws/v4/"@,
        ),
        Exchange::Bitget => ep matches ExchangeEndpoints::Bitget { rest, ws_public } && rest@
            == endpoint_or(c.rest, "https://api.bitget.com"@) && ws_public@ == endpoint_or(
            c.ws_public,
            "wss://ws.bitget.com/v2/ws/public"@,
        ),
    }
}

fn endpoint(configured: &Option<String>, default: &str) -> (r: String)
    ensures
        r@ == endpoint_or(*configured, default@),
{
    match configured {
        Some(s) => s.clone(),
        None => String::from_str(default),
    }
}

/// The exchange and endpoints of an enabled section with a known name; `None`
/// for a disabled section or an unknown name.
pub fn endpoints_for(name: &str, config: &ExchangeConfig) -> (r: Option<(Exchange, ExchangeEndpoints)>)
    ensures
        !config.enabled ==> r is None,
        config.enabled ==> match section_exchange(name@) {
            Some(e) => r matches Some((x, ep)) && x == e && endpoints_of(e, *config, ep),
            None => r is None,
        },
{
    if !config.enabled {
        return None;
    }
    if str_eq(name, "binance") {
        Some(
            (
                Exchange::Binance,
                ExchangeEndpoints::Binance {
                    spot_rest: endpoint(&config.spot_rest, "https://api.binance.com"),
                    futures_rest: endpoint(&config.futures_rest, "https://fapi.binance.com"),
                    spot_ws: endpoint(&config.spot_ws, "wss://stream.binance.com:9443/ws"),
                    futures_ws: endpoint(&config.futures_ws, "wss://fstream.binance.com/ws"),
                },
            ),
        )
    } else if str_eq(name, "okx") {
        Some(
            (
                Exchange::Okx,
                ExchangeEndpoints::Okx {
                    rest: endpoint(&config.rest, "https://www.okx.com"),
                    ws_public: endpoint(&config.ws_public, "wss://ws.okx.com:8443/ws/v5/public"),
                },
            ),
        )
    } else if str_eq(name, "bybit") {
        Some(
            (
                Exchange::Bybit,
                ExchangeEndpoints::Bybit {
                    rest: endpoint(&config.rest, "https://api.bybit.com"),
                    ws_public_linear: endpoint(
                        &config.ws_public_linear,
                        "wss://stream.bybit.com/v5/public/linear",
                    ),
                    ws_public_spot: endpoint(
                        &config.ws_public_spot,
                        "wss://stream.bybit.com/v5/public/spot",
                    ),
                },
            ),
        )
    } else if str_eq(name, "gateio") {
        Some(
            (
                Exchange::GateIo,
                ExchangeEndpoints::GateIo {
                    rest: endpoint(&config.rest, "https://api.gateio.ws/api/v4"),
                    ws: endpoint(&config.ws, "wss://api.gateio.ws/ws/v4/"),
                },
            ),
        )
    } else if str_eq(name, "bitget") {
        Some(
            (
                Exchange::Bitget,
                ExchangeEndpoints::Bitget {
                    rest: endpoint(&config.rest, "https://api.bitget.com"),
                    ws_public: endpoint(&config.ws_public, "wss://ws.bitget.com/v2/ws/public"),
                },
            ),
        )
    } else {
        None
    }
}

/// The connectors of the engine, at most one per exchange.
#[derive(Debug)]
pub struct ExchangeRegistry<C> {
    binance: Option<C>,
    okx: Option<C>,
    bybit: Option<C>,
    gateio: Option<C>,
    bitget: Option<C>,
}

/// Every exchange, in the order the registry lists them.
pub open spec fn exchange_order() -> Seq<Exchange> {
    seq![Exchange::Binance, Exchange::Okx, Exchange::Bybit, Exchange::GateIo, Exchange::Bitget]
}

impl<C> ExchangeRegistry<C> {
    /// The connector registered for an exchange, if any.
    pub closed spec fn slot(&self, e: Exchange) -> Option<C> {
        match e {
            Exchange::Binance => self.binance,
            Exchange::Okx => self.okx,
            Exchange::Bybit => self.bybit,
            Exchange::GateIo => self.gateio,
            Exchange::Bitget => self.bitget,
        }
    }

    /// An empty registry.
    pub fn new() -> (r: ExchangeRegistry<C>)
        ensures
            forall|e: Exchange| #[trigger] r.slot(e) is None,
    {
        ExchangeRegistry { binance: None, okx: None, bybit: None, gateio: None, bitget: None }
    }

    /// Registers the connector of an exchange, replacing any earlier one; the
    /// other exchanges keep theirs.
    pub fn register(&mut self, exchange: Exchange, connector: C)
        ensures
            final(self).slot(exchange) == Some(connector),
            forall|e: Exchange| e != exchange ==> #[trigger] final(self).slot(e) == old(self).slot(e),
    {
        match exchange {
            Exchange::Binance => self.binance = Some(connector),
            Exchange::Okx => self.okx = Some(connector),
            Exchange::Bybit => self.bybit = Some(connector),
            Exchange::GateIo => self.gateio = Some(connector),
            Exchange::Bitget => self.bitget = Some(connector),
        }
    }

    /// The connector of an exchange, if one is registered.
    pub fn get(&self, exchange: Exchange) -> (r: Option<&C>)
        ensures
            match self.slot(exchange) {
                Some(c) => r matches Some(x) && *x == c,
                None => r is None,
            },
    {
        match exchange {
            Exchange::Binance => self.binance.as_ref(),
            Exchange::Okx => self.okx.as_ref(),
            Exchange::Bybit => self.bybit.as_ref(),
            Exchange::GateIo => self.gateio.as_ref(),
            Exchange::Bitget => self.bitget.as_ref(),
        }
    }

    /// The exchanges that have a connector, in the registry's order.
    pub fn exchanges(&self) -> (r: Vec<Exchange>)
        ensures
            r@ == exchange_order().filter(|e: Exchange| self.slot(e) is Some),
    {
        let mut out: Vec<Exchange> = Vec::new();
        if self.binance.is_some() {
            out.push(Exchange::Binance);
        }
        if self.okx.is_some() {
            out.push(Exchange::Okx);
        }
        if self.bybit.is_some() {
            out.push(Exchange::Bybit);
        }
        if self.gateio.is_some() {
            out.push(Exchange::GateIo);
        }
        if self.bitget.is_some() {
            out.push(Exchange::Bitget);
        }
        proof {
            let p = |e: Exchange| self.slot(e) is Some;
            reveal_with_fuel(Seq::filter, 6);
            let s = exchange_order();
            assert(s.drop_last() =~= seq![Exchange::Binance, Exchange::Okx, Exchange::Bybit, Exchange::GateIo]);
            assert(s.drop_last().drop_last() =~= seq![Exchange::Binance, Exchange::Okx, Exchange::Bybit]);
            assert(s.drop_last().drop_last().drop_last() =~= seq![Exchange::Binance, Exchange::Okx]);
            assert(s.drop_last().drop_last().drop_last().drop_last() =~= seq![Exchange::Binance]);
            assert(seq![Exchange::Binance].drop_last() =~= Seq::<Exchange>::empty());
            assert(out@ =~= s.filter(p));
        }
        out
    }
}

/// Index of the last section of `configs` that names exchange `e` and is
/// enabled, if any.
pub open spec fn last_section(configs: Seq<(String, ExchangeConfig)>, e: Exchange) -> Option<int>
    decreases configs.len(),
{
    if configs.len() == 0 {
        None
    } else {
        let k = configs.len() - 1;
        if configs[k].1.enabled && section_exchange(configs[k].0@) == Some(e) {
            Some(k)
        } else {
            last_section(configs.drop_last(), e)
        }
    }
}

/// Builds the registry of endpoints from the configuration sections (name and
/// section), in order: every enabled section with a known name registers its
/// exchange, a later one replacing an earlier one; the others are skipped.
pub fn registry_from_config(configs: &Vec<(String, ExchangeConfig)>) -> (r: ExchangeRegistry<ExchangeEndpoints>)
    ensures
        forall|e: Exchange|
            match last_section(configs@, e) {
                Some(k) => #[trigger] r.slot(e) matches Some(ep) && endpoints_of(e, configs@[k].1, ep),
                None => r.slot(e) is None,
            },
{
    let mut reg: ExchangeRegistry<ExchangeEndpoints> = ExchangeRegistry::new();
    let mut i: usize = 0;
    while i < configs.len()
        invariant
            i <= configs.len(),
            forall|e: Exchange|
                match last_section(configs@.subrange(0, i as int), e) {
                    Some(k) => #[trigger] reg.slot(e) matches Some(ep) && endpoints_of(
                        e,
                        configs@[k].1,
                        ep,
                    ),
                    None => reg.slot(e) is None,
                },
        decreases configs.len() - i,
    {
        let (name, config) = &configs[i];
        proof {
            let pre = configs@.subrange(0, i as int);
            let next = configs@.subrange(0, i + 1);
            assert(next.drop_last() =~= pre);
            assert(next[i as int] == configs@[i as int]);
        }
        match endpoints_for(name.as_str(), config) {
            Some((e, ep)) => {
                reg.register(e, ep);
            },
            None => {},
        }
        i = i + 1;
    }
    assert(configs@.subrange(0, configs.len() as int) =~= configs@);
    reg
}

} // verus!
