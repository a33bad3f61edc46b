//! The copy-trading scrapers: the requests they send, the payloads they read,
//! and how leaders and their positions are made of them.
use vstd::prelude::*;

use crate::decimal::{decimal_mul, decimal_or_zero, Decimal};
use crate::error::CteError;
use crate::rest::{HttpOutcome, Received};
use crate::text::{
    concat, decimal_text, i64_to_string, parse_u64, parse_u64_spec, signed_decimal_text, str_eq,
    u64_to_string,
};
use crate::time::{chrono_millis_in_range, now_millis};
use crate::types::{Exchange, LeadTrader, Side, TraderPosition};

verus! {

/// A Bybit leader-board answer: the return code and the leaders listed.
#[derive(Debug)]
pub struct BybitLeaderboard {
    pub ret_code: i32,
    pub list: Vec<BybitLeadTrader>,
}

/// One Bybit leader; missing fields are empty or zero.
#[derive(Debug)]
pub struct BybitLeadTrader {
    pub leader_user_id: String,
    pub nick_name: String,
    pub pnl: String,
    pub roi: String,
    pub win_rate: String,
    pub follower_count: u64,
    pub total_count: u64,
}

/// An OKX lead-trader answer: the code and the pages of ranks.
#[derive(Debug)]
pub struct OkxLeadTradersResponse {
    pub code: String,
    pub data: Vec<OkxLeadTradersData>,
}

/// One page of OKX ranks.
#[derive(Debug)]
pub struct OkxLeadTradersData {
    pub ranks: Vec<OkxRankEntry>,
}

/// One ranked OKX lead trader; missing fields are empty.
#[derive(Debug)]
pub struct OkxRankEntry {
    pub nick_name: String,
    pub pnl: String,
    pub pnl_ratio: String,
    pub copy_trader_num: String,
    pub acc_copy_trader_num: String,
    pub lead_days: String,
    pub aum: String,
}

/// An OKX answer listing a lead trader's positions.
#[derive(Debug)]
pub struct OkxPositionsResponse {
    pub code: String,
    pub data: Vec<OkxPosition>,
}

/// One position of an OKX lead trader; missing fields are empty.
#[derive(Debug)]
pub struct OkxPosition {
    pub inst_id: String,
    pub pos_side: String,
    pub avg_px: String,
    pub mark_px: String,
    pub upl_ratio: String,
    pub notional_usd: String,
}

/// A Binance leaderboard answer.  The feed sends the return and the profit as
/// floating-point numbers; `roi_text` and `pnl_text` hold them already printed
/// with two decimals, the return in percent (`format!("{:.2}", roi * 100.0)`
/// and `format!("{:.2}", pnl)`).
#[derive(Debug)]
pub struct BinanceLeaderboardResponse {
    pub data: Option<Vec<BinanceLeader>>,
}

/// One Binance leader.
#[derive(Debug)]
pub struct BinanceLeader {
    pub encrypted_uid: String,
    pub nick_name: String,
    pub roi_text: String,
    pub pnl_text: String,
    pub follower_count: u64,
}

/// `r` is a scraper error from `origin` with the given message.
pub open spec fn is_scraper_error<T>(r: Result<T, CteError>, origin: Seq<char>, message: Seq<char>) -> bool {
    r matches Err(CteError::Scraper { origin: o, message: m }) && o@ == origin && m@ == message
}

fn scraper_error(origin: &str, message: String) -> (e: CteError)
    ensures
        is_scraper_error(Err::<(), CteError>(e), origin@, message@),
{
    CteError::Scraper { origin: String::from_str(origin), message }
}

/// The number a text denotes, zero where it is not an unsigned integer
/// (`s.parse::<u64>().unwrap_or(0)`).
pub open spec fn u64_or_zero(s: Seq<char>) -> int {
    match parse_u64_spec(s) {
        Some(v) => v,
        None => 0,
    }
}

/// The leader a Bybit entry gives.
pub open spec fn bybit_leader(t: BybitLeadTrader, l: LeadTrader) -> bool {
    &&& l.id == t.leader_user_id
    &&& l.nickname == t.nick_name
    &&& l.exchange == Exchange::Bybit
    &&& l.roi_percent@ == decimal_or_zero(t.roi@)
    &&& l.pnl_usd@ == decimal_or_zero(t.pnl@)
    &&& l.win_rate@ == decimal_or_zero(t.win_rate@)
    &&& l.followers == t.follower_count
    &&& l.total_trades == t.total_count
    &&& l.current_positions@.len() == 0
}

/// The leader an OKX rank entry gives: the nickname is also the id, the
/// return is the profit ratio, the win rate is zero, the followers are the
/// accumulated copy traders and the trade count is the number of lead days.
pub open spec fn okx_leader(t: OkxRankEntry, l: LeadTrader) -> bool {
    &&& l.id == t.nick_name
    &&& l.nickname == t.nick_name
    &&& l.exchange == Exchange::Okx
    &&& l.roi_percent@ == decimal_or_zero(t.pnl_ratio@)
    &&& l.pnl_usd@ == decimal_or_zero(t.pnl@)
    &&& l.win_rate@ == (0int, 0nat)
    &&& l.followers as int == u64_or_zero(t.acc_copy_trader_num@)
    &&& l.total_trades as int == u64_or_zero(t.lead_days@)
    &&& l.current_positions@.len() == 0
}

/// The leader a Binance entry gives.
pub open spec fn binance_leader(t: BinanceLeader, l: LeadTrader) -> bool {
    &&& l.id == t.encrypted_uid
    &&& l.nickname == t.nick_name
    &&& l.exchange == Exchange::Binance
    &&& l.roi_percent@ == decimal_or_zero(t.roi_text@)
    &&& l.pnl_usd@ == decimal_or_zero(t.pnl_text@)
    &&& l.win_rate@ == (0int, 0nat)
    &&& l.followers == t.follower_count
    &&& l.total_trades == 0
    &&& l.current_positions@.len() == 0
}

/// All leaders were stamped with one time, which chrono accepts.
pub open spec fn stamped_together(ls: Seq<LeadTrader>) -> bool {
    &&& forall|k: int| 0 <= k < ls.len() ==> chrono_millis_in_range((#[trigger] ls[k]).fetched_at as int)
    &&& forall|j: int, k: int|
        0 <= j < ls.len() && 0 <= k < ls.len() ==> (#[trigger] ls[j]).fetched_at == (#[trigger] ls[k]).fetched_at
}

/// The error of a scrape whose request failed: the transport's message, the
/// status and body (`HTTP status: body`), or the decoder's message.
pub open spec fn fetch_error<T, U>(r: Result<U, CteError>, origin: Seq<char>, o: HttpOutcome<T>, failed: spec_fn(u16, Seq<char>) -> Seq<char>) -> bool {
    match o {
        HttpOutcome::Unsent(m) => is_scraper_error(r, origin, m@),
        HttpOutcome::Failed(s, b) => is_scraper_error(r, origin, failed(s, b@)),
        HttpOutcome::Undecodable(m) => is_scraper_error(r, origin, "Parse error: "@ + m@),
        HttpOutcome::Decoded(_) => false,
    }
}

fn scrape_decoded<T>(origin: &str, outcome: HttpOutcome<T>, with_status: bool) -> (r: Result<T, CteError>)
    ensures
        outcome matches HttpOutcome::Decoded(t) ==> r == Ok::<T, CteError>(t),
        !(outcome is Decoded) ==> fetch_error(
            r,
            origin@,
            outcome,
            |s: u16, b: Seq<char>| if with_status {
                "HTTP "@ + decimal_text(s as nat) + ": "@ + b
            } else {
                "HTTP error: "@ + b
            },
        ),
{
    match outcome {
        HttpOutcome::Unsent(m) => Err(scraper_error(origin, m)),
        HttpOutcome::Failed(s, b) => {
            let message = if with_status {
                let mut t = concat("HTTP ", u64_to_string(s as u64).as_str());
                t.append(": ");
                t.append(b.as_str());
                t
            } else {
                concat("HTTP error: ", b.as_str())
            };
            Err(scraper_error(origin, message))
        },
        HttpOutcome::Undecodable(m) => Err(scraper_error(origin, concat("Parse error: ", m.as_str()))),
        HttpOutcome::Decoded(t) => Ok(t),
    }
}

/// The Bybit copy-trading leader board.
#[derive(Debug)]
pub struct BybitCopyTradingScraper {
    pub base_url: String,
}

impl BybitCopyTradingScraper {
    /// A scraper of the base URL.
    pub fn new(base_url: &str) -> (r: BybitCopyTradingScraper)
        ensures
            r.base_url@ == base_url@,
    {
        BybitCopyTradingScraper { base_url: String::from_str(base_url) }
    }

    /// The URL of the leader board, asking for `limit` leaders.
    pub fn leaders_url(&self, limit: u64) -> (r: String)
        ensures
            r@ == self.base_url@ + "/v5/copy-trading/get-leader-board?limit="@ + decimal_text(
                limit as nat,
            ),
    {
        let mut url = concat(self.base_url.as_str(), "/v5/copy-trading/get-leader-board?limit=");
        url.append(u64_to_string(limit).as_str());
        url
    }

    /// The leaders of the answer, one per entry and in order, all stamped
    /// with the current time; a non-zero code is an error.
    pub fn leaders_result(outcome: HttpOutcome<BybitLeaderboard>) -> (r: Result<Vec<LeadTrader>, CteError>)
        ensures
            match outcome {
                HttpOutcome::Decoded(resp) => if resp.ret_code == 0 {
                    r matches Ok(ls) && ls@.len() == resp.list@.len() && stamped_together(ls@)
                        && forall|k: int|
                        0 <= k < ls@.len() ==> bybit_leader(resp.list@[k], #[trigger] ls@[k])
                } else {
                    is_scraper_error(
                        r,
                        "bybit_copy_trading"@,
                        "API error code: "@ + signed_decimal_text(resp.ret_code as int),
                    )
                },
                _ => fetch_error(
                    r,
                    "bybit_copy_trading"@,
                    outcome,
                    |s: u16, b: Seq<char>| "HTTP "@ + decimal_text(s as nat) + ": "@ + b,
                ),
            },
    {
        let resp = match scrape_decoded("bybit_copy_trading", outcome, true) {
            Ok(v) => v,
            Err(e) => {
                return Err(e);
            },
        };
        if resp.ret_code != 0 {
            return Err(
                scraper_error(
                    "bybit_copy_trading",
                    concat("API error code: ", i64_to_string(resp.ret_code as i64).as_str()),
                ),
            );
        }
        let now = now_millis();
        let list = &resp.list;
        let mut out: Vec<LeadTrader> = Vec::new();
        let mut i: usize = 0;
        while i < list.len()
            invariant
                i <= list.len(),
                out@.len() == i,
                chrono_millis_in_range(now as int),
                forall|k: int| 0 <= k < i ==> (#[trigger] out@[k]).fetched_at == now,
                forall|k: int| 0 <= k < i ==> bybit_leader(list@[k], #[trigger] out@[k]),
            decreases list.len() - i,
        {
            let t = &list[i];
            out.push(
                LeadTrader {
                    id: t.leader_user_id.clone(),
                    nickname: t.nick_name.clone(),
                    exchange: Exchange::Bybit,
                    roi_percent: Decimal::parse_or_zero(t.roi.as_str()),
                    pnl_usd: Decimal::parse_or_zero(t.pnl.as_str()),
                    win_rate: Decimal::parse_or_zero(t.win_rate.as_str()),
                    followers: t.follower_count,
                    total_trades: t.total_count,
                    current_positions: Vec::new(),
                    fetched_at: now,
                },
            );
            i = i + 1;
        }
        Ok(out)
    }
}

fn u64_or_zero_of(s: &str) -> (r: u64)
    ensures
        r as int == u64_or_zero(s@),
{
    match parse_u64(s) {
        Some(v) => v,
        None => 0,
    }
}

/// The OKX copy-trading lead traders and their positions.
#[derive(Debug)]
pub struct OkxCopyTradingScraper {
    pub base_url: String,
}

/// The ranks of the first page of an OKX answer, none where there is no page.
pub open spec fn first_ranks(data: Seq<OkxLeadTradersData>) -> Seq<OkxRankEntry> {
    if data.len() > 0 {
        data[0].ranks@
    } else {
        Seq::empty()
    }
}

/// The position an OKX entry gives: long where the side is `long`, short
/// otherwise, the return in percent from the ratio.
pub open spec fn okx_position(p: OkxPosition, t: TraderPosition) -> bool {
    &&& t.symbol == p.inst_id
    &&& t.side == (if p.pos_side@ == "long"@ {
        Side::Long
    } else {
        Side::Short
    })
    &&& t.entry_price@ == decimal_or_zero(p.avg_px@)
    &&& t.mark_price@ == decimal_or_zero(p.mark_px@)
    &&& t.size_usd@ == decimal_or_zero(p.notional_usd@)
    &&& decimal_mul(decimal_or_zero(p.upl_ratio@), (100, 0)) == Some(t.pnl_percent@)
}

/// The percentages of the positions can all be computed without overflow.
pub open spec fn percents_defined(ps: Seq<OkxPosition>) -> bool {
    forall|k: int| 0 <= k < ps.len() ==> decimal_mul(decimal_or_zero((#[trigger] ps[k]).upl_ratio@), (100, 0)) is Some
}

impl OkxCopyTradingScraper {
    /// A scraper of the base URL.
    pub fn new(base_url: &str) -> (r: OkxCopyTradingScraper)
        ensures
            r.base_url@ == base_url@,
    {
        OkxCopyTradingScraper { base_url: String::from_str(base_url) }
    }

    /// The URL of the lead traders of perpetual swaps sorted by profit,
    /// asking for `limit` of them.
    pub fn leaders_url(&self, limit: u64) -> (r: String)
        ensures
            r@ == self.base_url@
                + "/api/v5/copytrading/public-lead-traders?instType=SWAP&sortType=pnl&state=1&limit="@
                + decimal_text(limit as nat),
    {
        let mut url = concat(
            self.base_url.as_str(),
            "/api/v5/copytrading/public-lead-traders?instType=SWAP&sortType=pnl&state=1&limit=",
        );
        url.append(u64_to_string(limit).as_str());
        url
    }

    /// The first `limit` ranked traders of the first page of the answer, in
    /// order, all stamped with the current time; a code other than `0` is an
    /// error.
    pub fn leaders_result(limit: usize, outcome: HttpOutcome<OkxLeadTradersResponse>) -> (r: Result<Vec<LeadTrader>, CteError>)
        ensures
            match outcome {
                HttpOutcome::Decoded(resp) => if resp.code@ == "0"@ {
                    r matches Ok(ls) && ls@.len() == (if first_ranks(resp.data@).len() < limit {
                        first_ranks(resp.data@).len()
                    } else {
                        limit as nat
                    }) && stamped_together(ls@) && forall|k: int|
                        0 <= k < ls@.len() ==> okx_leader(first_ranks(resp.data@)[k], #[trigger] ls@[k])
                } else {
                    is_scraper_error(r, "okx_copy_trading"@, "API error code: "@ + resp.code@)
                },
                _ => fetch_error(
                    r,
                    "okx_copy_trading"@,
                    outcome,
                    |s: u16, b: Seq<char>| "HTTP error: "@ + b,
                ),
            },
    {
        let resp = match scrape_decoded("okx_copy_trading", outcome, false) {
            Ok(v) => v,
            Err(e) => {
                return Err(e);
            },
        };
        if !str_eq(resp.code.as_str(), "0") {
            return Err(
                scraper_error("okx_copy_trading", concat("API error code: ", resp.code.as_str())),
            );
        }
        let now = now_millis();
        let mut out: Vec<LeadTrader> = Vec::new();
        if resp.data.len() == 0 {
            return Ok(out);
        }
        let ranks = &resp.data[0].ranks;
        let n = if ranks.len() < limit {
            ranks.len()
        } else {
            limit
        };
        let mut i: usize = 0;
        while i < n
            invariant
                i <= n,
                n <= ranks.len(),
                out@.len() == i,
                chrono_millis_in_range(now as int),
                forall|k: int| 0 <= k < i ==> (#[trigger] out@[k]).fetched_at == now,
                forall|k: int| 0 <= k < i ==> okx_leader(ranks@[k], #[trigger] out@[k]),
            decreases n - i,
        {
            let t = &ranks[i];
            out.push(
                LeadTrader {
                    id: t.nick_name.clone(),
                    nickname: t.nick_name.clone(),
                    exchange: Exchange::Okx,
                    roi_percent: Decimal::parse_or_zero(t.pnl_ratio.as_str()),
                    pnl_usd: Decimal::parse_or_zero(t.pnl.as_str()),
                    win_rate: Decimal::zero(),
                    followers: u64_or_zero_of(t.acc_copy_trader_num.as_str()),
                    total_trades: u64_or_zero_of(t.lead_days.as_str()),
                    current_positions: Vec::new(),
                    fetched_at: now,
                },
            );
            i = i + 1;
        }
        Ok(out)
    }

    /// The URL of a lead trader's current positions.
    pub fn positions_url(&self, trader_id: &str) -> (r: String)
        ensures
            r@ == self.base_url@ + "/api/v5/copytrading/public-current-subpositions?uniqueCode="@
                + trader_id@,
    {
        let mut url = concat(
            self.base_url.as_str(),
            "/api/v5/copytrading/public-current-subpositions?uniqueCode=",
        );
        url.append(trader_id);
        url
    }

    /// The positions of the answer, one per entry and in order.  The status
    /// of the answer is not looked at.
    pub fn positions_result(outcome: Received<OkxPositionsResponse>) -> (r: Result<Vec<TraderPosition>, CteError>)
        requires
            outcome matches Received::Decoded(resp) ==> percents_defined(resp.data@),
        ensures
            match outcome {
                Received::Unsent(m) => is_scraper_error(r, "okx_copy_trading"@, m@),
                Received::Undecodable(m) => is_scraper_error(
                    r,
                    "okx_copy_trading"@,
                    "Parse error: "@ + m@,
                ),
                Received::Decoded(resp) => r matches Ok(ps) && ps@.len() == resp.data@.len()
                    && forall|k: int| 0 <= k < ps@.len() ==> okx_position(resp.data@[k], #[trigger] ps@[k]),
            },
    {
        let resp = match outcome {
            Received::Unsent(m) => {
                return Err(scraper_error("okx_copy_trading", m));
            },
            Received::Undecodable(m) => {
                return Err(scraper_error("okx_copy_trading", concat("Parse error: ", m.as_str())));
            },
            Received::Decoded(resp) => resp,
        };
        let list = &resp.data;
        let mut out: Vec<TraderPosition> = Vec::new();
        let mut i: usize = 0;
        while i < list.len()
            invariant
                i <= list.len(),
                percents_defined(list@),
                out@.len() == i,
                forall|k: int| 0 <= k < i ==> okx_position(list@[k], #[trigger] out@[k]),
            decreases list.len() - i,
        {
            let p = &list[i];
            let ratio = Decimal::parse_or_zero(p.upl_ratio.as_str());
            let percent = ratio.checked_mul(&Decimal::one_hundred()).unwrap();
            let side = if str_eq(p.pos_side.as_str(), "long") {
                Side::Long
            } else {
                Side::Short
            };
            out.push(
                TraderPosition {
                    symbol: p.inst_id.clone(),
                    side,
                    entry_price: Decimal::parse_or_zero(p.avg_px.as_str()),
                    mark_price: Decimal::parse_or_zero(p.mark_px.as_str()),
                    size_usd: Decimal::parse_or_zero(p.notional_usd.as_str()),
                    pnl_percent: percent,
                },
            );
            i = i + 1;
        }
        Ok(out)
    }

    /// The positions where every percentage can be computed, `None` where one
    /// would overflow.
    pub fn checked_positions_result(outcome: Received<OkxPositionsResponse>) -> (r: Option<Result<Vec<TraderPosition>, CteError>>)
        ensures
            r is None <==> (outcome is Decoded && !percents_defined(outcome->Decoded_0.data@)),
            r matches Some(inner) ==> match outcome {
                Received::Unsent(m) => is_scraper_error(inner, "okx_copy_trading"@, m@),
                Received::Undecodable(m) => is_scraper_error(
                    inner,
                    "okx_copy_trading"@,
                    "Parse error: "@ + m@,
                ),
                Received::Decoded(resp) => inner matches Ok(ps) && ps@.len() == resp.data@.len()
                    && forall|k: int| 0 <= k < ps@.len() ==> okx_position(resp.data@[k], #[trigger] ps@[k]),
            },
    {
        if let Received::Decoded(resp) = &outcome {
            let mut i: usize = 0;
            while i < resp.data.len()
                invariant
                    i <= resp.data.len(),
                    outcome is Decoded,
                    outcome->Decoded_0 == *resp,
                    forall|k: int|
                        0 <= k < i ==> decimal_mul(decimal_or_zero((#[trigger] resp.data@[k]).upl_ratio@), (100, 0)) is Some,
                decreases resp.data.len() - i,
            {
                let ratio = Decimal::parse_or_zero(resp.data[i].upl_ratio.as_str());
                if ratio.checked_mul(&Decimal::one_hundred()).is_none() {
                    assert(decimal_mul(decimal_or_zero(resp.data@[i as int].upl_ratio@), (100, 0)) is None);
                    assert(!percents_defined(resp.data@));
                    return None;
                }
                i = i + 1;
            }
        }
        Some(Self::positions_result(outcome))
    }
}

/// The Binance futures copy-trading leaderboard.
#[derive(Debug)]
pub struct BinanceLeaderboardScraper {}

impl BinanceLeaderboardScraper {
    /// A scraper of the public leaderboard.
    pub fn new() -> (r: BinanceLeaderboardScraper) {
        BinanceLeaderboardScraper {  }
    }

    /// The URL of the leaderboard ranking.
    pub fn leaders_url(&self) -> (r: &'static str)
        ensures
            r@ == "https://www.binance.com/bapi/futures/v1/public/future/copy-trade/lead-portfolio/rank"@,
    {
        "https://www.binance.com/bapi/futures/v1/public/future/copy-trade/lead-portfolio/rank"
    }

    /// The JSON body of the ranking request: the first page of `limit`
    /// leaders by return over thirty days, all leaders and not favourites only.
    pub fn leaders_body(&self, limit: u64) -> (r: String)
        ensures
            r@ == "{\"pageSize\":"@ + decimal_text(limit as nat)
                + ",\"pageNumber\":1,\"timeRange\":\"30D\",\"dataType\":\"ROI\",\"favoriteOnly\":false}"@,
    {
        let mut body = String::from_str("{\"pageSize\":");
        body.append(u64_to_string(limit).as_str());
        body.append(",\"pageNumber\":1,\"timeRange\":\"30D\",\"dataType\":\"ROI\",\"favoriteOnly\":false}");
        body
    }

    /// The leaders of the answer, one per entry and in order (none where the
    /// answer has no list), all stamped with the current time.
    pub fn leaders_result(outcome: HttpOutcome<BinanceLeaderboardResponse>) -> (r: Result<Vec<LeadTrader>, CteError>)
        ensures
            match outcome {
                HttpOutcome::Decoded(resp) => r matches Ok(ls) && stamped_together(ls@) && match resp.data {
                    Some(list) => ls@.len() == list@.len() && forall|k: int|
                        0 <= k < ls@.len() ==> binance_leader(list@[k], #[trigger] ls@[k]),
                    None => ls@.len() == 0,
                },
                _ => fetch_error(
                    r,
                    "binance_leaderboard"@,
                    outcome,
                    |s: u16, b: Seq<char>| "HTTP "@ + decimal_text(s as nat) + ": "@ + b,
                ),
            },
    {
        let resp = match scrape_decoded("binance_leaderboard", outcome, true) {
            Ok(v) => v,
            Err(e) => {
                return Err(e);
            },
        };
        let now = now_millis();
        let mut out: Vec<LeadTrader> = Vec::new();
        let list = match &resp.data {
            Some(l) => l,
            None => {
                return Ok(out);
            },
        };
        let mut i: usize = 0;
        while i < list.len()
            invariant
                i <= list.len(),
                out@.len() == i,
                chrono_millis_in_range(now as int),
                forall|k: int| 0 <= k < i ==> (#[trigger] out@[k]).fetched_at == now,
                forall|k: int| 0 <= k < i ==> binance_leader(list@[k], #[trigger] out@[k]),
            decreases list.len() - i,
        {
            let t = &list[i];
            out.push(
                LeadTrader {
                    id: t.encrypted_uid.clone(),
                    nickname: t.nick_name.clone(),
                    exchange: Exchange::Binance,
                    roi_percent: Decimal::parse_or_zero(t.roi_text.as_str()),
                    pnl_usd: Decimal::parse_or_zero(t.pnl_text.as_str()),
                    win_rate: Decimal::zero(),
                    followers: t.follower_count,
                    total_trades: 0,
                    current_positions: Vec::new(),
                    fetched_at: now,
                },
            );
            i = i + 1;
        }
        Ok(out)
    }
}

// ---------------------------------------------------------------------------
// Which published figure becomes which field
// ---------------------------------------------------------------------------

/// The leaders read from an OKX ranking carry, in order, the entry's profit
/// ratio as their return and its profit as their profit in dollars (so that
/// `top_by_roi` ranks OKX leaders by the ratio and `top_by_pnl` by the
/// profit), its accumulated copy traders as followers and its lead days as
/// trade count.
pub proof fn lemma_okx_leader_figures(ranks: Seq<OkxRankEntry>, ls: Seq<LeadTrader>)
    requires
        ls.len() <= ranks.len(),
        forall|k: int| 0 <= k < ls.len() ==> okx_leader(ranks[k], #[trigger] ls[k]),
    ensures
        forall|k: int|
            0 <= k < ls.len() ==> {
                &&& (#[trigger] ls[k]).roi_percent@ == decimal_or_zero(ranks[k].pnl_ratio@)
                &&& ls[k].pnl_usd@ == decimal_or_zero(ranks[k].pnl@)
                &&& ls[k].followers as int == u64_or_zero(ranks[k].acc_copy_trader_num@)
                &&& ls[k].total_trades as int == u64_or_zero(ranks[k].lead_days@)
                &&& ls[k].nickname == ranks[k].nick_name
                &&& ls[k].exchange == Exchange::Okx
            },
{
}

/// A Bybit leader's return is the entry's `roi`, its profit the entry's
/// `pnl`, its win rate the entry's `winRate`, and its counts the entry's.
pub proof fn lemma_bybit_leader_figures(t: BybitLeadTrader, l: LeadTrader)
    requires
        bybit_leader(t, l),
    ensures
        l.roi_percent@ == decimal_or_zero(t.roi@),
        l.pnl_usd@ == decimal_or_zero(t.pnl@),
        l.win_rate@ == decimal_or_zero(t.win_rate@),
        l.followers == t.follower_count,
        l.total_trades == t.total_count,
        l.exchange == Exchange::Bybit,
{
}

/// A Binance leader's return is the printed return and its profit the
/// printed profit.
pub proof fn lemma_binance_leader_figures(t: BinanceLeader, l: LeadTrader)
    requires
        binance_leader(t, l),
    ensures
        l.roi_percent@ == decimal_or_zero(t.roi_text@),
        l.pnl_usd@ == decimal_or_zero(t.pnl_text@),
        l.followers == t.follower_count,
        l.exchange == Exchange::Binance,
{
}

/// An OKX position's entry price is the average price, its mark price the
/// mark price, its size the notional in dollars, and its return the
/// unrealised ratio times one hundred.
pub proof fn lemma_okx_position_figures(p: OkxPosition, t: TraderPosition)
    requires
        okx_position(p, t),
    ensures
        t.entry_price@ == decimal_or_zero(p.avg_px@),
        t.mark_price@ == decimal_or_zero(p.mark_px@),
        t.size_usd@ == decimal_or_zero(p.notional_usd@),
        decimal_mul(decimal_or_zero(p.upl_ratio@), (100, 0)) == Some(t.pnl_percent@),
        p.pos_side@ == "long"@ ==> t.side == Side::Long,
        p.pos_side@ != "long"@ ==> t.side == Side::Short,
{
}

} // verus!
