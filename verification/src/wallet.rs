use vstd::prelude::*;

verus! {

/// The rows in reverse order: the query gives the oldest first, the wallet
/// shows the newest first.
pub fn newest_first<T>(rows: Vec<T>) -> (r: Vec<T>)
    ensures
        r@ == rows@.reverse(),
{
    let ghost orig = rows@;
    let mut rest = rows;
    let mut out: Vec<T> = Vec::new();
    while rest.len() > 0
        invariant
            rest@ == orig.take(rest@.len() as int),
            rest@.len() <= orig.len(),
            out@ == orig.skip(rest@.len() as int).reverse(),
        decreases rest@.len(),
    {
        let ghost before = rest@.len() as int;
        let x = rest.pop().unwrap();
        proof {
            assert(x == orig[before - 1]);
            assert(rest@ =~= orig.take(before - 1));
        }
        out.push(x);
        proof {
            assert(out@ =~= orig.skip(before - 1).reverse());
        }
    }
    proof {
        assert(orig.skip(0) =~= orig);
    }
    out
}

/// Price of one unit of a currency in Polish zloty, in hundredths (grosze);
/// 0 for a currency the table does not list.
pub open spec fn spec_price_pln_hundredths(name: Seq<char>) -> u32 {
    if name == "BTC"@ {
        4000000
    } else if name == "BCH"@ {
        90000
    } else if name == "ETH"@ {
        85000
    } else if name == "LTC"@ {
        17000
    } else if name == "XRP"@ {
        80
    } else if name == "PLN"@ {
        100
    } else if name == "USD"@ {
        400
    } else if name == "EUR"@ {
        440
    } else {
        0
    }
}

/// The current price of a currency in PLN, in hundredths of a zloty.
pub fn check_current_price_pln(currency_name: &String) -> (p: u32)
    ensures
        p == spec_price_pln_hundredths(currency_name@),
{
    if *currency_name == "BTC".to_owned() {
        4000000
    } else if *currency_name == "BCH".to_owned() {
        90000
    } else if *currency_name == "ETH".to_owned() {
        85000
    } else if *currency_name == "LTC".to_owned() {
        17000
    } else if *currency_name == "XRP".to_owned() {
        80
    } else if *currency_name == "PLN".to_owned() {
        100
    } else if *currency_name == "USD".to_owned() {
        400
    } else if *currency_name == "EUR".to_owned() {
        440
    } else {
        0
    }
}

/// The two currencies of one transaction.
#[derive(Debug)]
pub struct TradeCurrencies {
    pub buy_currency: String,
    pub sell_currency: String,
}

pub struct TradeCurrenciesView {
    pub buy: Seq<char>,
    pub sell: Seq<char>,
}

impl View for TradeCurrencies {
    type V = TradeCurrenciesView;

    open spec fn view(&self) -> TradeCurrenciesView {
        TradeCurrenciesView { buy: self.buy_currency@, sell: self.sell_currency@ }
    }
}

/// Which side of its transaction a summary row was made from.
#[derive(PartialEq, Eq, Structural, Clone, Copy, Debug)]
pub enum Side {
    Bought,
    Sold,
}

/// One row of the wallet summary: the coin, and the transaction and side
/// whose amounts the row is computed from.
#[derive(Debug)]
pub struct SummaryEntry {
    pub coin: String,
    pub transaction: usize,
    pub side: Side,
}

pub struct SummaryEntryView {
    pub coin: Seq<char>,
    pub transaction: int,
    pub side: Side,
}

impl View for SummaryEntry {
    type V = SummaryEntryView;

    open spec fn view(&self) -> SummaryEntryView {
        SummaryEntryView { coin: self.coin@, transaction: self.transaction as int, side: self.side }
    }
}

pub open spec fn trades_view(t: Seq<TradeCurrencies>) -> Seq<TradeCurrenciesView> {
    t.map_values(|x: TradeCurrencies| x@)
}

pub open spec fn entries_view(p: Seq<SummaryEntry>) -> Seq<SummaryEntryView> {
    p.map_values(|e: SummaryEntry| e@)
}

pub open spec fn has_coin(p: Seq<SummaryEntryView>, coin: Seq<char>) -> bool {
    exists|j: int| 0 <= j < p.len() && #[trigger] p[j].coin == coin
}

pub open spec fn add_if_missing(
    p: Seq<SummaryEntryView>,
    coin: Seq<char>,
    transaction: int,
    side: Side,
) -> Seq<SummaryEntryView> {
    if has_coin(p, coin) {
        p
    } else {
        p.push(SummaryEntryView { coin, transaction, side })
    }
}

/// The summary rows: transactions in order, for each its bought currency and
/// then its sold currency, each added when no row has that coin yet.
pub open spec fn spec_summary_plan(t: Seq<TradeCurrenciesView>) -> Seq<SummaryEntryView>
    decreases t.len(),
{
    if t.len() == 0 {
        Seq::empty()
    } else {
        let i = t.len() - 1;
        let p = spec_summary_plan(t.drop_last());
        let p1 = add_if_missing(p, t[i].buy, i, Side::Bought);
        add_if_missing(p1, t[i].sell, i, Side::Sold)
    }
}

pub open spec fn coins_distinct(p: Seq<SummaryEntryView>) -> bool {
    forall|j: int, k: int| 0 <= j < k < p.len() ==> #[trigger] p[j].coin != #[trigger] p[k].coin
}

pub open spec fn rows_from_trades(p: Seq<SummaryEntryView>, t: Seq<TradeCurrenciesView>) -> bool {
    forall|j: int|
        0 <= j < p.len() ==> {
            &&& 0 <= #[trigger] p[j].transaction < t.len()
            &&& p[j].coin == (if p[j].side == Side::Bought {
                t[p[j].transaction].buy
            } else {
                t[p[j].transaction].sell
            })
        }
}

pub open spec fn covers_trades(p: Seq<SummaryEntryView>, t: Seq<TradeCurrenciesView>) -> bool {
    forall|i: int| 0 <= i < t.len() ==> has_coin(p, #[trigger] t[i].buy) && has_coin(p, t[i].sell)
}

proof fn lemma_add_if_missing(
    p: Seq<SummaryEntryView>,
    t: Seq<TradeCurrenciesView>,
    coin: Seq<char>,
    i: int,
    side: Side,
)
    requires
        coins_distinct(p),
        rows_from_trades(p, t),
        0 <= i < t.len(),
        coin == (if side == Side::Bought {
            t[i].buy
        } else {
            t[i].sell
        }),
    ensures
        coins_distinct(add_if_missing(p, coin, i, side)),
        rows_from_trades(add_if_missing(p, coin, i, side), t),
        has_coin(add_if_missing(p, coin, i, side), coin),
        forall|c: Seq<char>| has_coin(p, c) ==> has_coin(add_if_missing(p, coin, i, side), c),
{
    let q = add_if_missing(p, coin, i, side);
    if !has_coin(p, coin) {
        assert(q[p.len() as int].coin == coin);
        assert forall|c: Seq<char>| has_coin(p, c) implies has_coin(q, c) by {
            let j = choose|j: int| 0 <= j < p.len() && #[trigger] p[j].coin == c;
            assert(q[j] == p[j]);
        }
        assert forall|j: int, k: int| 0 <= j < k < q.len() implies #[trigger] q[j].coin
            != #[trigger] q[k].coin by {
            if k == p.len() {
                assert(q[j] == p[j]);
            } else {
                assert(q[j] == p[j] && q[k] == p[k]);
            }
        }
        assert forall|j: int| 0 <= j < q.len() implies {
            &&& 0 <= #[trigger] q[j].transaction < t.len()
            &&& q[j].coin == (if q[j].side == Side::Bought {
                t[q[j].transaction].buy
            } else {
                t[q[j].transaction].sell
            })
        } by {
            if j < p.len() {
                assert(q[j] == p[j]);
            }
        }
    }
}

/// The wallet summary has one row per coin: no coin twice, every currency
/// bought or sold in some transaction has a row, and each row's coin is the
/// currency of the side of the transaction it is computed from.
pub proof fn lemma_summary_plan_rows(t: Seq<TradeCurrenciesView>)
    ensures
        coins_distinct(spec_summary_plan(t)),
        rows_from_trades(spec_summary_plan(t), t),
        covers_trades(spec_summary_plan(t), t),
    decreases t.len(),
{
    if t.len() > 0 {
        let i = t.len() - 1;
        let t0 = t.drop_last();
        lemma_summary_plan_rows(t0);
        let p = spec_summary_plan(t0);
        assert forall|j: int| 0 <= j < p.len() implies {
            &&& 0 <= #[trigger] p[j].transaction < t.len()
            &&& p[j].coin == (if p[j].side == Side::Bought {
                t[p[j].transaction].buy
            } else {
                t[p[j].transaction].sell
            })
        } by {
            assert(t0[p[j].transaction] == t[p[j].transaction]);
        }
        lemma_add_if_missing(p, t, t[i].buy, i, Side::Bought);
        let p1 = add_if_missing(p, t[i].buy, i, Side::Bought);
        lemma_add_if_missing(p1, t, t[i].sell, i, Side::Sold);
        let p2 = add_if_missing(p1, t[i].sell, i, Side::Sold);
        assert forall|k: int| 0 <= k < t.len() implies has_coin(p2, #[trigger] t[k].buy)
            && has_coin(p2, t[k].sell) by {
            if k < i {
                assert(t0[k] == t[k]);
            }
        }
    }
}

fn plan_has_coin(plan: &Vec<SummaryEntry>, coin: &String) -> (r: bool)
    ensures
        r == has_coin(entries_view(plan@), coin@),
{
    let n = plan.len();
    for j in 0..n
        invariant
            n == plan@.len(),
            forall|k: int| 0 <= k < j ==> plan@[k].coin@ != coin@,
    {
        if plan[j].coin == *coin {
            proof {
                assert(entries_view(plan@)[j as int].coin == coin@);
            }
            return true;
        }
    }
    proof {
        assert forall|k: int| 0 <= k < n implies #[trigger] entries_view(plan@)[k].coin != coin@ by {
            assert(entries_view(plan@)[k] == plan@[k]@);
        }
    }
    false
}

/// The rows of the wallet summary, in the order they are shown.
pub fn summary_plan(trades: &Vec<TradeCurrencies>) -> (plan: Vec<SummaryEntry>)
    ensures
        entries_view(plan@) == spec_summary_plan(trades_view(trades@)),
{
    let n = trades.len();
    let mut plan: Vec<SummaryEntry> = Vec::new();
    for i in 0..n
        invariant
            n == trades@.len(),
            entries_view(plan@) == spec_summary_plan(trades_view(trades@).take(i as int)),
    {
        let ghost tv = trades_view(trades@);
        let ghost p0 = entries_view(plan@);
        proof {
            assert(tv.take(i + 1).drop_last() =~= tv.take(i as int));
            assert(tv.take(i + 1)[i as int] == trades@[i as int]@);
        }
        if !plan_has_coin(&plan, &trades[i].buy_currency) {
            plan.push(
                SummaryEntry {
                    coin: trades[i].buy_currency.clone(),
                    transaction: i,
                    side: Side::Bought,
                },
            );
            proof {
                assert(entries_view(plan@) =~= p0.push(
                    SummaryEntryView { coin: tv[i as int].buy, transaction: i as int, side: Side::Bought },
                ));
            }
        }
        let ghost p1 = entries_view(plan@);
        if !plan_has_coin(&plan, &trades[i].sell_currency) {
            plan.push(
                SummaryEntry {
                    coin: trades[i].sell_currency.clone(),
                    transaction: i,
                    side: Side::Sold,
                },
            );
            proof {
                assert(entries_view(plan@) =~= p1.push(
                    SummaryEntryView { coin: tv[i as int].sell, transaction: i as int, side: Side::Sold },
                ));
            }
        }
    }
    proof {
        assert(trades_view(trades@).take(n as int) =~= trades_view(trades@));
    }
    plan
}

} // verus!
