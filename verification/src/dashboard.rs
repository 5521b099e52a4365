//! The state behind the dashboard: whether the visitor is logged in, and
//! the quotes of the market overview.

use vstd::prelude::*;
use crate::market::{market_overview, quote_models, sample_quotes, MarketData, QuoteModel};

verus! {

/// What the dashboard holds, as plain values.
pub struct DashboardModel {
    pub logged_in: bool,
    pub market: Seq<QuoteModel>,
}

impl DashboardModel {
    /// The dashboard as it is mounted: logged out, with the sample quotes.
    pub open spec fn initial() -> Self {
        DashboardModel { logged_in: false, market: sample_quotes() }
    }

    /// The state after a click on the login button.
    pub open spec fn login(self) -> Self {
        DashboardModel { logged_in: true, ..self }
    }

    /// Whether the market overview is shown instead of the welcome page.
    pub open spec fn shows_market(self) -> bool {
        self.logged_in
    }
}

/// The state of the dashboard view.
#[derive(Debug)]
pub struct Dashboard {
    logged_in: bool,
    market: Vec<MarketData>,
}

impl View for Dashboard {
    type V = DashboardModel;

    closed spec fn view(&self) -> DashboardModel {
        DashboardModel { logged_in: self.logged_in, market: quote_models(self.market@) }
    }
}

impl Dashboard {
    /// The dashboard as it is mounted.
    pub fn mount() -> (d: Self)
        ensures
            d@ == DashboardModel::initial(),
    {
        Dashboard { logged_in: false, market: market_overview() }
    }

    /// Whether the visitor is logged in.
    pub fn is_logged_in(&self) -> (b: bool)
        ensures
            b == self@.logged_in,
    {
        self.logged_in
    }

    /// Takes a click on the login button.
    pub fn login(&mut self)
        ensures
            final(self)@ == old(self)@.login(),
    {
        self.logged_in = true;
    }

    /// The quotes of the market overview.
    pub fn market(&self) -> (quotes: &Vec<MarketData>)
        ensures
            quote_models(quotes@) == self@.market,
    {
        &self.market
    }
}

} // verus!
