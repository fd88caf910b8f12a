//! Market-index registries: fixed, ordered ticker/display-name tables that
//! define each index's universe. The tables are configuration data; the
//! contracts pin their sizes and how a request selector maps onto them.

use vstd::prelude::*;

verus! {

/// One registry row: a ticker symbol and the company's display name.
pub struct IndexEntry {
    pub ticker: String,
    pub display_name: String,
}

/// A market index whose quotes can be aggregated.
#[derive(Clone, Copy, Debug, PartialEq, Eq, Structural)]
pub enum Index {
    DowJones,
    NASDAQ,
}

impl Index {
    /// The short name of this index.
    pub open spec fn spec_str(&self) -> Seq<char> {
        match self {
            Index::DowJones => "djia"@,
            Index::NASDAQ => "nasdq"@,
        }
    }

    /// The short name as an owned string.
    pub fn to_string(&self) -> (r: String)
        ensures
            r@ == self.spec_str(),
    {
        match self {
            Index::DowJones => "djia".to_owned(),
            Index::NASDAQ => "nasdq".to_owned(),
        }
    }

    /// The short name as a borrowed string.
    pub fn as_str(&self) -> (r: &str)
        ensures
            r@ == self.spec_str(),
    {
        match self {
            Index::DowJones => "djia",
            Index::NASDAQ => "nasdq",
        }
    }
}

/// Compares two strings by their character content.
pub fn str_contents_eq(a: &str, b: &str) -> (r: bool)
    ensures
        r == (a@ == b@),
{
    let x: String = a.to_owned();
    let y: String = b.to_owned();
    x == y
}

/// Maps a request selector onto an index: `"djia"` and `"nasdaq"` are the
/// only selectors served; anything else is rejected.
pub fn parse_index(s: &str) -> (r: Option<Index>)
    ensures
        r == Some(Index::DowJones) <==> s@ == "djia"@,
        r == Some(Index::NASDAQ) <==> s@ == "nasdaq"@,
        r is None <==> (s@ != "djia"@ && s@ != "nasdaq"@),
{
    proof {
        reveal_strlit("djia");
        reveal_strlit("nasdaq");
        assert("djia"@.len() == 4);
        assert("nasdaq"@.len() == 6);
    }
    if str_contents_eq(s, "djia") {
        Some(Index::DowJones)
    } else if str_contents_eq(s, "nasdaq") {
        Some(Index::NASDAQ)
    } else {
        None
    }
}

/// The message returned to a caller whose index selector is not served.
pub fn invalid_index_message() -> (r: String)
    ensures
        r@ == "Given index not valid. Try 'djia' or 'nasdaq'."@,
{
    "Given index not valid. Try 'djia' or 'nasdaq'.".to_owned()
}

/// Builds one registry row from borrowed strings.
fn entry(ticker: &str, name: &str) -> (e: IndexEntry)
    ensures
        e.ticker@ == ticker@,
        e.display_name@ == name@,
{
    IndexEntry { ticker: ticker.to_owned(), display_name: name.to_owned() }
}

/// The Dow Jones registry: 30 tickers, in the order requests fan out.
pub fn dow_jones() -> (r: Vec<IndexEntry>)
    ensures
        r@.len() == 30,
{
    let mut v: Vec<IndexEntry> = Vec::new();
    v.push(entry("JPM", "JPMorgan Chase & Co"));
    v.push(entry("WBA", "Walgreens Boots Alliance Inc"));
    v.push(entry("PG", "Procter & Gamble Co"));
    v.push(entry("GS", "Goldman Sachs Group Inc"));
    v.push(entry("AAPL", "Apple Inc"));
    v.push(entry("CAT", "Caterpillar Inc"));
    v.push(entry("BA", "Boeing Co"));
    v.push(entry("HON", "Honeywell International Inc"));
    v.push(entry("MRK", "Merck & Co Inc"));
    v.push(entry("MMM", "3M Co"));
    v.push(entry("IBM", "International Business Machines Corp"));
    v.push(entry("DIS", "Walt Disney Co"));
    v.push(entry("HD", "Home Depot Inc"));
    v.push(entry("AMGN", "Amgen Inc"));
    v.push(entry("V", "Visa Inc"));
    v.push(entry("INTC", "Intel Corp"));
    v.push(entry("DOW", "Dow Inc"));
    v.push(entry("MSFT", "Microsoft Corp"));
    v.push(entry("TRV", "Travelers Companies Inc"));
    v.push(entry("JNJ", "Johnson & Johnson"));
    v.push(entry("KO", "Coca-Cola Co"));
    v.push(entry("NKE", "Nike Inc"));
    v.push(entry("MCD", "McDonald's Corp"));
    v.push(entry("WMT", "Walmart Inc"));
    v.push(entry("CRM", "Salesforce Inc"));
    v.push(entry("AXP", "American Express Co"));
    v.push(entry("UNH", "UnitedHealth Group Inc"));
    v.push(entry("CVX", "Chevron Corp"));
    v.push(entry("VZ", "Verizon Communications Inc"));
    v.push(entry("CSCO", "Cisco Systems Inc"));
    v
}

/// The NASDAQ registry: 60 tickers, in the order requests fan out.
pub fn nasdaq() -> (r: Vec<IndexEntry>)
    ensures
        r@.len() == 60,
{
    let mut v: Vec<IndexEntry> = Vec::new();
    v.push(entry("AMZN", "Amazon.com, Inc."));
    v.push(entry("FB", "Facebook, Inc."));
    v.push(entry("TSLA", "Tesla, Inc."));
    v.push(entry("NVDA", "NVIDIA Corporation"));
    v.push(entry("PYPL", "PayPal Holdings, Inc."));
    v.push(entry("ASML", "ASML Holding N.V."));
    v.push(entry("ZM", "Zoom Video Communications, Inc."));
    v.push(entry("MRNA", "Moderna, Inc."));
    v.push(entry("VRTX", "Vertex Pharmaceuticals Incorporated"));
    v.push(entry("REGN", "Regeneron Pharmaceuticals, Inc."));
    v.push(entry("ILMN", "Illumina, Inc."));
    v.push(entry("JD", "JD.com, Inc."));
    v.push(entry("BIDU", "Baidu, Inc."));
    v.push(entry("MELI", "MercadoLibre, Inc."));
    v.push(entry("DOCU", "DocuSign, Inc."));
    v.push(entry("PDD", "Pinduoduo Inc."));
    v.push(entry("FSLY", "Fastly, Inc."));
    v.push(entry("TEAM", "Atlassian Corporation Plc"));
    v.push(entry("ALGN", "Align Technology, Inc."));
    v.push(entry("MRVL", "Marvell Technology Group Ltd."));
    v.push(entry("ZI", "ZoomInfo Technologies Inc."));
    v.push(entry("CDW", "CDW Corporation"));
    v.push(entry("CCI", "Crown Castle International Corp."));
    v.push(entry("MSCI", "MSCI Inc."));
    v.push(entry("NTES", "NetEase, Inc."));
    v.push(entry("IDXX", "IDEXX Laboratories, Inc."));
    v.push(entry("SGEN", "Seagen Inc."));
    v.push(entry("OKTA", "Okta, Inc."));
    v.push(entry("MTCH", "Match Group, Inc."));
    v.push(entry("VRSK", "Verisk Analytics, Inc."));
    v.push(entry("LULU", "Lululemon Athletica Inc."));
    v.push(entry("MNST", "Monster Beverage Corporation"));
    v.push(entry("KLAC", "KLA Corporation"));
    v.push(entry("ANSS", "ANSYS, Inc."));
    v.push(entry("PAYC", "Paycom Software, Inc."));
    v.push(entry("RMD", "ResMed Inc."));
    v.push(entry("CDNS", "Cadence Design Systems, Inc."));
    v.push(entry("CHKP", "Check Point Software Technologies Ltd."));
    v.push(entry("SWKS", "Skyworks Solutions, Inc."));
    v.push(entry("CTXS", "Citrix Systems, Inc."));
    v.push(entry("INCY", "Incyte Corporation"));
    v.push(entry("SPLK", "Splunk Inc."));
    v.push(entry("VRTX", "Vertex Pharmaceuticals Incorporated"));
    v.push(entry("WBA", "Walgreens Boots Alliance, Inc."));
    v.push(entry("SGEN", "Seagen Inc."));
    v.push(entry("CERN", "Cerner Corporation"));
    v.push(entry("CPRT", "Copart, Inc."));
    v.push(entry("WDC", "Western Digital Corporation"));
    v.push(entry("NTAP", "NetApp, Inc."));
    v.push(entry("MXIM", "Maxim Integrated Products, Inc."));
    v.push(entry("TTWO", "Take-Two Interactive Software, Inc."));
    v.push(entry("PEP", "PepsiCo, Inc."));
    v.push(entry("INTU", "Intuit Inc."));
    v.push(entry("TXN", "Texas Instruments Incorporated"));
    v.push(entry("BIIB", "Biogen Inc."));
    v.push(entry("ADSK", "Autodesk, Inc."));
    v.push(entry("MU", "Micron Technology, Inc."));
    v.push(entry("CSCO", "Cisco Systems, Inc."));
    v.push(entry("INTC", "Intel Corporation"));
    v.push(entry("CMCSA", "Comcast Corporation"));
    v
}

/// The registry an index stands for; its size is the index's universe.
pub fn registry_for(index: Index) -> (r: Vec<IndexEntry>)
    ensures
        index == Index::DowJones ==> r@.len() == 30,
        index == Index::NASDAQ ==> r@.len() == 60,
{
    match index {
        Index::DowJones => dow_jones(),
        Index::NASDAQ => nasdaq(),
    }
}

} // verus!
