use crate::message::{ContentModel, Message};
use crate::strutil::{str_eq, views_of};
use crate::timeframe::{parse_timeframe, timeframe_spec};
use vstd::prelude::*;
use vstd::string::StringExecFns;

verus! {

/// What the chart responder decides for one incoming message, given its
/// words: stay silent, remind the sender how the `c` command is written,
/// or fetch a chart of a symbol over a parsed timeframe.
pub enum ChartDecision {
    NoReply,
    Usage,
    Chart { symbol: String, timeframe: String },
}

pub enum ChartDecisionModel {
    NoReply,
    Usage,
    Chart { symbol: Seq<char>, timeframe: Seq<char> },
}

impl View for ChartDecision {
    type V = ChartDecisionModel;

    open spec fn view(&self) -> ChartDecisionModel {
        match self {
            ChartDecision::NoReply => ChartDecisionModel::NoReply,
            ChartDecision::Usage => ChartDecisionModel::Usage,
            ChartDecision::Chart { symbol, timeframe } => ChartDecisionModel::Chart {
                symbol: symbol@,
                timeframe: timeframe@,
            },
        }
    }
}

/// The decision owed to a message with the given words: a `c` command with
/// a symbol and a timeframe asks for that chart; a `c` command with too few
/// words earns the usage reminder; everything else — an empty message
/// included — earns silence.
pub open spec fn chart_decision_spec(ws: Seq<Seq<char>>) -> ChartDecisionModel {
    if ws.len() == 0 {
        ChartDecisionModel::NoReply
    } else if ws.len() <= 2 {
        if ws[0] == "c"@ {
            ChartDecisionModel::Usage
        } else {
            ChartDecisionModel::NoReply
        }
    } else if ws[0] == "c"@ {
        ChartDecisionModel::Chart { symbol: ws[1], timeframe: timeframe_spec(ws[2]) }
    } else {
        ChartDecisionModel::NoReply
    }
}

/// Reads a chart command off the words of a message.
pub fn chart_decision(words: &Vec<String>) -> (r: ChartDecision)
    ensures
        r@ == chart_decision_spec(views_of(words@)),
{
    if words.len() == 0 {
        return ChartDecision::NoReply;
    }
    if words.len() <= 2 {
        if str_eq(words[0].as_str(), "c") {
            return ChartDecision::Usage;
        }
        return ChartDecision::NoReply;
    }
    if str_eq(words[0].as_str(), "c") {
        let timeframe = parse_timeframe(words[2].clone());
        return ChartDecision::Chart { symbol: words[1].clone(), timeframe };
    }
    ChartDecision::NoReply
}

/// The address of the chart widget for a symbol and timeframe code.
pub fn build_chart_url(symbol: &str, timeframe: &str) -> (r: String)
    ensures
        r@ == "https://www.tradingview.com/widgetembed/?symbol="@ + symbol@ + "&interval="@
            + timeframe@
            + "&theme=dark&style=1&hidetoptoolbar=1&symboledit=1&saveimage=1&withdateranges=1"@,
{
    let mut r = String::from_str("https://www.tradingview.com/widgetembed/?symbol=");
    r.append(symbol);
    r.append("&interval=");
    r.append(timeframe);
    r.append("&theme=dark&style=1&hidetoptoolbar=1&symboledit=1&saveimage=1&withdateranges=1");
    proof {
        assert(r@ =~= "https://www.tradingview.com/widgetembed/?symbol="@ + symbol@
            + "&interval="@ + timeframe@
            + "&theme=dark&style=1&hidetoptoolbar=1&symboledit=1&saveimage=1&withdateranges=1"@);
    }
    r
}

/// The object name a rendered chart is stored under: the symbol, the
/// timeframe code run through the phrase table once more — so a code such
/// as `D` that is no phrase falls back to the one-minute code — and the
/// render timestamp.
pub fn chart_filename(symbol: &str, timeframe: &str, timestamp: &str) -> (r: String)
    ensures
        r@ == symbol@ + "_"@ + timeframe_spec(timeframe@) + "_"@ + timestamp@ + ".png"@,
{
    let tf = parse_timeframe(timeframe.to_owned());
    let mut r = symbol.to_owned();
    r.append("_");
    r.append(tf.as_str());
    r.append("_");
    r.append(timestamp);
    r.append(".png");
    proof {
        assert(r@ =~= symbol@ + "_"@ + timeframe_spec(timeframe@) + "_"@ + timestamp@ + ".png"@);
    }
    r
}

/// The public address an uploaded chart is reachable under.
pub fn upload_location(bucket: &str, region: &str, filename: &str) -> (r: String)
    ensures
        r@ == "https://"@ + bucket@ + ".s3."@ + region@ + ".amazonaws.com/"@ + filename@,
{
    let mut r = String::from_str("https://");
    r.append(bucket);
    r.append(".s3.");
    r.append(region);
    r.append(".amazonaws.com/");
    r.append(filename);
    proof {
        assert(r@ =~= "https://"@ + bucket@ + ".s3."@ + region@ + ".amazonaws.com/"@ + filename@);
    }
    r
}

/// The reminder sent back for a `c` command that is missing its arguments.
pub fn usage_reply() -> (r: Message)
    ensures
        r@ == seq![
            ContentModel::Text(
                "Unknown command.\n
                Type `c <trading_pair> <timeframe>` to get the corresponding chart.\n
                You can look up any trading pair and timeframe supported by TradingView.\n
                Example: `c ethusd 4h`"@,
            ),
        ],
{
    let r = Message::new().add_text(
        "Unknown command.\n
                Type `c <trading_pair> <timeframe>` to get the corresponding chart.\n
                You can look up any trading pair and timeframe supported by TradingView.\n
                Example: `c ethusd 4h`",
    );
    proof {
        assert(r@ =~= seq![
            ContentModel::Text(
                "Unknown command.\n
                Type `c <trading_pair> <timeframe>` to get the corresponding chart.\n
                You can look up any trading pair and timeframe supported by TradingView.\n
                Example: `c ethusd 4h`"@,
            ),
        ]);
    }
    r
}

/// The reply sent back when the asked-for trading pair cannot be rendered;
/// the symbol is quoted in the message.
pub fn unavailable_reply(symbol: &str) -> (r: Message)
    ensures
        r@ == seq![
            ContentModel::Text("Trading pair `\""@ + symbol@ + "\"` not available."@),
        ],
{
    let mut t = String::from_str("Trading pair `\"");
    t.append(symbol);
    t.append("\"` not available.");
    let r = Message::new().add_text(t.as_str());
    proof {
        assert(t@ =~= "Trading pair `\""@ + symbol@ + "\"` not available."@);
        assert(r@ =~= seq![
            ContentModel::Text("Trading pair `\""@ + symbol@ + "\"` not available."@),
        ]);
    }
    r
}

} // verus!
