//! Kinds of economic nodes, their registry status and their signal types,
//! with the text forms used in storage.

use vstd::prelude::*;
use vstd::string::*;
use crate::text::str_eq;

verus! {

/// Kinds of economic nodes that take part in governance.
#[derive(Debug, Clone, Copy, PartialEq, Eq, Structural)]
pub enum NodeType {
    MiningPool,
    Exchange,
    Custodian,
    PaymentProcessor,
    MajorHolder,
}

/// The stored text of a node type.
pub open spec fn node_type_text(t: NodeType) -> Seq<char> {
    match t {
        NodeType::MiningPool => "mining_pool"@,
        NodeType::Exchange => "exchange"@,
        NodeType::Custodian => "custodian"@,
        NodeType::PaymentProcessor => "payment_processor"@,
        NodeType::MajorHolder => "major_holder"@,
    }
}

/// The node type a text names, if any.
pub open spec fn node_type_from_text(s: Seq<char>) -> Option<NodeType> {
    if s == "mining_pool"@ { Some(NodeType::MiningPool) }
    else if s == "exchange"@ { Some(NodeType::Exchange) }
    else if s == "custodian"@ { Some(NodeType::Custodian) }
    else if s == "payment_processor"@ { Some(NodeType::PaymentProcessor) }
    else if s == "major_holder"@ { Some(NodeType::MajorHolder) }
    else { None }
}

proof fn reveal_node_type_texts()
    ensures
        "mining_pool"@ != "exchange"@,
        "mining_pool"@ != "custodian"@,
        "mining_pool"@ != "payment_processor"@,
        "mining_pool"@ != "major_holder"@,
        "exchange"@ != "custodian"@,
        "exchange"@ != "payment_processor"@,
        "exchange"@ != "major_holder"@,
        "custodian"@ != "payment_processor"@,
        "custodian"@ != "major_holder"@,
        "payment_processor"@ != "major_holder"@,
{
    reveal_strlit("mining_pool");
    reveal_strlit("exchange");
    reveal_strlit("custodian");
    reveal_strlit("payment_processor");
    reveal_strlit("major_holder");
    assert("mining_pool"@[0] != "exchange"@[0]);
    assert("mining_pool"@[0] != "custodian"@[0]);
    assert("mining_pool"@[1] != "payment_processor"@[1]);
    assert("mining_pool"@[0] != "major_holder"@[0] || "mining_pool"@[1] != "major_holder"@[1]);
    assert("exchange"@[0] != "custodian"@[0]);
    assert("exchange"@[0] != "payment_processor"@[0]);
    assert("exchange"@[0] != "major_holder"@[0]);
    assert("custodian"@[0] != "payment_processor"@[0]);
    assert("custodian"@[0] != "major_holder"@[0]);
    assert("payment_processor"@[0] != "major_holder"@[0]);
}

impl NodeType {
    /// The stored text of the node type.
    pub fn as_str(&self) -> (r: &'static str)
        ensures
            r@ == node_type_text(*self),
            *self == NodeType::MiningPool ==> r@ == "mining_pool"@,
            *self == NodeType::Exchange ==> r@ == "exchange"@,
            *self == NodeType::Custodian ==> r@ == "custodian"@,
            *self == NodeType::PaymentProcessor ==> r@ == "payment_processor"@,
            *self == NodeType::MajorHolder ==> r@ == "major_holder"@,
    {
        match self {
            NodeType::MiningPool => "mining_pool",
            NodeType::Exchange => "exchange",
            NodeType::Custodian => "custodian",
            NodeType::PaymentProcessor => "payment_processor",
            NodeType::MajorHolder => "major_holder",
        }
    }

    /// The node type a text names, if any.
    pub fn from_str(s: &str) -> (r: Option<NodeType>)
        ensures
            r == node_type_from_text(s@),
    {
        if str_eq(s, "mining_pool") { Some(NodeType::MiningPool) }
        else if str_eq(s, "exchange") { Some(NodeType::Exchange) }
        else if str_eq(s, "custodian") { Some(NodeType::Custodian) }
        else if str_eq(s, "payment_processor") { Some(NodeType::PaymentProcessor) }
        else if str_eq(s, "major_holder") { Some(NodeType::MajorHolder) }
        else { None }
    }

    /// What a node of this type must show to qualify.
    pub fn qualification_thresholds(&self) -> (r: QualificationThresholds)
        ensures
            r == thresholds_for(*self),
            *self == NodeType::MiningPool ==> r.minimum_hashpower_percent == Some(1u32) && r.minimum_holdings_btc is None
                && r.minimum_volume_usd is None && r.minimum_transactions_monthly is None,
            *self == NodeType::Exchange ==> r.minimum_hashpower_percent is None && r.minimum_holdings_btc == Some(10_000u64)
                && r.minimum_volume_usd == Some(100_000_000u64) && r.minimum_transactions_monthly is None,
            *self == NodeType::Custodian ==> r.minimum_hashpower_percent is None && r.minimum_holdings_btc == Some(10_000u64)
                && r.minimum_volume_usd is None && r.minimum_transactions_monthly is None,
            *self == NodeType::PaymentProcessor ==> r.minimum_hashpower_percent is None && r.minimum_holdings_btc is None
                && r.minimum_volume_usd == Some(50_000_000u64) && r.minimum_transactions_monthly is None,
            *self == NodeType::MajorHolder ==> r.minimum_hashpower_percent is None && r.minimum_holdings_btc == Some(5_000u64)
                && r.minimum_volume_usd is None && r.minimum_transactions_monthly is None,
    {
        match self {
            NodeType::MiningPool => QualificationThresholds {
                minimum_hashpower_percent: Some(1),
                minimum_holdings_btc: None,
                minimum_volume_usd: None,
                minimum_transactions_monthly: None,
            },
            NodeType::Exchange => QualificationThresholds {
                minimum_hashpower_percent: None,
                minimum_holdings_btc: Some(10_000),
                minimum_volume_usd: Some(100_000_000),
                minimum_transactions_monthly: None,
            },
            NodeType::Custodian => QualificationThresholds {
                minimum_hashpower_percent: None,
                minimum_holdings_btc: Some(10_000),
                minimum_volume_usd: None,
                minimum_transactions_monthly: None,
            },
            NodeType::PaymentProcessor => QualificationThresholds {
                minimum_hashpower_percent: None,
                minimum_holdings_btc: None,
                minimum_volume_usd: Some(50_000_000),
                minimum_transactions_monthly: None,
            },
            NodeType::MajorHolder => QualificationThresholds {
                minimum_hashpower_percent: None,
                minimum_holdings_btc: Some(5_000),
                minimum_volume_usd: None,
                minimum_transactions_monthly: None,
            },
        }
    }
}

/// What a node must show to qualify; an absent figure is not required.
#[derive(Debug, Clone, Copy, PartialEq, Eq, Structural)]
pub struct QualificationThresholds {
    /// Share of the network hash rate, in whole percent.
    pub minimum_hashpower_percent: Option<u32>,
    pub minimum_holdings_btc: Option<u64>,
    /// Daily volume for exchanges, monthly for payment processors.
    pub minimum_volume_usd: Option<u64>,
    pub minimum_transactions_monthly: Option<u64>,
}

/// The thresholds of each node type: mining pools 1% of the hash rate;
/// exchanges 10,000 BTC and $100M daily volume; custodians 10,000 BTC;
/// payment processors $50M monthly volume; major holders 5,000 BTC.
pub open spec fn thresholds_for(t: NodeType) -> QualificationThresholds {
    match t {
        NodeType::MiningPool => QualificationThresholds {
            minimum_hashpower_percent: Some(1), minimum_holdings_btc: None,
            minimum_volume_usd: None, minimum_transactions_monthly: None,
        },
        NodeType::Exchange => QualificationThresholds {
            minimum_hashpower_percent: None, minimum_holdings_btc: Some(10_000),
            minimum_volume_usd: Some(100_000_000), minimum_transactions_monthly: None,
        },
        NodeType::Custodian => QualificationThresholds {
            minimum_hashpower_percent: None, minimum_holdings_btc: Some(10_000),
            minimum_volume_usd: None, minimum_transactions_monthly: None,
        },
        NodeType::PaymentProcessor => QualificationThresholds {
            minimum_hashpower_percent: None, minimum_holdings_btc: None,
            minimum_volume_usd: Some(50_000_000), minimum_transactions_monthly: None,
        },
        NodeType::MajorHolder => QualificationThresholds {
            minimum_hashpower_percent: None, minimum_holdings_btc: Some(5_000),
            minimum_volume_usd: None, minimum_transactions_monthly: None,
        },
    }
}

/// The qualification table: mining pools need 1% of the hash rate;
/// exchanges and custodians hold 10,000 BTC, exchanges also trade $100M a
/// day; payment processors move $50M a month; major holders hold 5,000 BTC;
/// nothing else is required of any type.
pub proof fn lemma_qualification_table()
    ensures
        thresholds_for(NodeType::MiningPool).minimum_hashpower_percent == Some(1u32),
        thresholds_for(NodeType::MiningPool).minimum_holdings_btc is None,
        thresholds_for(NodeType::MiningPool).minimum_volume_usd is None,
        thresholds_for(NodeType::Exchange).minimum_hashpower_percent is None,
        thresholds_for(NodeType::Exchange).minimum_holdings_btc == Some(10_000u64),
        thresholds_for(NodeType::Exchange).minimum_volume_usd == Some(100_000_000u64),
        thresholds_for(NodeType::Custodian).minimum_hashpower_percent is None,
        thresholds_for(NodeType::Custodian).minimum_holdings_btc == Some(10_000u64),
        thresholds_for(NodeType::Custodian).minimum_volume_usd is None,
        thresholds_for(NodeType::PaymentProcessor).minimum_hashpower_percent is None,
        thresholds_for(NodeType::PaymentProcessor).minimum_holdings_btc is None,
        thresholds_for(NodeType::PaymentProcessor).minimum_volume_usd == Some(50_000_000u64),
        thresholds_for(NodeType::MajorHolder).minimum_hashpower_percent is None,
        thresholds_for(NodeType::MajorHolder).minimum_holdings_btc == Some(5_000u64),
        thresholds_for(NodeType::MajorHolder).minimum_volume_usd is None,
        forall|t: NodeType| (#[trigger] thresholds_for(t)).minimum_transactions_monthly is None,
{
}

/// Parsing the text of a node type gives the node type back.
pub proof fn lemma_node_type_round_trip(t: NodeType)
    ensures
        node_type_from_text(node_type_text(t)) == Some(t),
{
    reveal_node_type_texts();
}

/// Status of a node in the registry.
#[derive(Debug, Clone, Copy, PartialEq, Eq, Structural)]
pub enum NodeStatus {
    Pending,
    Active,
    Suspended,
    Removed,
}

/// The stored text of a node status.
pub open spec fn node_status_text(s: NodeStatus) -> Seq<char> {
    match s {
        NodeStatus::Pending => "pending"@,
        NodeStatus::Active => "active"@,
        NodeStatus::Suspended => "suspended"@,
        NodeStatus::Removed => "removed"@,
    }
}

/// The node status a text names, if any.
pub open spec fn node_status_from_text(s: Seq<char>) -> Option<NodeStatus> {
    if s == "pending"@ { Some(NodeStatus::Pending) }
    else if s == "active"@ { Some(NodeStatus::Active) }
    else if s == "suspended"@ { Some(NodeStatus::Suspended) }
    else if s == "removed"@ { Some(NodeStatus::Removed) }
    else { None }
}

impl NodeStatus {
    /// The stored text of the status.
    pub fn as_str(&self) -> (r: &'static str)
        ensures
            r@ == node_status_text(*self),
    {
        match self {
            NodeStatus::Pending => "pending",
            NodeStatus::Active => "active",
            NodeStatus::Suspended => "suspended",
            NodeStatus::Removed => "removed",
        }
    }

    /// The status a text names, if any.
    pub fn from_str(s: &str) -> (r: Option<NodeStatus>)
        ensures
            r == node_status_from_text(s@),
    {
        if str_eq(s, "pending") { Some(NodeStatus::Pending) }
        else if str_eq(s, "active") { Some(NodeStatus::Active) }
        else if str_eq(s, "suspended") { Some(NodeStatus::Suspended) }
        else if str_eq(s, "removed") { Some(NodeStatus::Removed) }
        else { None }
    }
}

/// Parsing the text of a node status gives the status back.
pub proof fn lemma_node_status_round_trip(s: NodeStatus)
    ensures
        node_status_from_text(node_status_text(s)) == Some(s),
{
    reveal_strlit("pending");
    reveal_strlit("active");
    reveal_strlit("suspended");
    reveal_strlit("removed");
    assert("pending"@[0] != "active"@[0]);
    assert("pending"@[0] != "suspended"@[0]);
    assert("pending"@[0] != "removed"@[0]);
    assert("active"@[0] != "suspended"@[0]);
    assert("active"@[0] != "removed"@[0]);
    assert("suspended"@[0] != "removed"@[0]);
}

/// What a node signals about a pull request.
#[derive(Debug, Clone, Copy, PartialEq, Eq, Structural)]
pub enum SignalType {
    Veto,
    Support,
    Abstain,
}

/// The stored text of a signal type.
pub open spec fn signal_type_text(s: SignalType) -> Seq<char> {
    match s {
        SignalType::Veto => "veto"@,
        SignalType::Support => "support"@,
        SignalType::Abstain => "abstain"@,
    }
}

/// The signal type a text names, if any.
pub open spec fn signal_type_from_text(s: Seq<char>) -> Option<SignalType> {
    if s == "veto"@ { Some(SignalType::Veto) }
    else if s == "support"@ { Some(SignalType::Support) }
    else if s == "abstain"@ { Some(SignalType::Abstain) }
    else { None }
}

impl SignalType {
    /// The stored text of the signal type.
    pub fn as_str(&self) -> (r: &'static str)
        ensures
            r@ == signal_type_text(*self),
    {
        match self {
            SignalType::Veto => "veto",
            SignalType::Support => "support",
            SignalType::Abstain => "abstain",
        }
    }

    /// The signal type a text names, if any.
    pub fn from_str(s: &str) -> (r: Option<SignalType>)
        ensures
            r == signal_type_from_text(s@),
    {
        if str_eq(s, "veto") { Some(SignalType::Veto) }
        else if str_eq(s, "support") { Some(SignalType::Support) }
        else if str_eq(s, "abstain") { Some(SignalType::Abstain) }
        else { None }
    }
}

/// Parsing the text of a signal type gives the signal type back.
pub proof fn lemma_signal_type_round_trip(s: SignalType)
    ensures
        signal_type_from_text(signal_type_text(s)) == Some(s),
{
    reveal_strlit("veto");
    reveal_strlit("support");
    reveal_strlit("abstain");
    assert("veto"@[0] != "support"@[0]);
    assert("veto"@[0] != "abstain"@[0]);
    assert("support"@[0] != "abstain"@[0]);
}

/// How to reach the entity behind a node.
#[derive(Debug)]
pub struct ContactInfo {
    pub entity_name: String,
    pub contact_email: String,
    pub website: Option<String>,
    pub github_username: Option<String>,
}

} // verus!
