//! Similarity metrics, as the vector store names them.

use milvus::index::MetricType;
use std::str::FromStr;
use vstd::prelude::*;

verus! {

/// A distance or similarity function the vector store can rank by.
#[derive(Clone, Copy, Debug, PartialEq, Eq, Structural)]
pub enum Metric {
    Invalid,
    L2,
    Ip,
    Cosine,
    Hamming,
    Jaccard,
    MhJaccard,
    Bm25,
    MaxSimCosine,
    MaxSimIp,
    MaxSimL2,
    MaxSimJaccard,
    MaxSimHamming,
}

/// The metric that a name denotes, if it denotes one. Names are matched
/// exactly, letter case included; `MAX_SIM` is a second name for
/// `MAX_SIM_COSINE`.
pub open spec fn metric_named(name: Seq<char>) -> Option<Metric> {
    if name == "INVALID"@ {
        Some(Metric::Invalid)
    } else if name == "L2"@ {
        Some(Metric::L2)
    } else if name == "IP"@ {
        Some(Metric::Ip)
    } else if name == "COSINE"@ {
        Some(Metric::Cosine)
    } else if name == "HAMMING"@ {
        Some(Metric::Hamming)
    } else if name == "JACCARD"@ {
        Some(Metric::Jaccard)
    } else if name == "MHJACCARD"@ {
        Some(Metric::MhJaccard)
    } else if name == "BM25"@ {
        Some(Metric::Bm25)
    } else if name == "MAX_SIM"@ || name == "MAX_SIM_COSINE"@ {
        Some(Metric::MaxSimCosine)
    } else if name == "MAX_SIM_IP"@ {
        Some(Metric::MaxSimIp)
    } else if name == "MAX_SIM_L2"@ {
        Some(Metric::MaxSimL2)
    } else if name == "MAX_SIM_JACCARD"@ {
        Some(Metric::MaxSimJaccard)
    } else if name == "MAX_SIM_HAMMING"@ {
        Some(Metric::MaxSimHamming)
    } else {
        None
    }
}

/// The metric a configured name stands for: the one it denotes, and inner
/// product when it denotes none.
pub open spec fn metric_or_default(name: Seq<char>) -> Metric {
    match metric_named(name) {
        Some(m) => m,
        None => Metric::Ip,
    }
}

/// Calls `milvus::index::MetricType::from_str`, the parser that the store's
/// client derives for its metric enum, and hands the variant over as a
/// [`Metric`]. Trusted: the parser accepts exactly the names listed in
/// [`metric_named`] and maps each to the variant given there.
#[verifier::external_body]
fn parse_metric(name: &str) -> (parsed: Option<Metric>)
    ensures
        parsed == metric_named(name@),
{
    Some(match MetricType::from_str(name).ok()? {
        MetricType::INVALID => Metric::Invalid,
        MetricType::L2 => Metric::L2,
        MetricType::IP => Metric::Ip,
        MetricType::COSINE => Metric::Cosine,
        MetricType::HAMMING => Metric::Hamming,
        MetricType::JACCARD => Metric::Jaccard,
        MetricType::MHJACCARD => Metric::MhJaccard,
        MetricType::BM25 => Metric::Bm25,
        MetricType::MAX_SIM_COSINE => Metric::MaxSimCosine,
        MetricType::MAX_SIM_IP => Metric::MaxSimIp,
        MetricType::MAX_SIM_L2 => Metric::MaxSimL2,
        MetricType::MAX_SIM_JACCARD => Metric::MaxSimJaccard,
        MetricType::MAX_SIM_HAMMING => Metric::MaxSimHamming,
    })
}

impl Metric {
    /// The name under which the store knows this metric.
    pub open spec fn spec_name(self) -> Seq<char> {
        match self {
            Metric::Invalid => "INVALID"@,
            Metric::L2 => "L2"@,
            Metric::Ip => "IP"@,
            Metric::Cosine => "COSINE"@,
            Metric::Hamming => "HAMMING"@,
            Metric::Jaccard => "JACCARD"@,
            Metric::MhJaccard => "MHJACCARD"@,
            Metric::Bm25 => "BM25"@,
            Metric::MaxSimCosine => "MAX_SIM_COSINE"@,
            Metric::MaxSimIp => "MAX_SIM_IP"@,
            Metric::MaxSimL2 => "MAX_SIM_L2"@,
            Metric::MaxSimJaccard => "MAX_SIM_JACCARD"@,
            Metric::MaxSimHamming => "MAX_SIM_HAMMING"@,
        }
    }

    /// The name under which the store knows this metric.
    pub fn name(&self) -> (n: &'static str)
        ensures
            n@ == self.spec_name(),
    {
        match self {
            Metric::Invalid => "INVALID",
            Metric::L2 => "L2",
            Metric::Ip => "IP",
            Metric::Cosine => "COSINE",
            Metric::Hamming => "HAMMING",
            Metric::Jaccard => "JACCARD",
            Metric::MhJaccard => "MHJACCARD",
            Metric::Bm25 => "BM25",
            Metric::MaxSimCosine => "MAX_SIM_COSINE",
            Metric::MaxSimIp => "MAX_SIM_IP",
            Metric::MaxSimL2 => "MAX_SIM_L2",
            Metric::MaxSimJaccard => "MAX_SIM_JACCARD",
            Metric::MaxSimHamming => "MAX_SIM_HAMMING",
        }
    }

    /// Reads a metric name; `None` when the name denotes no metric.
    pub fn parse(name: &str) -> (parsed: Option<Metric>)
        ensures
            parsed == metric_named(name@),
    {
        parse_metric(name)
    }

    /// Reads a configured metric name, falling back to inner product when
    /// the name denotes no metric.
    pub fn resolve(name: &str) -> (m: Metric)
        ensures
            m == metric_or_default(name@),
    {
        match parse_metric(name) {
            Some(m) => m,
            None => Metric::Ip,
        }
    }
}

/// Every metric is the one its own name denotes.
pub proof fn lemma_name_denotes_metric(m: Metric)
    ensures
        metric_named(m.spec_name()) == Some(m),
        metric_or_default(m.spec_name()) == m,
{
    reveal_strlit("INVALID");
    reveal_strlit("L2");
    reveal_strlit("IP");
    reveal_strlit("COSINE");
    reveal_strlit("HAMMING");
    reveal_strlit("JACCARD");
    reveal_strlit("MHJACCARD");
    reveal_strlit("BM25");
    reveal_strlit("MAX_SIM");
    reveal_strlit("MAX_SIM_COSINE");
    reveal_strlit("MAX_SIM_IP");
    reveal_strlit("MAX_SIM_L2");
    reveal_strlit("MAX_SIM_JACCARD");
    reveal_strlit("MAX_SIM_HAMMING");
    // Names differ in length, and those of one length in a single position.
    assert("INVALID"@.len() == 7 && "HAMMING"@.len() == 7 && "JACCARD"@.len() == 7);
    assert("L2"@.len() == 2 && "IP"@.len() == 2 && "COSINE"@.len() == 6);
    assert("MHJACCARD"@.len() == 9 && "BM25"@.len() == 4 && "MAX_SIM"@.len() == 7);
    assert("MAX_SIM_COSINE"@.len() == 14 && "MAX_SIM_IP"@.len() == 10);
    assert("MAX_SIM_L2"@.len() == 10 && "MAX_SIM_JACCARD"@.len() == 15);
    assert("MAX_SIM_HAMMING"@.len() == 15);
    assert("L2"@[0] != "IP"@[0]);
    assert("INVALID"@[0] != "HAMMING"@[0] && "INVALID"@[0] != "JACCARD"@[0]);
    assert("INVALID"@[0] != "MAX_SIM"@[0] && "HAMMING"@[0] != "JACCARD"@[0]);
    assert("HAMMING"@[0] != "MAX_SIM"@[0] && "JACCARD"@[0] != "MAX_SIM"@[0]);
    assert("MAX_SIM_IP"@[8] != "MAX_SIM_L2"@[8]);
    assert("MAX_SIM_JACCARD"@[8] != "MAX_SIM_HAMMING"@[8]);
}

} // verus!
