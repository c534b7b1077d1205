//! The counters that the services keep.
use vstd::prelude::*;

verus! {

/// A counter, under one value of its label where it has one.
#[derive(Clone, Copy, Debug, PartialEq, Eq, Structural)]
pub enum Counter {
    /// Requests to create a transaction.
    HttpRequests,
    /// Transactions that could not be published.
    KafkaPublishErrors,
    /// Transactions that were published.
    TransactionsPublished,
    /// Transactions that were screened and found clean.
    ProcessedClean,
    /// Transactions that were screened and flagged.
    ProcessedFlagged,
}

impl Counter {
    /// The name that the counter is exported under.
    pub open spec fn spec_name(self) -> Seq<char> {
        match self {
            Counter::HttpRequests => "http_requests_total"@,
            Counter::KafkaPublishErrors => "kafka_publish_errors_total"@,
            Counter::TransactionsPublished => "transactions_published_total"@,
            Counter::ProcessedClean => "transactions_processed_total"@,
            Counter::ProcessedFlagged => "transactions_processed_total"@,
        }
    }

    /// The key and the value of the counter's label.
    pub open spec fn spec_label(self) -> Option<(Seq<char>, Seq<char>)> {
        match self {
            Counter::HttpRequests => Some(("route"@, "transactions"@)),
            Counter::KafkaPublishErrors => None,
            Counter::TransactionsPublished => None,
            Counter::ProcessedClean => Some(("flagged"@, "false"@)),
            Counter::ProcessedFlagged => Some(("flagged"@, "true"@)),
        }
    }

    /// The name that the counter is exported under.
    pub fn name(&self) -> (name: &'static str)
        ensures
            name@ == self.spec_name(),
            match self {
                Counter::HttpRequests => name@ == "http_requests_total"@,
                Counter::KafkaPublishErrors => name@ == "kafka_publish_errors_total"@,
                Counter::TransactionsPublished => name@ == "transactions_published_total"@,
                Counter::ProcessedClean => name@ == "transactions_processed_total"@,
                Counter::ProcessedFlagged => name@ == "transactions_processed_total"@,
            },
    {
        match self {
            Counter::HttpRequests => "http_requests_total",
            Counter::KafkaPublishErrors => "kafka_publish_errors_total",
            Counter::TransactionsPublished => "transactions_published_total",
            Counter::ProcessedClean => "transactions_processed_total",
            Counter::ProcessedFlagged => "transactions_processed_total",
        }
    }

    /// The key and the value of the counter's label, where it has one.
    pub fn label(&self) -> (label: Option<(&'static str, &'static str)>)
        ensures
            match label {
                Some((key, value)) => self.spec_label() == Some((key@, value@)),
                None => self.spec_label() is None,
            },
            match self {
                Counter::HttpRequests => label matches Some((key, value)) && key@ == "route"@
                    && value@ == "transactions"@,
                Counter::KafkaPublishErrors => label is None,
                Counter::TransactionsPublished => label is None,
                Counter::ProcessedClean => label matches Some((key, value)) && key@ == "flagged"@
                    && value@ == "false"@,
                Counter::ProcessedFlagged => label matches Some((key, value)) && key@ == "flagged"@
                    && value@ == "true"@,
            },
    {
        match self {
            Counter::HttpRequests => Some(("route", "transactions")),
            Counter::KafkaPublishErrors => None,
            Counter::TransactionsPublished => None,
            Counter::ProcessedClean => Some(("flagged", "false")),
            Counter::ProcessedFlagged => Some(("flagged", "true")),
        }
    }
}

/// How often a counter was incremented in a sequence of increments.
pub open spec fn tally(increments: Seq<Counter>, counter: Counter) -> nat
    decreases increments.len(),
{
    if increments.len() == 0 {
        0
    } else {
        tally(increments.drop_last(), counter) + (if increments.last() == counter {
            1nat
        } else {
            0
        })
    }
}

/// One more increment.
pub proof fn lemma_tally_push(increments: Seq<Counter>, next: Counter, counter: Counter)
    ensures
        tally(increments.push(next), counter) == tally(increments, counter) + (if next == counter {
            1nat
        } else {
            0
        }),
{
    assert(increments.push(next).drop_last() =~= increments);
}

} // verus!
