use vstd::prelude::*;
use vstd::string::StringExecFns;

verus! {

/// Settings of the sink that forwards metrics to Sentry.
pub struct SentrySinkConfig {
    /// Where the Sentry project receives events.
    pub dsn: String,
}

/// A sink that sends each metric it receives to Sentry.
pub struct SentryMetricsSink {
    pub dsn: String,
}

/// The name under which a metric is sent: its namespace and its name joined
/// by a dot, or its name alone when the namespace is absent or empty.
pub open spec fn full_metric_name(namespace: Option<Seq<char>>, name: Seq<char>) -> Seq<char> {
    match namespace {
        Some(ns) => if ns.len() > 0 {
            ns + seq!['.'] + name
        } else {
            name
        },
        None => name,
    }
}

/// Builds the name under which a metric is sent (see [`full_metric_name`]).
pub fn metric_name(namespace: &Option<String>, name: &str) -> (r: String)
    ensures
        r@ == full_metric_name(
            match namespace {
                Some(ns) => Some(ns@),
                None => None,
            },
            name@,
        ),
{
    let mut full = match namespace {
        Some(ns) => ns.clone(),
        None => String::new(),
    };
    if !full.as_str().is_empty() {
        proof {
            reveal_strlit(".");
        }
        full.append(".");
    }
    full.append(name);
    full
}

impl SentrySinkConfig {
    /// Makes the sink that these settings describe.
    pub fn build(&self) -> (r: SentryMetricsSink)
        ensures
            r.dsn@ == self.dsn@,
    {
        SentryMetricsSink { dsn: self.dsn.clone() }
    }
}

} // verus!
