//! The multi-server sampler: the per-server outcome policy (fatal errors
//! abort the batch, soft failures degrade one entry to "no result"), the
//! sample set it produces, and the client configuration that names the
//! servers to probe.

use vstd::prelude::*;
use crate::errors::{LunartickError, is_fatal_spec};
use crate::sample::NTPResult;

verus! {

/// What one server's probe outcome contributes to the sample set: a present
/// sample on success, no entry on a soft failure.
pub open spec fn sample_entry_spec(o: Result<NTPResult, LunartickError>) -> Option<NTPResult> {
    match o {
        Ok(s) => Some(s),
        Err(_) => None,
    }
}

/// The offset a sample set entry reports: the sample's offset in whole
/// milliseconds, or nothing where the server produced no result.
pub open spec fn offset_entry_spec(s: Option<NTPResult>) -> Option<i64> {
    match s {
        Some(r) => Some(r.offset_spec() as i64),
        None => None,
    }
}

/// The batch outcome at index `i` is the first fatal one, and its error is
/// `e`: every outcome before it was a success or a soft failure.
pub open spec fn first_fatal_at(
    outcomes: Seq<Result<NTPResult, LunartickError>>,
    i: int,
    e: LunartickError,
) -> bool {
    &&& 0 <= i < outcomes.len()
    &&& outcomes[i] == Err::<NTPResult, LunartickError>(e)
    &&& is_fatal_spec(e)
    &&& forall|j: int| 0 <= j < i ==> !(outcomes[j] is Err && is_fatal_spec(outcomes[j]->Err_0))
}

/// One sampling run's results: each requested server, in order, paired with
/// its optional round-trip sample.
#[derive(Debug)]
pub struct TestResults {
    pub servers: Vec<String>,
    pub samples: Vec<Option<NTPResult>>,
}

impl TestResults {
    /// Servers and samples are paired one to one, and every present sample
    /// carries timestamps in the supported instant range.
    pub open spec fn wf(self) -> bool {
        &&& self.servers@.len() == self.samples@.len()
        &&& forall|i: int|
            0 <= i < self.samples@.len() && self.samples@[i] is Some ==> self.samples@[i]->0.wf()
    }

    /// Pairs each server with the offset of its sample: the per-server
    /// millisecond report of a sampling run.
    pub fn get_all_results(&self) -> (r: Vec<(String, Option<i64>)>)
        requires
            self.wf(),
        ensures
            r@.len() == self.servers@.len(),
            forall|i: int|
                0 <= i < r@.len() ==> r@[i].0@ == self.servers@[i]@ && r@[i].1
                    == offset_entry_spec(self.samples@[i]),
    {
        let mut out: Vec<(String, Option<i64>)> = Vec::new();
        let n = self.servers.len();
        let mut i: usize = 0;
        while i < n
            invariant
                i <= n,
                n == self.servers@.len(),
                self.wf(),
                out@.len() == i,
                forall|j: int|
                    0 <= j < i ==> out@[j].0@ == self.servers@[j]@ && out@[j].1
                        == offset_entry_spec(self.samples@[j]),
            decreases n - i,
        {
            let name = self.servers[i].clone();
            let entry: Option<i64> = match &self.samples[i] {
                Some(s) => Some(s.offset()),
                None => None,
            };
            out.push((name, entry));
            i = i + 1;
        }
        out
    }
}

/// Applies the per-server outcome policy to one probe outcome: a fatal
/// error (connection or timestamp-parse failure) aborts the batch, any
/// other error degrades the entry to "no result", and a sample is kept.
pub fn outcome_to_entry(outcome: Result<NTPResult, LunartickError>) -> (r: Result<
    Option<NTPResult>,
    LunartickError,
>)
    ensures
        match outcome {
            Ok(s) => r == Ok::<Option<NTPResult>, LunartickError>(Some(s)),
            Err(e) => if is_fatal_spec(e) {
                r == Err::<Option<NTPResult>, LunartickError>(e)
            } else {
                r == Ok::<Option<NTPResult>, LunartickError>(None::<NTPResult>)
            },
        },
{
    match outcome {
        Ok(s) => Ok(Some(s)),
        Err(e) => {
            if crate::errors::is_fatal(&e) {
                Err(e)
            } else {
                Ok(None)
            }
        },
    }
}

/// Folds a whole batch of per-server outcomes into a sample set, applying
/// the outcome policy in order: the first fatal outcome aborts the batch
/// with its error; otherwise every server keeps its entry, in order.
pub fn collect_samples(servers: Vec<String>, outcomes: Vec<Result<NTPResult, LunartickError>>) -> (r:
    Result<TestResults, LunartickError>)
    requires
        servers@.len() == outcomes@.len(),
    ensures
        match r {
            Ok(tr) => {
                &&& forall|i: int|
                    0 <= i < outcomes@.len() ==> !(outcomes@[i] is Err && is_fatal_spec(
                        outcomes@[i]->Err_0,
                    ))
                &&& tr.servers@ == servers@
                &&& tr.samples@.len() == outcomes@.len()
                &&& forall|i: int|
                    0 <= i < outcomes@.len() ==> tr.samples@[i] == sample_entry_spec(outcomes@[i])
            },
            Err(e) => exists|i: int| first_fatal_at(outcomes@, i, e),
        },
{
    let mut samples: Vec<Option<NTPResult>> = Vec::new();
    let n = outcomes.len();
    let mut i: usize = 0;
    while i < n
        invariant
            i <= n,
            n == outcomes@.len(),
            samples@.len() == i,
            forall|j: int|
                0 <= j < i ==> !(outcomes@[j] is Err && is_fatal_spec(outcomes@[j]->Err_0)),
            forall|j: int| 0 <= j < i ==> samples@[j] == sample_entry_spec(outcomes@[j]),
        decreases n - i,
    {
        match &outcomes[i] {
            Ok(s) => samples.push(Some(*s)),
            Err(err) => {
                if crate::errors::is_fatal(err) {
                    let e = err.duplicate();
                    proof {
                        assert(first_fatal_at(outcomes@, i as int, e));
                    }
                    return Err(e);
                } else {
                    samples.push(None);
                }
            },
        }
        i = i + 1;
    }
    Ok(TestResults { servers, samples })
}

/// The configured NTP client: the ordered list of servers one sampling run
/// probes.
#[derive(Debug)]
pub struct NTPClient {
    pub servers: Vec<String>,
}

impl Default for NTPClient {
    /// The built-in public server list.
    fn default() -> (r: Self)
        ensures
            r.servers@.len() == 5,
            r.servers@[0]@ == "time.nist.gov"@,
            r.servers@[1]@ == "time.apple.com"@,
            r.servers@[2]@ == "time.euro.apple.com"@,
            r.servers@[3]@ == "time.google.com"@,
            r.servers@[4]@ == "time2.google.com"@,
    {
        let mut servers: Vec<String> = Vec::new();
        servers.push(String::from_str("time.nist.gov"));
        servers.push(String::from_str("time.apple.com"));
        servers.push(String::from_str("time.euro.apple.com"));
        servers.push(String::from_str("time.google.com"));
        servers.push(String::from_str("time2.google.com"));
        NTPClient { servers }
    }
}

impl NTPClient {
    /// A client over the built-in server list.
    pub fn new() -> (r: Self)
        ensures
            r.servers@.len() == 5,
            r.servers@[0]@ == "time.nist.gov"@,
            r.servers@[1]@ == "time.apple.com"@,
            r.servers@[2]@ == "time.euro.apple.com"@,
            r.servers@[3]@ == "time.google.com"@,
            r.servers@[4]@ == "time2.google.com"@,
    {
        Self::default()
    }

    /// A client over a single server.
    pub fn new_with_server(server: String) -> (r: Self)
        ensures
            r.servers@.len() == 1,
            r.servers@[0] == server,
    {
        let mut servers: Vec<String> = Vec::new();
        servers.push(server);
        NTPClient { servers }
    }

    /// A client over a caller-supplied server list.
    pub fn new_with_multiple_servers(servers: Vec<String>) -> (r: Self)
        ensures
            r.servers == servers,
    {
        NTPClient { servers }
    }

    /// The configured server list, as a copy.
    pub fn get_servers(&self) -> (r: Vec<String>)
        ensures
            r@.len() == self.servers@.len(),
            forall|i: int| 0 <= i < r@.len() ==> r@[i]@ == self.servers@[i]@,
    {
        let mut out: Vec<String> = Vec::new();
        let n = self.servers.len();
        let mut i: usize = 0;
        while i < n
            invariant
                i <= n,
                n == self.servers@.len(),
                out@.len() == i,
                forall|j: int| 0 <= j < i ==> out@[j]@ == self.servers@[j]@,
            decreases n - i,
        {
            out.push(self.servers[i].clone());
            i = i + 1;
        }
        out
    }
}

} // verus!
